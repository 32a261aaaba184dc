//! Resolved types: what a type expression or an expression denotes once its
//! names have been looked up.
use crate::syntax::{
    clone_abilities, clone_name, clone_struct_type_parameters, clone_type_parameters, views,
    views_pointwise, Ability, Field, Name, NameModel, Spanned, StructTypeParameter,
    StructTypeParameterModel, Symbol, TypeModel, Type_,
};
use vstd::prelude::*;

verus! {

/// The primitive types.
#[derive(Clone, Copy, Debug, PartialEq, Eq)]
pub enum BuildInType {
    Bool,
    U8,
    U64,
    U128,
    Address,
    /// The type of a number literal, which is fixed by how it is used.
    NumType,
    /// The type of a hex or byte string literal.
    String,
}

/// The primitive type that a text names, if it names one.
pub open spec fn build_in_of(text: Seq<char>) -> Option<BuildInType> {
    if text == "u8"@ {
        Some(BuildInType::U8)
    } else if text == "u64"@ {
        Some(BuildInType::U64)
    } else if text == "u128"@ {
        Some(BuildInType::U128)
    } else if text == "bool"@ {
        Some(BuildInType::Bool)
    } else if text == "address"@ {
        Some(BuildInType::Address)
    } else {
        None
    }
}

impl BuildInType {
    /// The primitive type named `u8`, `u64`, `u128`, `bool` or `address`.
    pub fn from_symbol(s: &Symbol) -> (r: Option<Self>)
        ensures
            r == build_in_of(s@),
    {
        if s.is("u8") {
            Some(BuildInType::U8)
        } else if s.is("u64") {
            Some(BuildInType::U64)
        } else if s.is("u128") {
            Some(BuildInType::U128)
        } else if s.is("bool") {
            Some(BuildInType::Bool)
        } else if s.is("address") {
            Some(BuildInType::Address)
        } else {
            None
        }
    }
}

/// The shape of a resolved type.
#[derive(Debug, PartialEq, Eq)]
pub enum ResolvedType_ {
    /// Nothing is known.
    UnKnown,
    /// A struct: its name, its type parameters, its fields in order.
    Struct(Name, Vec<StructTypeParameter>, Vec<(Field, ResolvedType)>),
    BuildInType(BuildInType),
    /// A type parameter with its constraints.
    TParam(Name, Vec<Ability>),
    /// A type parameter that a type was substituted for. It stands only
    /// between two steps and is never substituted into again.
    ApplyTParam(Box<ResolvedType>, Name, Vec<Ability>),
    /// `&t` or `&mut t`.
    Ref(bool, Box<ResolvedType>),
    Unit,
    /// `(t1, .., tn)`.
    Multiple(Vec<ResolvedType>),
    /// A function: type parameters, parameter types, return type.
    Fun(Vec<(Name, Vec<Ability>)>, Vec<ResolvedType>, Box<ResolvedType>),
    /// A vector of the given element type.
    Vec(Box<ResolvedType>),
    /// A type expression that names nothing that is declared.
    ResolvedFailed(Type_),
}

/// A resolved type and the place it was resolved for.
#[derive(Debug, PartialEq, Eq)]
pub struct ResolvedType(pub Spanned<ResolvedType_>);

pub enum ResolvedTypeModel {
    UnKnown,
    Struct(NameModel, Seq<StructTypeParameterModel>, Seq<(NameModel, Spanned<ResolvedTypeModel>)>),
    BuildInType(BuildInType),
    TParam(NameModel, Seq<Ability>),
    ApplyTParam(Box<Spanned<ResolvedTypeModel>>, NameModel, Seq<Ability>),
    Ref(bool, Box<Spanned<ResolvedTypeModel>>),
    Unit,
    Multiple(Seq<Spanned<ResolvedTypeModel>>),
    Fun(
        Seq<(NameModel, Seq<Ability>)>,
        Seq<Spanned<ResolvedTypeModel>>,
        Box<Spanned<ResolvedTypeModel>>,
    ),
    Vec(Box<Spanned<ResolvedTypeModel>>),
    ResolvedFailed(TypeModel),
}

/// The view of a resolved type.
pub type Resolved = Spanned<ResolvedTypeModel>;

impl ResolvedType_ {
    pub open spec fn model(self) -> ResolvedTypeModel
        decreases self,
    {
        match self {
            ResolvedType_::UnKnown => ResolvedTypeModel::UnKnown,
            ResolvedType_::Struct(n, ps, fs) => ResolvedTypeModel::Struct(
                n@,
                views(ps@),
                resolved_field_models(fs@),
            ),
            ResolvedType_::BuildInType(b) => ResolvedTypeModel::BuildInType(b),
            ResolvedType_::TParam(n, abs) => ResolvedTypeModel::TParam(n@, abs@),
            ResolvedType_::ApplyTParam(t, n, abs) => ResolvedTypeModel::ApplyTParam(
                Box::new(Spanned { loc: t.0.loc, value: t.0.value.model() }),
                n@,
                abs@,
            ),
            ResolvedType_::Ref(m, t) => ResolvedTypeModel::Ref(
                m,
                Box::new(Spanned { loc: t.0.loc, value: t.0.value.model() }),
            ),
            ResolvedType_::Unit => ResolvedTypeModel::Unit,
            ResolvedType_::Multiple(ts) => ResolvedTypeModel::Multiple(resolved_models(ts@)),
            ResolvedType_::Fun(ps, ts, r) => ResolvedTypeModel::Fun(
                views(ps@),
                resolved_models(ts@),
                Box::new(Spanned { loc: r.0.loc, value: r.0.value.model() }),
            ),
            ResolvedType_::Vec(t) => ResolvedTypeModel::Vec(
                Box::new(Spanned { loc: t.0.loc, value: t.0.value.model() }),
            ),
            ResolvedType_::ResolvedFailed(t) => ResolvedTypeModel::ResolvedFailed(t@),
        }
    }
}

pub open spec fn resolved_models(ts: Seq<ResolvedType>) -> Seq<Resolved>
    decreases ts,
{
    if ts.len() == 0 {
        Seq::empty()
    } else {
        resolved_models(ts.drop_last()).push(
            Spanned { loc: ts.last().0.loc, value: ts.last().0.value.model() },
        )
    }
}

pub open spec fn resolved_field_models(fs: Seq<(Field, ResolvedType)>) -> Seq<(NameModel, Resolved)>
    decreases fs,
{
    if fs.len() == 0 {
        Seq::empty()
    } else {
        resolved_field_models(fs.drop_last()).push(
            (fs.last().0@, Spanned { loc: fs.last().1.0.loc, value: fs.last().1.0.value.model() }),
        )
    }
}

impl View for ResolvedType_ {
    type V = ResolvedTypeModel;

    open spec fn view(&self) -> ResolvedTypeModel {
        self.model()
    }
}

impl View for ResolvedType {
    type V = Resolved;

    open spec fn view(&self) -> Resolved {
        self.0@
    }
}

/// The model of a list of resolved types is the list of their views.
pub proof fn resolved_models_are_views(ts: Seq<ResolvedType>)
    ensures
        resolved_models(ts) == views(ts),
    decreases ts.len(),
{
    if ts.len() > 0 {
        resolved_models_are_views(ts.drop_last());
        assert(views(ts.drop_last()).len() == ts.len() - 1);
        assert forall|i: int| 0 <= i < ts.len() implies resolved_models(ts)[i] == views(ts)[i] by {
            if i < ts.len() - 1 {
                assert(views(ts.drop_last())[i] == ts.drop_last()[i]@);
            }
        }
    }
    assert(resolved_models(ts) =~= views(ts));
}

/// The model of a list of typed fields is the list of their views.
pub proof fn resolved_field_models_are_views(fs: Seq<(Field, ResolvedType)>)
    ensures
        resolved_field_models(fs) == views(fs),
    decreases fs.len(),
{
    if fs.len() > 0 {
        resolved_field_models_are_views(fs.drop_last());
        assert(views(fs.drop_last()).len() == fs.len() - 1);
        assert forall|i: int| 0 <= i < fs.len() implies resolved_field_models(fs)[i] == views(
            fs,
        )[i] by {
            if i < fs.len() - 1 {
                assert(views(fs.drop_last())[i] == fs.drop_last()[i]@);
            }
        }
    }
    assert(resolved_field_models(fs) =~= views(fs));
}

/// The view of a resolved type, one level down, in terms of the views of its
/// parts.
pub broadcast proof fn resolved_view_unfolds(t: ResolvedType_)
    ensures
        #[trigger] t.model() == (match t {
            ResolvedType_::UnKnown => ResolvedTypeModel::UnKnown,
            ResolvedType_::Struct(n, ps, fs) => ResolvedTypeModel::Struct(n@, views(ps@), views(fs@)),
            ResolvedType_::BuildInType(b) => ResolvedTypeModel::BuildInType(b),
            ResolvedType_::TParam(n, abs) => ResolvedTypeModel::TParam(n@, abs@),
            ResolvedType_::ApplyTParam(t, n, abs) => ResolvedTypeModel::ApplyTParam(
                Box::new((*t)@),
                n@,
                abs@,
            ),
            ResolvedType_::Ref(m, t) => ResolvedTypeModel::Ref(m, Box::new((*t)@)),
            ResolvedType_::Unit => ResolvedTypeModel::Unit,
            ResolvedType_::Multiple(ts) => ResolvedTypeModel::Multiple(views(ts@)),
            ResolvedType_::Fun(ps, ts, r) => ResolvedTypeModel::Fun(
                views(ps@),
                views(ts@),
                Box::new((*r)@),
            ),
            ResolvedType_::Vec(t) => ResolvedTypeModel::Vec(Box::new((*t)@)),
            ResolvedType_::ResolvedFailed(t) => ResolvedTypeModel::ResolvedFailed(t@),
        }),
{
    match t {
        ResolvedType_::Struct(n, ps, fs) => resolved_field_models_are_views(fs@),
        ResolvedType_::Multiple(ts) => resolved_models_are_views(ts@),
        ResolvedType_::Fun(ps, ts, r) => resolved_models_are_views(ts@),
        _ => {},
    }
}

/// A copy of a list of resolved types.
pub fn clone_resolved_types(ts: &Vec<ResolvedType>) -> (r: Vec<ResolvedType>)
    ensures
        views(r@) == views(ts@),
    decreases ts,
{
    let mut out: Vec<ResolvedType> = Vec::new();
    let mut i: usize = 0;
    while i < ts.len()
        invariant
            i <= ts.len(),
            out.len() == i,
            forall|j: int| 0 <= j < i ==> out[j]@ == ts[j]@,
        decreases ts.len() - i,
    {
        out.push(ts[i].clone());
        i += 1;
    }
    proof {
        views_pointwise(out@, ts@);
    }
    out
}

/// A copy of a list of typed fields.
pub fn clone_resolved_fields(fs: &Vec<(Field, ResolvedType)>) -> (r: Vec<(Field, ResolvedType)>)
    ensures
        views(r@) == views(fs@),
    decreases fs,
{
    let mut out: Vec<(Field, ResolvedType)> = Vec::new();
    let mut i: usize = 0;
    while i < fs.len()
        invariant
            i <= fs.len(),
            out.len() == i,
            forall|j: int| 0 <= j < i ==> out[j]@ == fs[j]@,
        decreases fs.len() - i,
    {
        let f = clone_name(&fs[i].0);
        let t = fs[i].1.clone();
        out.push((f, t));
        i += 1;
    }
    proof {
        views_pointwise(out@, fs@);
    }
    out
}

impl Clone for ResolvedType_ {
    fn clone(&self) -> (r: Self)
        ensures
            r@ == self@,
        decreases self,
    {
        broadcast use resolved_view_unfolds;

        match self {
            ResolvedType_::UnKnown => ResolvedType_::UnKnown,
            ResolvedType_::Struct(n, ps, fs) => ResolvedType_::Struct(
                clone_name(n),
                clone_struct_type_parameters(ps),
                clone_resolved_fields(fs),
            ),
            ResolvedType_::BuildInType(b) => ResolvedType_::BuildInType(*b),
            ResolvedType_::TParam(n, abs) => ResolvedType_::TParam(clone_name(n), clone_abilities(abs)),
            ResolvedType_::ApplyTParam(t, n, abs) => ResolvedType_::ApplyTParam(
                Box::new((**t).clone()),
                clone_name(n),
                clone_abilities(abs),
            ),
            ResolvedType_::Ref(m, t) => ResolvedType_::Ref(*m, Box::new((**t).clone())),
            ResolvedType_::Unit => ResolvedType_::Unit,
            ResolvedType_::Multiple(ts) => ResolvedType_::Multiple(clone_resolved_types(ts)),
            ResolvedType_::Fun(ps, ts, r) => ResolvedType_::Fun(
                clone_type_parameters(ps),
                clone_resolved_types(ts),
                Box::new((**r).clone()),
            ),
            ResolvedType_::Vec(t) => ResolvedType_::Vec(Box::new((**t).clone())),
            ResolvedType_::ResolvedFailed(t) => ResolvedType_::ResolvedFailed(t.clone()),
        }
    }
}

impl Clone for ResolvedType {
    fn clone(&self) -> (r: Self)
        ensures
            r@ == self@,
        decreases self,
    {
        ResolvedType(Spanned { loc: self.0.loc, value: self.0.value.clone() })
    }
}

} // verus!
