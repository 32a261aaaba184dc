//! The algebra of resolved types: builders, accessors, the substitution of
//! type parameters, and the inference of type arguments from argument types.
use crate::syntax::{
    clone_name, opt_view, views, Ability, Field, Loc, Name, NameModel, Spanned, Symbol,
};
use crate::table::Table;
use crate::types::{BuildInType, Resolved, ResolvedType, ResolvedTypeModel, ResolvedType_};
use vstd::prelude::*;

verus! {

broadcast use {crate::syntax::syntax_views, crate::types::resolved_view_unfolds};

/// The unknown type at a place.
pub open spec fn unknown_at(loc: Loc) -> Resolved {
    Spanned { loc, value: ResolvedTypeModel::UnKnown }
}

/// The unit type at a place.
pub open spec fn unit_at(loc: Loc) -> Resolved {
    Spanned { loc, value: ResolvedTypeModel::Unit }
}

/// A primitive type, at no place.
pub open spec fn build_in(b: BuildInType) -> Resolved {
    Spanned { loc: Loc::unknown(), value: ResolvedTypeModel::BuildInType(b) }
}

/// A reference to a type, at a place.
pub open spec fn ref_at(loc: Loc, is_mut: bool, t: Resolved) -> Resolved {
    Spanned { loc, value: ResolvedTypeModel::Ref(is_mut, Box::new(t)) }
}

/// A type is erroneous when it is unknown or could not be resolved.
pub open spec fn is_err(t: Resolved) -> bool {
    t.value is UnKnown || t.value is ResolvedFailed
}

/// The element at a position of a tuple, or the type of the field at a
/// position of a struct.
pub open spec fn nth_of(t: Resolved, index: int) -> Option<Resolved> {
    match t.value {
        ResolvedTypeModel::Multiple(ts) => if 0 <= index < ts.len() {
            Some(ts[index])
        } else {
            None
        },
        ResolvedTypeModel::Struct(_, _, fs) => if 0 <= index < fs.len() {
            Some(fs[index].1)
        } else {
            None
        },
        _ => None,
    }
}

/// The element type of a vector type.
pub open spec fn element_of(t: Resolved) -> Option<Resolved> {
    match t.value {
        ResolvedTypeModel::Vec(x) => Some(*x),
        _ => None,
    }
}

/// The first field, from position `from` on, that has the given name.
pub open spec fn first_named(fs: Seq<(NameModel, Resolved)>, name: Seq<char>, from: int) -> Option<
    (NameModel, Resolved),
>
    decreases fs.len() - from,
{
    if from < 0 || from >= fs.len() {
        None
    } else if fs[from].0.value == name {
        Some(fs[from])
    } else {
        first_named(fs, name, from + 1)
    }
}

/// The first field of a struct type that has the given name.
pub open spec fn field_of(t: Resolved, name: Seq<char>) -> Option<(NameModel, Resolved)> {
    match t.value {
        ResolvedTypeModel::Struct(_, _, fs) => first_named(fs, name, 0),
        _ => None,
    }
}

impl ResolvedType {
    /// The element at a position of a tuple type, or the type of the field at
    /// a position of a struct type; nothing for another type or a position
    /// past the end.
    pub fn nth_ty(&self, index: usize) -> (r: Option<&ResolvedType>)
        ensures
            opt_view(r) == nth_of(self@, index as int),
    {
        match &self.0.value {
            ResolvedType_::Multiple(x) => if index < x.len() {
                Some(&x[index])
            } else {
                None
            },
            ResolvedType_::Struct(_, _, fields) => if index < fields.len() {
                Some(&fields[index].1)
            } else {
                None
            },
            _ => None,
        }
    }

    /// The element type, if this is a vector type.
    pub fn is_vector(&self) -> (r: Option<&ResolvedType>)
        ensures
            opt_view(r) == element_of(self@),
    {
        match &self.0.value {
            ResolvedType_::Vec(x) => Some(&**x),
            _ => None,
        }
    }

    /// The first field with the given name, if this is a struct type that has
    /// one.
    pub fn find_filed_by_name(&self, name: &Symbol) -> (r: Option<&(Field, ResolvedType)>)
        ensures
            opt_view(r) == field_of(self@, name@),
    {
        match &self.0.value {
            ResolvedType_::Struct(_, _, fields) => {
                let mut i: usize = 0;
                while i < fields.len()
                    invariant
                        i <= fields.len(),
                        self.0.value is Struct,
                        self.0.value->Struct_2 == *fields,
                        first_named(views(fields@), name@, 0) == first_named(
                            views(fields@),
                            name@,
                            i as int,
                        ),
                    decreases fields.len() - i,
                {
                    if fields[i].0.value.same(name) {
                        return Some(&fields[i]);
                    }
                    i += 1;
                }
                None
            },
            _ => None,
        }
    }

    /// The unknown type at a place.
    pub fn new_unknown(loc: Loc) -> (r: ResolvedType)
        ensures
            r@ == unknown_at(loc),
    {
        ResolvedType(Spanned { loc, value: ResolvedType_::UnKnown })
    }

    /// The tuple type of `num` elements that are all `one`.
    pub fn new_multi(loc: Loc, one: ResolvedType, num: usize) -> (r: ResolvedType)
        ensures
            r@ == (Spanned {
                loc,
                value: ResolvedTypeModel::Multiple(Seq::new(num as nat, |i: int| one@)),
            }),
    {
        let mut out: Vec<ResolvedType> = Vec::new();
        let mut i: usize = 0;
        while i < num
            invariant
                i <= num,
                out.len() == i,
                forall|j: int| 0 <= j < i ==> out[j]@ == one@,
            decreases num - i,
        {
            out.push(one.clone());
            i += 1;
        }
        assert(views(out@) =~= Seq::new(num as nat, |i: int| one@));
        ResolvedType(Spanned { loc, value: ResolvedType_::Multiple(out) })
    }

    /// The unit type at a place.
    pub fn new_unit(loc: Loc) -> (r: ResolvedType)
        ensures
            r@ == unit_at(loc),
    {
        ResolvedType(Spanned { loc, value: ResolvedType_::Unit })
    }

    /// A primitive type, at no place.
    pub fn new_build_in(b: BuildInType) -> (r: ResolvedType)
        ensures
            r@ == build_in(b),
    {
        ResolvedType(Spanned { loc: Loc::unknown(), value: ResolvedType_::BuildInType(b) })
    }

    /// Whether nothing is known of the type.
    pub fn is_unknown(&self) -> (b: bool)
        ensures
            b == (self@.value is UnKnown),
    {
        match &self.0.value {
            ResolvedType_::UnKnown => true,
            _ => false,
        }
    }

    /// Whether the type stands for a type expression that could not be
    /// resolved.
    pub fn is_resolved_failed(&self) -> (b: bool)
        ensures
            b == (self@.value is ResolvedFailed),
    {
        match &self.0.value {
            ResolvedType_::ResolvedFailed(_) => true,
            _ => false,
        }
    }

    /// A reference to a type, at a place.
    pub fn new_ref(loc: Loc, is_mut: bool, e: ResolvedType) -> (r: ResolvedType)
        ensures
            r@ == ref_at(loc, is_mut, e@),
    {
        ResolvedType(Spanned { loc, value: ResolvedType_::Ref(is_mut, Box::new(e)) })
    }

    /// Whether the type is unknown or could not be resolved.
    pub fn is_err(&self) -> (b: bool)
        ensures
            b == is_err(self@),
    {
        self.is_resolved_failed() || self.is_unknown()
    }

    /// Whether the type is a type parameter.
    pub fn is_tparam(&self) -> (b: bool)
        ensures
            b == (self@.value is TParam),
    {
        match &self.0.value {
            ResolvedType_::TParam(_, _) => true,
            _ => false,
        }
    }

    /// Whether the type is a function type.
    pub fn is_fun(&self) -> (b: bool)
        ensures
            b == (self@.value is Fun),
    {
        match &self.0.value {
            ResolvedType_::Fun(_, _, _) => true,
            _ => false,
        }
    }
}

/// Whether an optional type is there and is not erroneous.
pub fn option_ty_is_valid(x: &Option<ResolvedType>) -> (b: bool)
    ensures
        b == (opt_view(*x) matches Some(t) && !is_err(t)),
{
    match x {
        Some(t) => !t.is_err(),
        None => false,
    }
}

/// Which type stands for which type parameter, by the parameter's name.
#[derive(Debug)]
pub struct Substitution {
    types: Table<ResolvedType>,
}

impl Substitution {
    /// The table is in order.
    pub closed spec fn wf(&self) -> bool {
        self.types.wf()
    }

    /// The type that stands for each name.
    pub closed spec fn views(&self) -> Map<Seq<char>, Resolved> {
        self.types.views()
    }

    /// No type parameter has a type.
    pub fn new() -> (s: Self)
        ensures
            s.wf(),
            s.views() == Map::<Seq<char>, Resolved>::empty(),
    {
        let s = Substitution { types: Table::new() };
        assert(s.views() =~= Map::<Seq<char>, Resolved>::empty());
        s
    }

    /// Lets a type stand for a type parameter, in place of the type that
    /// stood for it before, if any.
    pub fn insert(&mut self, name: Symbol, t: ResolvedType)
        requires
            old(self).wf(),
        ensures
            final(self).wf(),
            final(self).views() == old(self).views().insert(name@, t@),
    {
        self.types.insert(name, t);
        assert(self.views() =~= old(self).views().insert(name@, t@));
    }

    /// The type that stands for a type parameter, if one does.
    pub fn get(&self, name: &Symbol) -> (r: Option<&ResolvedType>)
        requires
            self.wf(),
        ensures
            opt_view(r) == (if self.views().contains_key(name@) {
                Some(self.views()[name@])
            } else {
                None
            }),
    {
        self.types.get(name)
    }
}

/// The type that `t` becomes when every type parameter that `m` has a type
/// for is replaced by that type, at the parameter's own place. The replacing
/// type is taken as it is. Nothing if `t` holds a parameter that a type was
/// substituted for before.
pub open spec fn substitute(t: Resolved, m: Map<Seq<char>, Resolved>) -> Option<Resolved>
    decreases t,
{
    match t.value {
        ResolvedTypeModel::TParam(n, _) => if m.contains_key(n.value) {
            Some(Spanned { loc: t.loc, value: m[n.value].value })
        } else {
            Some(t)
        },
        ResolvedTypeModel::ApplyTParam(_, _, _) => None,
        ResolvedTypeModel::Struct(n, ps, fs) => match substitute_fields(fs, m) {
            Some(x) => Some(Spanned { loc: t.loc, value: ResolvedTypeModel::Struct(n, ps, x) }),
            None => None,
        },
        ResolvedTypeModel::Ref(is_mut, x) => match substitute(*x, m) {
            Some(y) => Some(Spanned { loc: t.loc, value: ResolvedTypeModel::Ref(is_mut, Box::new(y)) }),
            None => None,
        },
        ResolvedTypeModel::Multiple(ts) => match substitute_all(ts, m) {
            Some(x) => Some(Spanned { loc: t.loc, value: ResolvedTypeModel::Multiple(x) }),
            None => None,
        },
        ResolvedTypeModel::Fun(ps, ts, r) => match substitute_all(ts, m) {
            Some(x) => match substitute(*r, m) {
                Some(y) => Some(
                    Spanned { loc: t.loc, value: ResolvedTypeModel::Fun(ps, x, Box::new(y)) },
                ),
                None => None,
            },
            None => None,
        },
        ResolvedTypeModel::Vec(x) => match substitute(*x, m) {
            Some(y) => Some(Spanned { loc: t.loc, value: ResolvedTypeModel::Vec(Box::new(y)) }),
            None => None,
        },
        _ => Some(t),
    }
}

pub open spec fn substitute_all(ts: Seq<Resolved>, m: Map<Seq<char>, Resolved>) -> Option<
    Seq<Resolved>,
>
    decreases ts,
{
    if ts.len() == 0 {
        Some(Seq::empty())
    } else {
        match substitute_all(ts.drop_last(), m) {
            Some(xs) => match substitute(ts.last(), m) {
                Some(x) => Some(xs.push(x)),
                None => None,
            },
            None => None,
        }
    }
}

pub open spec fn substitute_fields(
    fs: Seq<(NameModel, Resolved)>,
    m: Map<Seq<char>, Resolved>,
) -> Option<Seq<(NameModel, Resolved)>>
    decreases fs,
{
    if fs.len() == 0 {
        Some(Seq::empty())
    } else {
        match substitute_fields(fs.drop_last(), m) {
            Some(xs) => match substitute(fs.last().1, m) {
                Some(x) => Some(xs.push((fs.last().0, x))),
                None => None,
            },
            None => None,
        }
    }
}

/// Every type of the list can be substituted into.
pub open spec fn all_substitute(ts: Seq<Resolved>, m: Map<Seq<char>, Resolved>) -> bool {
    forall|i: int| 0 <= i < ts.len() ==> (#[trigger] substitute(ts[i], m)) is Some
}

/// The list with each type substituted into.
pub open spec fn each_substituted(ts: Seq<Resolved>, m: Map<Seq<char>, Resolved>) -> Seq<Resolved> {
    Seq::new(ts.len(), |i: int| substitute(ts[i], m).unwrap())
}

/// The type of every field of the list can be substituted into.
pub open spec fn all_fields_substitute(
    fs: Seq<(NameModel, Resolved)>,
    m: Map<Seq<char>, Resolved>,
) -> bool {
    forall|i: int| 0 <= i < fs.len() ==> (#[trigger] substitute(fs[i].1, m)) is Some
}

/// The fields with each type substituted into.
pub open spec fn each_field_substituted(
    fs: Seq<(NameModel, Resolved)>,
    m: Map<Seq<char>, Resolved>,
) -> Seq<(NameModel, Resolved)> {
    Seq::new(fs.len(), |i: int| (fs[i].0, substitute(fs[i].1, m).unwrap()))
}

/// Substitution into a list is substitution into each of its types.
pub proof fn substitute_all_is_pointwise(ts: Seq<Resolved>, m: Map<Seq<char>, Resolved>)
    ensures
        substitute_all(ts, m) == (if all_substitute(ts, m) {
            Some(each_substituted(ts, m))
        } else {
            None
        }),
    decreases ts.len(),
{
    if ts.len() == 0 {
        assert(each_substituted(ts, m) =~= Seq::empty());
    } else {
        let front = ts.drop_last();
        substitute_all_is_pointwise(front, m);
        if all_substitute(ts, m) {
            assert forall|i: int| 0 <= i < front.len() implies (#[trigger] substitute(
                front[i],
                m,
            )) is Some by {
                assert(front[i] == ts[i]);
            }
            assert(substitute(ts[ts.len() - 1], m) is Some);
            assert(each_substituted(front, m).push(substitute(ts.last(), m).unwrap())
                =~= each_substituted(ts, m));
        } else {
            let i = choose|i: int| 0 <= i < ts.len() && !(#[trigger] substitute(ts[i], m) is Some);
            if i < front.len() {
                assert(front[i] == ts[i]);
                assert(!all_substitute(front, m));
            }
        }
    }
}

/// Substitution into a list of fields is substitution into each field's type.
pub proof fn substitute_fields_is_pointwise(
    fs: Seq<(NameModel, Resolved)>,
    m: Map<Seq<char>, Resolved>,
)
    ensures
        substitute_fields(fs, m) == (if all_fields_substitute(fs, m) {
            Some(each_field_substituted(fs, m))
        } else {
            None
        }),
    decreases fs.len(),
{
    if fs.len() == 0 {
        assert(each_field_substituted(fs, m) =~= Seq::empty());
    } else {
        let front = fs.drop_last();
        substitute_fields_is_pointwise(front, m);
        if all_fields_substitute(fs, m) {
            assert forall|i: int| 0 <= i < front.len() implies (#[trigger] substitute(
                front[i].1,
                m,
            )) is Some by {
                assert(front[i] == fs[i]);
            }
            assert(substitute(fs[fs.len() - 1].1, m) is Some);
            assert(each_field_substituted(front, m).push(
                (fs.last().0, substitute(fs.last().1, m).unwrap()),
            ) =~= each_field_substituted(fs, m));
        } else {
            let i = choose|i: int| 0 <= i < fs.len() && !(#[trigger] substitute(fs[i].1, m) is Some);
            if i < front.len() {
                assert(front[i] == fs[i]);
                assert(!all_fields_substitute(front, m));
            }
        }
    }
}

/// Substitution, one level down: what it does at each shape of type, in terms
/// of substitution into the parts.
pub proof fn substitute_unfolds(t: Resolved, m: Map<Seq<char>, Resolved>)
    ensures
        substitute(t, m) == (match t.value {
            ResolvedTypeModel::TParam(n, _) => if m.contains_key(n.value) {
                Some(Spanned { loc: t.loc, value: m[n.value].value })
            } else {
                Some(t)
            },
            ResolvedTypeModel::ApplyTParam(_, _, _) => None,
            ResolvedTypeModel::Struct(n, ps, fs) => if all_fields_substitute(fs, m) {
                Some(
                    Spanned {
                        loc: t.loc,
                        value: ResolvedTypeModel::Struct(n, ps, each_field_substituted(fs, m)),
                    },
                )
            } else {
                None
            },
            ResolvedTypeModel::Ref(is_mut, x) => match substitute(*x, m) {
                Some(y) => Some(
                    Spanned { loc: t.loc, value: ResolvedTypeModel::Ref(is_mut, Box::new(y)) },
                ),
                None => None,
            },
            ResolvedTypeModel::Multiple(ts) => if all_substitute(ts, m) {
                Some(
                    Spanned { loc: t.loc, value: ResolvedTypeModel::Multiple(each_substituted(ts, m)) },
                )
            } else {
                None
            },
            ResolvedTypeModel::Fun(ps, ts, r) => if all_substitute(ts, m) && substitute(*r, m) is Some {
                Some(
                    Spanned {
                        loc: t.loc,
                        value: ResolvedTypeModel::Fun(
                            ps,
                            each_substituted(ts, m),
                            Box::new(substitute(*r, m).unwrap()),
                        ),
                    },
                )
            } else {
                None
            },
            ResolvedTypeModel::Vec(x) => match substitute(*x, m) {
                Some(y) => Some(Spanned { loc: t.loc, value: ResolvedTypeModel::Vec(Box::new(y)) }),
                None => None,
            },
            _ => Some(t),
        }),
{
    match t.value {
        ResolvedTypeModel::Struct(n, ps, fs) => substitute_fields_is_pointwise(fs, m),
        ResolvedTypeModel::Multiple(ts) => substitute_all_is_pointwise(ts, m),
        ResolvedTypeModel::Fun(ps, ts, r) => substitute_all_is_pointwise(ts, m),
        _ => {},
    }
}

/// Whether a type holds, anywhere a substitution goes, a type parameter that
/// a type was substituted for before.
pub open spec fn has_applied(t: Resolved) -> bool
    decreases t, 0int,
{
    match t.value {
        ResolvedTypeModel::ApplyTParam(_, _, _) => true,
        ResolvedTypeModel::Struct(_, _, fs) => any_field_applied(fs, fs.len() as int),
        ResolvedTypeModel::Ref(_, x) => has_applied(*x),
        ResolvedTypeModel::Multiple(ts) => any_applied(ts, ts.len() as int),
        ResolvedTypeModel::Fun(_, ts, r) => any_applied(ts, ts.len() as int) || has_applied(*r),
        ResolvedTypeModel::Vec(x) => has_applied(*x),
        _ => false,
    }
}

/// Whether one of the first `n` types holds an applied type parameter.
pub open spec fn any_applied(ts: Seq<Resolved>, n: int) -> bool
    decreases ts, n,
{
    if n <= 0 || n > ts.len() {
        false
    } else {
        any_applied(ts, n - 1) || has_applied(ts[n - 1])
    }
}

/// Whether the type of one of the first `n` fields holds an applied type
/// parameter.
pub open spec fn any_field_applied(fs: Seq<(NameModel, Resolved)>, n: int) -> bool
    decreases fs, n,
{
    if n <= 0 || n > fs.len() {
        false
    } else {
        any_field_applied(fs, n - 1) || has_applied(fs[n - 1].1)
    }
}

/// One of the first `n` types holds an applied type parameter exactly when
/// there is a place among them that does.
pub proof fn any_applied_is_somewhere(ts: Seq<Resolved>, n: int)
    requires
        0 <= n <= ts.len(),
    ensures
        any_applied(ts, n) <==> exists|i: int| 0 <= i < n && has_applied(#[trigger] ts[i]),
    decreases n,
{
    if n > 0 {
        any_applied_is_somewhere(ts, n - 1);
        if has_applied(ts[n - 1]) {
            assert(0 <= n - 1 < n && has_applied(ts[n - 1]));
        }
    }
}

/// The type of one of the first `n` fields holds an applied type parameter
/// exactly when there is a place among them where it does.
pub proof fn any_field_applied_is_somewhere(fs: Seq<(NameModel, Resolved)>, n: int)
    requires
        0 <= n <= fs.len(),
    ensures
        any_field_applied(fs, n) <==> exists|i: int| 0 <= i < n && has_applied((#[trigger] fs[i]).1),
    decreases n,
{
    if n > 0 {
        any_field_applied_is_somewhere(fs, n - 1);
        if has_applied(fs[n - 1].1) {
            assert(0 <= n - 1 < n && has_applied(fs[n - 1].1));
        }
    }
}

/// Every type of a list can be substituted into exactly when none of them
/// holds an applied type parameter.
proof fn all_substitute_unless_applied(ts: Seq<Resolved>, m: Map<Seq<char>, Resolved>)
    requires
        forall|i: int|
            0 <= i < ts.len() ==> ((#[trigger] substitute(ts[i], m)) is None <==> has_applied(ts[i])),
    ensures
        all_substitute(ts, m) <==> !any_applied(ts, ts.len() as int),
{
    any_applied_is_somewhere(ts, ts.len() as int);
    if all_substitute(ts, m) {
        if any_applied(ts, ts.len() as int) {
            let i = choose|i: int| 0 <= i < ts.len() && has_applied(#[trigger] ts[i]);
            assert(substitute(ts[i], m) is Some);
        }
    } else {
        let i = choose|i: int| 0 <= i < ts.len() && !((#[trigger] substitute(ts[i], m)) is Some);
        assert(has_applied(ts[i]));
    }
}

/// The type of every field of a list can be substituted into exactly when
/// none of them holds an applied type parameter.
proof fn all_fields_substitute_unless_applied(
    fs: Seq<(NameModel, Resolved)>,
    m: Map<Seq<char>, Resolved>,
)
    requires
        forall|i: int|
            0 <= i < fs.len() ==> ((#[trigger] substitute(fs[i].1, m)) is None <==> has_applied(
                fs[i].1,
            )),
    ensures
        all_fields_substitute(fs, m) <==> !any_field_applied(fs, fs.len() as int),
{
    any_field_applied_is_somewhere(fs, fs.len() as int);
    if all_fields_substitute(fs, m) {
        if any_field_applied(fs, fs.len() as int) {
            let i = choose|i: int| 0 <= i < fs.len() && has_applied((#[trigger] fs[i]).1);
            assert(substitute(fs[i].1, m) is Some);
        }
    } else {
        let i = choose|i: int| 0 <= i < fs.len() && !((#[trigger] substitute(fs[i].1, m)) is Some);
        assert(has_applied(fs[i].1));
    }
}

/// A substitution is refused exactly when the type holds a type parameter
/// that a type was substituted for before, whatever is to be substituted.
pub proof fn refused_exactly_when_applied(t: Resolved, m: Map<Seq<char>, Resolved>)
    ensures
        substitute(t, m) is None <==> has_applied(t),
    decreases t,
{
    substitute_unfolds(t, m);
    match t.value {
        ResolvedTypeModel::Struct(_, _, fs) => {
            assert forall|i: int| 0 <= i < fs.len() implies ((#[trigger] substitute(fs[i].1, m)) is None
                <==> has_applied(fs[i].1)) by {
                refused_exactly_when_applied(fs[i].1, m);
            }
            all_fields_substitute_unless_applied(fs, m);
        },
        ResolvedTypeModel::Ref(_, x) => refused_exactly_when_applied(*x, m),
        ResolvedTypeModel::Multiple(ts) => {
            assert forall|i: int| 0 <= i < ts.len() implies ((#[trigger] substitute(ts[i], m)) is None
                <==> has_applied(ts[i])) by {
                refused_exactly_when_applied(ts[i], m);
            }
            all_substitute_unless_applied(ts, m);
        },
        ResolvedTypeModel::Fun(_, ts, r) => {
            assert forall|i: int| 0 <= i < ts.len() implies ((#[trigger] substitute(ts[i], m)) is None
                <==> has_applied(ts[i])) by {
                refused_exactly_when_applied(ts[i], m);
            }
            all_substitute_unless_applied(ts, m);
            refused_exactly_when_applied(*r, m);
        },
        ResolvedTypeModel::Vec(x) => refused_exactly_when_applied(*x, m),
        _ => {},
    }
}

/// Substituting nothing changes nothing: with no type for any parameter, a
/// type that is not refused stays as it is.
pub proof fn substituting_nothing_changes_nothing(t: Resolved)
    requires
        !has_applied(t),
    ensures
        substitute(t, Map::empty()) == Some(t),
    decreases t,
{
    let m = Map::<Seq<char>, Resolved>::empty();
    substitute_unfolds(t, m);
    refused_exactly_when_applied(t, m);
    match t.value {
        ResolvedTypeModel::Struct(n, ps, fs) => {
            any_field_applied_is_somewhere(fs, fs.len() as int);
            assert forall|i: int| 0 <= i < fs.len() implies (#[trigger] substitute(fs[i].1, m))
                == Some(fs[i].1) by {
                substituting_nothing_changes_nothing(fs[i].1);
            }
            assert(each_field_substituted(fs, m) =~= fs);
        },
        ResolvedTypeModel::Ref(_, x) => substituting_nothing_changes_nothing(*x),
        ResolvedTypeModel::Multiple(ts) => {
            any_applied_is_somewhere(ts, ts.len() as int);
            assert forall|i: int| 0 <= i < ts.len() implies (#[trigger] substitute(ts[i], m)) == Some(
                ts[i],
            ) by {
                substituting_nothing_changes_nothing(ts[i]);
            }
            assert(each_substituted(ts, m) =~= ts);
        },
        ResolvedTypeModel::Fun(_, ts, r) => {
            any_applied_is_somewhere(ts, ts.len() as int);
            assert forall|i: int| 0 <= i < ts.len() implies (#[trigger] substitute(ts[i], m)) == Some(
                ts[i],
            ) by {
                substituting_nothing_changes_nothing(ts[i]);
            }
            assert(each_substituted(ts, m) =~= ts);
            substituting_nothing_changes_nothing(*r);
        },
        ResolvedTypeModel::Vec(x) => substituting_nothing_changes_nothing(*x),
        _ => {},
    }
}

impl ResolvedType {
    /// The type with its type parameters replaced as `types` says, or nothing
    /// if it holds a parameter that was substituted for before. This is the
    /// substitution for a caller that does not know whether the type holds
    /// one.
    pub fn substituted(&self, types: &Substitution) -> (r: Option<ResolvedType>)
        requires
            types.wf(),
        ensures
            opt_view(r) == substitute(self@, types.views()),
        decreases self,
    {
        proof {
            substitute_unfolds(self@, types.views());
        }
        let loc = self.0.loc;
        match &self.0.value {
            ResolvedType_::UnKnown => Some(self.clone()),
            ResolvedType_::Struct(n, ps, fields) => {
                let mut out: Vec<(Field, ResolvedType)> = Vec::new();
                let mut i: usize = 0;
                while i < fields.len()
                    invariant
                        i <= fields.len(),
                        out.len() == i,
                        types.wf(),
                        self.0.value is Struct,
                        self.0.value->Struct_2 == *fields,
                        forall|j: int|
                            0 <= j < i ==> out[j].0@ == fields[j].0@ && (#[trigger] substitute(
                                views(fields@)[j].1,
                                types.views(),
                            )) == Some(out[j].1@),
                    decreases fields.len() - i,
                {
                    match fields[i].1.substituted(types) {
                        Some(x) => {
                            out.push((clone_name(&fields[i].0), x));
                        },
                        None => {
                            proof {
                                substitute_unfolds(self@, types.views());
                            }
                            assert(substitute(views(fields@)[i as int].1, types.views()) is None);
                            return None;
                        },
                    }
                    i += 1;
                }
                assert(views(out@) =~= each_field_substituted(views(fields@), types.views()));
                Some(
                    ResolvedType(
                        Spanned {
                            loc,
                            value: ResolvedType_::Struct(
                                clone_name(n),
                                crate::syntax::clone_struct_type_parameters(ps),
                                out,
                            ),
                        },
                    ),
                )
            },
            ResolvedType_::BuildInType(_) => Some(self.clone()),
            ResolvedType_::TParam(name, _) => match types.get(&name.value) {
                Some(x) => Some(ResolvedType(Spanned { loc, value: x.0.value.clone() })),
                None => Some(self.clone()),
            },
            ResolvedType_::ApplyTParam(_, _, _) => None,
            ResolvedType_::Ref(is_mut, b) => match b.substituted(types) {
                Some(x) => Some(
                    ResolvedType(Spanned { loc, value: ResolvedType_::Ref(*is_mut, Box::new(x)) }),
                ),
                None => None,
            },
            ResolvedType_::Unit => Some(self.clone()),
            ResolvedType_::Multiple(xs) => match substituted_list(xs, types) {
                Some(out) => Some(ResolvedType(Spanned { loc, value: ResolvedType_::Multiple(out) })),
                None => None,
            },
            ResolvedType_::Fun(ps, xs, ret) => match substituted_list(xs, types) {
                Some(out) => match ret.substituted(types) {
                    Some(y) => Some(
                        ResolvedType(
                            Spanned {
                                loc,
                                value: ResolvedType_::Fun(
                                    crate::syntax::clone_type_parameters(ps),
                                    out,
                                    Box::new(y),
                                ),
                            },
                        ),
                    ),
                    None => None,
                },
                None => None,
            },
            ResolvedType_::Vec(b) => match b.substituted(types) {
                Some(x) => Some(ResolvedType(Spanned { loc, value: ResolvedType_::Vec(Box::new(x)) })),
                None => None,
            },
            ResolvedType_::ResolvedFailed(_) => Some(self.clone()),
        }
    }

    /// Whether the type holds, anywhere a substitution goes, a type parameter
    /// that a type was substituted for before.
    pub fn has_applied_parameter(&self) -> (b: bool)
        ensures
            b == has_applied(self@),
        decreases self,
    {
        match &self.0.value {
            ResolvedType_::ApplyTParam(_, _, _) => true,
            ResolvedType_::Struct(_, _, fields) => {
                let mut i: usize = 0;
                while i < fields.len()
                    invariant
                        i <= fields.len(),
                        self.0.value is Struct,
                        self.0.value->Struct_2 == *fields,
                        !any_field_applied(views(fields@), i as int),
                    decreases fields.len() - i,
                {
                    if fields[i].1.has_applied_parameter() {
                        proof {
                            any_field_applied_is_somewhere(views(fields@), fields.len() as int);
                            assert(has_applied(views(fields@)[i as int].1));
                        }
                        return true;
                    }
                    i += 1;
                }
                false
            },
            ResolvedType_::Ref(_, b) => b.has_applied_parameter(),
            ResolvedType_::Multiple(xs) => any_has_applied_parameter(xs),
            ResolvedType_::Fun(_, xs, ret) => {
                any_has_applied_parameter(xs) || ret.has_applied_parameter()
            },
            ResolvedType_::Vec(b) => b.has_applied_parameter(),
            _ => false,
        }
    }

    /// Replaces the type parameters of this type as `types` says. A type
    /// parameter that a type was substituted for is never substituted into
    /// again: a type that holds one is not taken.
    pub fn bind_type_parameter(&mut self, types: &Substitution)
        requires
            types.wf(),
            !has_applied(old(self)@),
        ensures
            substitute(old(self)@, types.views()) == Some(final(self)@),
    {
        proof {
            refused_exactly_when_applied(self@, types.views());
        }
        match self.substituted(types) {
            Some(t) => {
                *self = t;
            },
            None => {},
        }
    }
}

/// Whether one of the types of a list holds a type parameter that a type was
/// substituted for before.
pub fn any_has_applied_parameter(xs: &Vec<ResolvedType>) -> (b: bool)
    ensures
        b == any_applied(views(xs@), xs.len() as int),
    decreases xs,
{
    let mut i: usize = 0;
    while i < xs.len()
        invariant
            i <= xs.len(),
            !any_applied(views(xs@), i as int),
        decreases xs.len() - i,
    {
        if xs[i].has_applied_parameter() {
            proof {
                any_applied_is_somewhere(views(xs@), xs.len() as int);
                assert(has_applied(views(xs@)[i as int]));
            }
            return true;
        }
        i += 1;
    }
    false
}

/// Each type of the list with its type parameters replaced as `types` says,
/// or nothing if one of them is refused.
pub fn substituted_list(xs: &Vec<ResolvedType>, types: &Substitution) -> (r: Option<
    Vec<ResolvedType>,
>)
    requires
        types.wf(),
    ensures
        match r {
            Some(out) => all_substitute(views(xs@), types.views()) && views(out@)
                == each_substituted(views(xs@), types.views()),
            None => !all_substitute(views(xs@), types.views()),
        },
    decreases xs,
{
    let mut out: Vec<ResolvedType> = Vec::new();
    let mut i: usize = 0;
    while i < xs.len()
        invariant
            i <= xs.len(),
            out.len() == i,
            types.wf(),
            forall|j: int|
                0 <= j < i ==> (#[trigger] substitute(views(xs@)[j], types.views())) == Some(
                    out[j]@,
                ),
        decreases xs.len() - i,
    {
        match xs[i].substituted(types) {
            Some(x) => {
                out.push(x);
            },
            None => {
                assert(substitute(views(xs@)[i as int], types.views()) is None);
                return None;
            },
        }
        i += 1;
    }
    assert(views(out@) =~= each_substituted(views(xs@), types.views()));
    Some(out)
}

/// The bindings that matching a parameter type against an argument type
/// adds to `m`. A type parameter binds the whole argument type, over a
/// binding that was there. Struct against struct goes field by field, tuple
/// against tuple place by place (as far as both reach), reference against
/// reference and vector against vector go one level down. Every other pair
/// adds nothing.
pub open spec fn infer_bind(m: Map<Seq<char>, Resolved>, p: Resolved, a: Resolved) -> Map<
    Seq<char>,
    Resolved,
>
    decreases p, 0int,
{
    match p.value {
        ResolvedTypeModel::TParam(n, _) => m.insert(n.value, a),
        ResolvedTypeModel::Struct(_, _, fs) => match a.value {
            ResolvedTypeModel::Struct(_, _, gs) => infer_fields(
                m,
                fs,
                gs,
                if fs.len() <= gs.len() {
                    fs.len() as int
                } else {
                    gs.len() as int
                },
            ),
            _ => m,
        },
        ResolvedTypeModel::Ref(_, l) => match a.value {
            ResolvedTypeModel::Ref(_, r) => infer_bind(m, *l, *r),
            _ => m,
        },
        ResolvedTypeModel::Multiple(xs) => match a.value {
            ResolvedTypeModel::Multiple(ys) => infer_zip(
                m,
                xs,
                ys,
                if xs.len() <= ys.len() {
                    xs.len() as int
                } else {
                    ys.len() as int
                },
            ),
            _ => m,
        },
        ResolvedTypeModel::Vec(x) => match a.value {
            ResolvedTypeModel::Vec(y) => infer_bind(m, *x, *y),
            _ => m,
        },
        _ => m,
    }
}

/// The bindings after matching the first `n` parameter types against the
/// first `n` argument types, from left to right.
pub open spec fn infer_zip(
    m: Map<Seq<char>, Resolved>,
    ps: Seq<Resolved>,
    args: Seq<Resolved>,
    n: int,
) -> Map<Seq<char>, Resolved>
    decreases ps, n,
{
    if n <= 0 || n > ps.len() || n > args.len() {
        m
    } else {
        infer_bind(infer_zip(m, ps, args, n - 1), ps[n - 1], args[n - 1])
    }
}

/// The bindings after matching the types of the first `n` fields of a
/// struct against those of another, from left to right.
pub open spec fn infer_fields(
    m: Map<Seq<char>, Resolved>,
    fs: Seq<(NameModel, Resolved)>,
    gs: Seq<(NameModel, Resolved)>,
    n: int,
) -> Map<Seq<char>, Resolved>
    decreases fs, n,
{
    if n <= 0 || n > fs.len() || n > gs.len() {
        m
    } else {
        infer_bind(infer_fields(m, fs, gs, n - 1), fs[n - 1].1, gs[n - 1].1)
    }
}

/// The bindings that matching a list of parameter types against a list of
/// argument types adds to `m`: place by place from left to right, as far as
/// both lists reach.
pub open spec fn infer(m: Map<Seq<char>, Resolved>, ps: Seq<Resolved>, args: Seq<Resolved>) -> Map<
    Seq<char>,
    Resolved,
> {
    infer_zip(
        m,
        ps,
        args,
        if ps.len() <= args.len() {
            ps.len() as int
        } else {
            args.len() as int
        },
    )
}

/// A type parameter binds the whole argument type, whatever was bound to it
/// before.
pub proof fn a_type_parameter_binds_its_argument(
    m: Map<Seq<char>, Resolved>,
    p: Resolved,
    a: Resolved,
)
    requires
        p.value is TParam,
    ensures
        infer_bind(m, p, a) == m.insert(p.value->TParam_0.value, a),
        infer_bind(m, p, a)[p.value->TParam_0.value] == a,
{
}

/// Where the parameter type and the argument type differ in shape, and
/// where the parameter type has nothing to bind, the bindings stay as they
/// are.
pub proof fn a_mismatch_binds_nothing(m: Map<Seq<char>, Resolved>, p: Resolved, a: Resolved)
    requires
        (p.value is Struct && !(a.value is Struct)) || (p.value is Ref && !(a.value is Ref)) || (
        p.value is Multiple && !(a.value is Multiple)) || (p.value is Vec && !(a.value is Vec))
            || p.value is BuildInType || p.value is Unit || p.value is UnKnown || p.value is Fun
            || p.value is ApplyTParam || p.value is ResolvedFailed,
    ensures
        infer_bind(m, p, a) == m,
{
}

/// Matches one parameter type against one argument type and adds what that
/// binds.
pub fn bind(ret: &mut Substitution, parameter_type: &ResolvedType, expr_type: &ResolvedType)
    requires
        old(ret).wf(),
    ensures
        final(ret).wf(),
        final(ret).views() == infer_bind(old(ret).views(), parameter_type@, expr_type@),
    decreases parameter_type,
{
    match &parameter_type.0.value {
        ResolvedType_::UnKnown => {},
        ResolvedType_::Struct(_, _, fields) => match &expr_type.0.value {
            ResolvedType_::Struct(_, _, fields2) => {
                let n: usize = if fields.len() <= fields2.len() {
                    fields.len()
                } else {
                    fields2.len()
                };
                let mut i: usize = 0;
                while i < n
                    invariant
                        i <= n,
                        n <= fields.len(),
                        n <= fields2.len(),
                        ret.wf(),
                        parameter_type.0.value is Struct,
                        parameter_type.0.value->Struct_2 == *fields,
                        ret.views() == infer_fields(
                            old(ret).views(),
                            views(fields@),
                            views(fields2@),
                            i as int,
                        ),
                    decreases n - i,
                {
                    bind(ret, &fields[i].1, &fields2[i].1);
                    i += 1;
                }
            },
            _ => {},
        },
        ResolvedType_::BuildInType(_) => {},
        ResolvedType_::TParam(name, _) => {
            let ghost before = ret.views();
            ret.insert(name.value.clone(), expr_type.clone());
            assert(ret.views() =~= before.insert(name.value@, expr_type@));
        },
        ResolvedType_::ApplyTParam(_, _, _) => {},
        ResolvedType_::Ref(_, l) => match &expr_type.0.value {
            ResolvedType_::Ref(_, r) => bind(ret, l, r),
            _ => {},
        },
        ResolvedType_::Unit => {},
        ResolvedType_::Multiple(x) => match &expr_type.0.value {
            ResolvedType_::Multiple(y) => {
                let n: usize = if x.len() <= y.len() {
                    x.len()
                } else {
                    y.len()
                };
                let mut i: usize = 0;
                while i < n
                    invariant
                        i <= n,
                        n <= x.len(),
                        n <= y.len(),
                        ret.wf(),
                        parameter_type.0.value is Multiple,
                        parameter_type.0.value->Multiple_0 == *x,
                        ret.views() == infer_zip(old(ret).views(), views(x@), views(y@), i as int),
                    decreases n - i,
                {
                    bind(ret, &x[i], &y[i]);
                    i += 1;
                }
            },
            _ => {},
        },
        ResolvedType_::Fun(_, _, _) => {},
        ResolvedType_::Vec(x) => match &expr_type.0.value {
            ResolvedType_::Vec(y) => bind(ret, x, y),
            _ => {},
        },
        ResolvedType_::ResolvedFailed(_) => {},
    }
}

/// Infers type arguments from argument types: matches each parameter type
/// against the type of the argument at the same place, from left to right,
/// as far as both lists reach, and adds what that binds to `ret`. A pair
/// that does not match in shape binds nothing; where a type parameter is
/// bound more than once the last binding stays.
pub fn infer_type_on_expression(
    ret: &mut Substitution,
    type_parameters: &Vec<(Name, Vec<Ability>)>,
    parameters: &Vec<ResolvedType>,
    expression_types: &Vec<ResolvedType>,
)
    requires
        old(ret).wf(),
    ensures
        final(ret).wf(),
        final(ret).views() == infer(old(ret).views(), views(parameters@), views(expression_types@)),
{
    let n: usize = if parameters.len() <= expression_types.len() {
        parameters.len()
    } else {
        expression_types.len()
    };
    let mut i: usize = 0;
    while i < n
        invariant
            i <= n,
            n <= parameters.len(),
            n <= expression_types.len(),
            ret.wf(),
            ret.views() == infer_zip(
                old(ret).views(),
                views(parameters@),
                views(expression_types@),
                i as int,
            ),
        decreases n - i,
    {
        bind(ret, &parameters[i], &expression_types[i]);
        i += 1;
    }
}

} // verus!
