//! From a type as it is written to the type it denotes.
use crate::scopes::{resolve_chain, Scopes, ScopesModel};
use crate::syntax::{views, Ability, Name, Spanned, Type, TypeModel, Type_};
use crate::types::{Resolved, ResolvedType, ResolvedTypeModel, ResolvedType_};
use vstd::prelude::*;

verus! {

broadcast use {crate::syntax::syntax_views, crate::types::resolved_view_unfolds};

/// The type that a type expression denotes. A name resolves as
/// [`resolve_chain`] says, whatever type arguments follow it; a reference, a
/// function type, the unit type and a tuple resolve part by part and keep
/// their place. A function type has no type parameters.
pub open spec fn resolve(s: ScopesModel, ty: Spanned<TypeModel>) -> Resolved
    decreases ty,
{
    match ty.value {
        TypeModel::Apply(chain, _) => resolve_chain(s, *chain),
        TypeModel::Ref(m, b) => Spanned {
            loc: ty.loc,
            value: ResolvedTypeModel::Ref(m, Box::new(resolve(s, *b))),
        },
        TypeModel::Fun(ps, ret) => Spanned {
            loc: ty.loc,
            value: ResolvedTypeModel::Fun(
                Seq::empty(),
                resolve_all(s, ps),
                Box::new(resolve(s, *ret)),
            ),
        },
        TypeModel::Unit => Spanned { loc: ty.loc, value: ResolvedTypeModel::Unit },
        TypeModel::Multiple(ts) => Spanned {
            loc: ty.loc,
            value: ResolvedTypeModel::Multiple(resolve_all(s, ts)),
        },
    }
}

pub open spec fn resolve_all(s: ScopesModel, ts: Seq<Spanned<TypeModel>>) -> Seq<Resolved>
    decreases ts,
{
    if ts.len() == 0 {
        Seq::empty()
    } else {
        resolve_all(s, ts.drop_last()).push(resolve(s, ts.last()))
    }
}

/// The types that the type expressions of a list denote.
pub open spec fn each_resolved(s: ScopesModel, ts: Seq<Spanned<TypeModel>>) -> Seq<Resolved> {
    Seq::new(ts.len(), |i: int| resolve(s, ts[i]))
}

/// Resolving a list is resolving each of its type expressions.
pub proof fn resolve_all_is_pointwise(s: ScopesModel, ts: Seq<Spanned<TypeModel>>)
    ensures
        resolve_all(s, ts) == each_resolved(s, ts),
    decreases ts.len(),
{
    if ts.len() > 0 {
        resolve_all_is_pointwise(s, ts.drop_last());
        assert(each_resolved(s, ts.drop_last()).push(resolve(s, ts.last())) =~= each_resolved(
            s,
            ts,
        ));
    } else {
        assert(each_resolved(s, ts) =~= Seq::empty());
    }
}

/// Resolution, one level down.
pub proof fn resolve_unfolds(s: ScopesModel, ty: Spanned<TypeModel>)
    ensures
        resolve(s, ty) == (match ty.value {
            TypeModel::Apply(chain, _) => resolve_chain(s, *chain),
            TypeModel::Ref(m, b) => Spanned {
                loc: ty.loc,
                value: ResolvedTypeModel::Ref(m, Box::new(resolve(s, *b))),
            },
            TypeModel::Fun(ps, ret) => Spanned {
                loc: ty.loc,
                value: ResolvedTypeModel::Fun(
                    Seq::empty(),
                    each_resolved(s, ps),
                    Box::new(resolve(s, *ret)),
                ),
            },
            TypeModel::Unit => Spanned { loc: ty.loc, value: ResolvedTypeModel::Unit },
            TypeModel::Multiple(ts) => Spanned {
                loc: ty.loc,
                value: ResolvedTypeModel::Multiple(each_resolved(s, ts)),
            },
        }),
{
    match ty.value {
        TypeModel::Fun(ps, ret) => resolve_all_is_pointwise(s, ps),
        TypeModel::Multiple(ts) => resolve_all_is_pointwise(s, ts),
        _ => {},
    }
}

impl Scopes {
    /// The type that a type expression denotes.
    pub fn resolve_type(&self, ty: &Type) -> (r: ResolvedType)
        requires
            self.wf(),
        ensures
            r@ == resolve(self@, ty@),
        decreases ty,
    {
        proof {
            resolve_unfolds(self@, ty@);
        }
        let r = match &ty.value {
            Type_::Apply(chain, _) => {
                return self.resolve_name_access_chain_type(chain);
            },
            Type_::Ref(m, b) => ResolvedType_::Ref(*m, Box::new(self.resolve_type(b))),
            Type_::Fun(parameters, ret) => {
                let parameters = self.resolve_types(parameters);
                let ret = self.resolve_type(ret);
                let no_parameters: Vec<(Name, Vec<Ability>)> = Vec::new();
                assert(views(no_parameters@) =~= Seq::empty());
                ResolvedType_::Fun(no_parameters, parameters, Box::new(ret))
            },
            Type_::Unit => ResolvedType_::Unit,
            Type_::Multiple(types) => ResolvedType_::Multiple(self.resolve_types(types)),
        };
        ResolvedType(Spanned { loc: ty.loc, value: r })
    }

    /// The types that the type expressions of a list denote.
    pub fn resolve_types(&self, types: &Vec<Type>) -> (r: Vec<ResolvedType>)
        requires
            self.wf(),
        ensures
            views(r@) == each_resolved(self@, views(types@)),
        decreases types,
    {
        let mut out: Vec<ResolvedType> = Vec::new();
        let mut i: usize = 0;
        while i < types.len()
            invariant
                i <= types.len(),
                out.len() == i,
                self.wf(),
                forall|j: int| 0 <= j < i ==> out[j]@ == resolve(self@, types[j]@),
            decreases types.len() - i,
        {
            out.push(self.resolve_type(&types[i]));
            i += 1;
        }
        assert(views(out@) =~= each_resolved(self@, views(types@)));
        out
    }
}

} // verus!
