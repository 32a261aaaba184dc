//! The names that an expression uses: the variables it moves or copies and
//! the modules it names.
use crate::syntax::{
    exp_view_unfolds, opt_views, type_view_unfolds, views, Exp, ExpModel, Exp_, Field,
    LeadingNameAccessModel, LeadingNameAccess_, NameAccessChain, NameAccessChainModel,
    NameAccessChain_, NameModel, Spanned, Symbol, Type, TypeModel, Type_,
};
use crate::table::Table;
use vstd::prelude::*;

verus! {

/// A set of names.
#[derive(Debug)]
pub struct NameSet {
    names: Table<()>,
}

impl View for NameSet {
    type V = Set<Seq<char>>;

    closed spec fn view(&self) -> Set<Seq<char>> {
        self.names.map().dom()
    }
}

impl NameSet {
    /// The table is in order.
    pub closed spec fn wf(&self) -> bool {
        self.names.wf()
    }

    /// The set without names.
    pub fn new() -> (s: Self)
        ensures
            s.wf(),
            s@ == Set::<Seq<char>>::empty(),
    {
        let s = NameSet { names: Table::new() };
        assert(s@ =~= Set::<Seq<char>>::empty());
        s
    }

    /// Puts a name into the set.
    pub fn insert(&mut self, name: Symbol)
        requires
            old(self).wf(),
        ensures
            final(self).wf(),
            final(self)@ == old(self)@.insert(name@),
    {
        self.names.insert(name, ());
        assert(self@ =~= old(self)@.insert(name@));
    }

    /// Whether a name is in the set.
    pub fn contains(&self, name: &Symbol) -> (b: bool)
        ensures
            b == self@.contains(name@),
    {
        self.names.contains_key(name)
    }
}

/// The names found so far, and whether the search can go on.
pub struct Found {
    /// The variables.
    pub names: Set<Seq<char>>,
    /// The modules.
    pub modules: Set<Seq<char>>,
    /// Nothing without a rule has been met.
    pub ok: bool,
}

impl Found {
    /// The same names, and the search cannot go on.
    pub open spec fn failed(self) -> Found {
        Found { ok: false, ..self }
    }
}

/// What a qualified name adds: `m::x` at a named address adds the first
/// part to the modules; `m::x` at a numeric address and `a::m::x` add
/// nothing. A bare name has no rule.
pub open spec fn chain_names(c: NameAccessChainModel, acc: Found) -> Found {
    match c {
        NameAccessChainModel::One(_) => acc.failed(),
        NameAccessChainModel::Two(lead, _) => match lead.value {
            LeadingNameAccessModel::AnonymousAddress(_) => acc,
            LeadingNameAccessModel::Name(n) => Found { modules: acc.modules.insert(n.value), ..acc },
        },
        NameAccessChainModel::Three(_, _) => acc,
    }
}

/// What a type adds: the names of its type arguments, then that of its own
/// name; for a reference and a tuple those of the parts. A function type has
/// no rule.
pub open spec fn type_names(t: Spanned<TypeModel>, acc: Found) -> Found
    decreases t, 0int,
{
    match t.value {
        TypeModel::Apply(chain, tys) => {
            let after = types_names(tys, 0, acc);
            if after.ok {
                chain_names(chain.value, after)
            } else {
                after
            }
        },
        TypeModel::Ref(_, x) => type_names(*x, acc),
        TypeModel::Fun(_, _) => acc.failed(),
        TypeModel::Unit => acc,
        TypeModel::Multiple(tys) => types_names(tys, 0, acc),
    }
}

/// What the types of a list add, from position `from` on, up to the first
/// without a rule.
pub open spec fn types_names(ts: Seq<Spanned<TypeModel>>, from: int, acc: Found) -> Found
    decreases ts, ts.len() - from,
{
    if from < 0 || from >= ts.len() {
        acc
    } else {
        let after = type_names(ts[from], acc);
        if after.ok {
            types_names(ts, from + 1, after)
        } else {
            after
        }
    }
}

/// What the types of an optional list add.
pub open spec fn opt_types_names(ts: Option<Seq<Spanned<TypeModel>>>, acc: Found) -> Found {
    match ts {
        Some(x) => types_names(x, 0, acc),
        None => acc,
    }
}

/// What an expression adds to the names found, up to the first part
/// without a rule.
///
/// - `move x` and `copy x` add `x` to the variables.
/// - A name, a call, a struct literal and a vector literal add what their
///   name, their type arguments and their parts add, in that order.
/// - A conditional, the unary and binary operators, borrow, dereference,
///   field access and indexing add what their parts add. Cast and annotation
///   add what their operand adds.
/// - Literals, loops, lambdas, quantifiers, expression lists, the unit
///   value, assignment, `return`, `abort`, `break` and `continue` add
///   nothing.
/// - A block, a specification block and a malformed node have no rule.
pub open spec fn exp_names(e: Spanned<ExpModel>, acc: Found) -> Found
    decreases e, 0int,
{
    match e.value {
        ExpModel::Move(var) => Found { names: acc.names.insert(var.value), ..acc },
        ExpModel::Copy(var) => Found { names: acc.names.insert(var.value), ..acc },
        ExpModel::Name(name, tys) => {
            let a1 = chain_names(name.value, acc);
            if a1.ok {
                opt_types_names(tys, a1)
            } else {
                a1
            }
        },
        ExpModel::Call(chain, _, tys, exprs) => {
            let a1 = chain_names(chain.value, acc);
            if !a1.ok {
                a1
            } else {
                let a2 = opt_types_names(tys, a1);
                if a2.ok {
                    exps_names(exprs.value, 0, a2)
                } else {
                    a2
                }
            }
        },
        ExpModel::Pack(chain, tys, fields) => {
            let a1 = chain_names(chain.value, acc);
            if !a1.ok {
                a1
            } else {
                let a2 = opt_types_names(tys, a1);
                if a2.ok {
                    fields_names(fields, 0, a2)
                } else {
                    a2
                }
            }
        },
        ExpModel::Vector(_, tys, exprs) => {
            let a1 = opt_types_names(tys, acc);
            if a1.ok {
                exps_names(exprs.value, 0, a1)
            } else {
                a1
            }
        },
        ExpModel::IfElse(con, then_, else_) => {
            let a1 = exp_names(*con, acc);
            if !a1.ok {
                a1
            } else {
                let a2 = exp_names(*then_, a1);
                if !a2.ok {
                    a2
                } else {
                    match else_ {
                        Some(x) => exp_names(*x, a2),
                        None => a2,
                    }
                }
            }
        },
        ExpModel::Block(_) => acc.failed(),
        ExpModel::Dereference(x) => exp_names(*x, acc),
        ExpModel::UnaryExp(_, x) => exp_names(*x, acc),
        ExpModel::BinopExp(l, _, r) => {
            let a1 = exp_names(*l, acc);
            if a1.ok {
                exp_names(*r, a1)
            } else {
                a1
            }
        },
        ExpModel::Borrow(_, x) => exp_names(*x, acc),
        ExpModel::Dot(a, _) => exp_names(*a, acc),
        ExpModel::Index(a, b) => {
            let a1 = exp_names(*a, acc);
            if a1.ok {
                exp_names(*b, a1)
            } else {
                a1
            }
        },
        ExpModel::Cast(a, _) => exp_names(*a, acc),
        ExpModel::Annotate(a, _) => exp_names(*a, acc),
        ExpModel::Spec(_) => acc.failed(),
        ExpModel::UnresolvedError => acc.failed(),
        _ => acc,
    }
}

/// What the expressions of a list add, from position `from` on, up to the
/// first part without a rule.
pub open spec fn exps_names(es: Seq<Spanned<ExpModel>>, from: int, acc: Found) -> Found
    decreases es, es.len() - from,
{
    if from < 0 || from >= es.len() {
        acc
    } else {
        let after = exp_names(es[from], acc);
        if after.ok {
            exps_names(es, from + 1, after)
        } else {
            after
        }
    }
}

/// What the values of the fields of a struct literal add, from position
/// `from` on, up to the first part without a rule.
pub open spec fn fields_names(fs: Seq<(NameModel, Spanned<ExpModel>)>, from: int, acc: Found) -> Found
    decreases fs, fs.len() - from,
{
    if from < 0 || from >= fs.len() {
        acc
    } else {
        let after = exp_names(fs[from].1, acc);
        if after.ok {
            fields_names(fs, from + 1, after)
        } else {
            after
        }
    }
}

/// What two sets hold, as names found so far.
pub open spec fn found(names: NameSet, modules: NameSet) -> Found {
    Found { names: names@, modules: modules@, ok: true }
}

/// Whether a search ended as a result says, with the sets as they are.
pub open spec fn ended(r: Result<(), ()>, names: NameSet, modules: NameSet, f: Found) -> bool {
    &&& r is Ok <==> f.ok
    &&& names@ == f.names
    &&& modules@ == f.modules
}

/// Adds what a qualified name adds.
pub fn handle_name_access_chain(
    names: &mut NameSet,
    modules: &mut NameSet,
    chain: &NameAccessChain,
) -> (r: Result<(), ()>)
    requires
        old(names).wf(),
        old(modules).wf(),
    ensures
        final(names).wf(),
        final(modules).wf(),
        ended(
            r,
            *final(names),
            *final(modules),
            chain_names(chain@.value, found(*old(names), *old(modules))),
        ),
{
    match &chain.value {
        NameAccessChain_::One(_) => Err(()),
        NameAccessChain_::Two(name, _) => {
            match &name.value {
                LeadingNameAccess_::AnonymousAddress(_) => {},
                LeadingNameAccess_::Name(name) => {
                    modules.insert(name.value.clone());
                },
            }
            Ok(())
        },
        NameAccessChain_::Three(_, _) => Ok(()),
    }
}

/// Adds what a type adds.
pub fn handle_ty(names: &mut NameSet, modules: &mut NameSet, ty: &Type) -> (r: Result<(), ()>)
    requires
        old(names).wf(),
        old(modules).wf(),
    ensures
        final(names).wf(),
        final(modules).wf(),
        ended(r, *final(names), *final(modules), type_names(ty@, found(*old(names), *old(modules)))),
    decreases ty,
{
    proof {
        type_view_unfolds(ty.value);
    }
    match &ty.value {
        Type_::Apply(chain, tys) => {
            match handle_tys(names, modules, tys) {
                Ok(_) => handle_name_access_chain(names, modules, chain),
                Err(_) => Err(()),
            }
        },
        Type_::Ref(_, ty) => handle_ty(names, modules, ty),
        Type_::Fun(_, _) => Err(()),
        Type_::Unit => Ok(()),
        Type_::Multiple(tys) => handle_tys(names, modules, tys),
    }
}

/// Adds what the types of a list add.
pub fn handle_tys(names: &mut NameSet, modules: &mut NameSet, tys: &Vec<Type>) -> (r: Result<(), ()>)
    requires
        old(names).wf(),
        old(modules).wf(),
    ensures
        final(names).wf(),
        final(modules).wf(),
        ended(
            r,
            *final(names),
            *final(modules),
            types_names(views(tys@), 0, found(*old(names), *old(modules))),
        ),
    decreases tys,
{
    let mut i: usize = 0;
    while i < tys.len()
        invariant
            i <= tys.len(),
            names.wf(),
            modules.wf(),
            types_names(views(tys@), 0, found(*old(names), *old(modules))) == types_names(
                views(tys@),
                i as int,
                found(*names, *modules),
            ),
        decreases tys.len() - i,
    {
        match handle_ty(names, modules, &tys[i]) {
            Ok(_) => {},
            Err(_) => {
                return Err(());
            },
        }
        i += 1;
    }
    Ok(())
}

/// Adds what the types of an optional list add.
fn handle_opt_tys(names: &mut NameSet, modules: &mut NameSet, tys: &Option<Vec<Type>>) -> (r: Result<
    (),
    (),
>)
    requires
        old(names).wf(),
        old(modules).wf(),
    ensures
        final(names).wf(),
        final(modules).wf(),
        ended(
            r,
            *final(names),
            *final(modules),
            opt_types_names(opt_views(*tys), found(*old(names), *old(modules))),
        ),
{
    match tys {
        Some(tys) => handle_tys(names, modules, tys),
        None => Ok(()),
    }
}

/// Adds what the expressions of a list add.
pub fn handle_exprs(names: &mut NameSet, modules: &mut NameSet, exprs: &Vec<Exp>) -> (r: Result<
    (),
    (),
>)
    requires
        old(names).wf(),
        old(modules).wf(),
    ensures
        final(names).wf(),
        final(modules).wf(),
        ended(
            r,
            *final(names),
            *final(modules),
            exps_names(views(exprs@), 0, found(*old(names), *old(modules))),
        ),
    decreases exprs,
{
    let mut i: usize = 0;
    while i < exprs.len()
        invariant
            i <= exprs.len(),
            names.wf(),
            modules.wf(),
            exps_names(views(exprs@), 0, found(*old(names), *old(modules))) == exps_names(
                views(exprs@),
                i as int,
                found(*names, *modules),
            ),
        decreases exprs.len() - i,
    {
        match expr_name_in_expr(names, modules, &exprs[i]) {
            Ok(_) => {},
            Err(_) => {
                return Err(());
            },
        }
        i += 1;
    }
    Ok(())
}

/// Adds what the values of the fields of a struct literal add.
fn handle_fields(
    names: &mut NameSet,
    modules: &mut NameSet,
    fields: &Vec<(Field, Exp)>,
) -> (r: Result<(), ()>)
    requires
        old(names).wf(),
        old(modules).wf(),
    ensures
        final(names).wf(),
        final(modules).wf(),
        ended(
            r,
            *final(names),
            *final(modules),
            fields_names(views(fields@), 0, found(*old(names), *old(modules))),
        ),
    decreases fields,
{
    let mut i: usize = 0;
    while i < fields.len()
        invariant
            i <= fields.len(),
            names.wf(),
            modules.wf(),
            fields_names(views(fields@), 0, found(*old(names), *old(modules))) == fields_names(
                views(fields@),
                i as int,
                found(*names, *modules),
            ),
        decreases fields.len() - i,
    {
        match expr_name_in_expr(names, modules, &fields[i].1) {
            Ok(_) => {},
            Err(_) => {
                return Err(());
            },
        }
        i += 1;
    }
    Ok(())
}

/// Adds the variables and the modules that an expression uses to the two
/// sets. It stops with an error at the first part that has no rule: a bare
/// name, a function type, a block, a specification block or a malformed
/// node; what was found before stays in the sets.
pub fn expr_name_in_expr(names: &mut NameSet, modules: &mut NameSet, e: &Exp) -> (r: Result<(), ()>)
    requires
        old(names).wf(),
        old(modules).wf(),
    ensures
        final(names).wf(),
        final(modules).wf(),
        ended(r, *final(names), *final(modules), exp_names(e@, found(*old(names), *old(modules)))),
    decreases e,
{
    proof {
        exp_view_unfolds(e.value);
    }
    match &e.value {
        Exp_::Value(_) => Ok(()),
        Exp_::Move(var) => {
            names.insert(var.value.clone());
            Ok(())
        },
        Exp_::Copy(var) => {
            names.insert(var.value.clone());
            Ok(())
        },
        Exp_::Name(name, tys) => {
            match handle_name_access_chain(names, modules, name) {
                Ok(_) => handle_opt_tys(names, modules, tys),
                Err(_) => Err(()),
            }
        },
        Exp_::Call(chain, _, tys, exprs) => {
            match handle_name_access_chain(names, modules, chain) {
                Ok(_) => match handle_opt_tys(names, modules, tys) {
                    Ok(_) => handle_exprs(names, modules, &exprs.value),
                    Err(_) => Err(()),
                },
                Err(_) => Err(()),
            }
        },
        Exp_::Pack(chain, tys, exprs) => {
            match handle_name_access_chain(names, modules, chain) {
                Ok(_) => match handle_opt_tys(names, modules, tys) {
                    Ok(_) => handle_fields(names, modules, exprs),
                    Err(_) => Err(()),
                },
                Err(_) => Err(()),
            }
        },
        Exp_::Vector(_, tys, exprs) => {
            match handle_opt_tys(names, modules, tys) {
                Ok(_) => handle_exprs(names, modules, &exprs.value),
                Err(_) => Err(()),
            }
        },
        Exp_::IfElse(con, then_, else_) => {
            match expr_name_in_expr(names, modules, con) {
                Ok(_) => match expr_name_in_expr(names, modules, then_) {
                    Ok(_) => match else_ {
                        Some(else_) => expr_name_in_expr(names, modules, else_),
                        None => Ok(()),
                    },
                    Err(_) => Err(()),
                },
                Err(_) => Err(()),
            }
        },
        Exp_::While(_, _) => Ok(()),
        Exp_::Loop(_) => Ok(()),
        Exp_::Block(_) => Err(()),
        Exp_::Lambda(_) => Ok(()),
        Exp_::Quant(_) => Ok(()),
        Exp_::ExpList(_) => Ok(()),
        Exp_::Unit => Ok(()),
        Exp_::Assign(_, _) => Ok(()),
        Exp_::Return(_) => Ok(()),
        Exp_::Abort(_) => Ok(()),
        Exp_::Break => Ok(()),
        Exp_::Continue => Ok(()),
        Exp_::Dereference(e) => expr_name_in_expr(names, modules, e),
        Exp_::UnaryExp(_, e) => expr_name_in_expr(names, modules, e),
        Exp_::BinopExp(l, _, r) => {
            match expr_name_in_expr(names, modules, l) {
                Ok(_) => expr_name_in_expr(names, modules, r),
                Err(_) => Err(()),
            }
        },
        Exp_::Borrow(_, e) => expr_name_in_expr(names, modules, e),
        Exp_::Dot(a, _) => expr_name_in_expr(names, modules, a),
        Exp_::Index(a, b) => {
            match expr_name_in_expr(names, modules, a) {
                Ok(_) => expr_name_in_expr(names, modules, b),
                Err(_) => Err(()),
            }
        },
        Exp_::Cast(a, _) => expr_name_in_expr(names, modules, a),
        Exp_::Annotate(a, _) => expr_name_in_expr(names, modules, a),
        Exp_::Spec(_) => Err(()),
        Exp_::UnresolvedError => Err(()),
    }
}

} // verus!
