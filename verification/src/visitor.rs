//! The visitor that a walk reports to, and what a walk does to it.
//!
//! A walk goes through a function in source order. It reports every node
//! that binds or uses a name to the visitor, together with the scopes as they
//! are at that node, and enters every binding into the innermost scope as
//! soon as it has been reported. At fixed points it asks the visitor whether
//! it is finished, and returns at once if so.
//!
//! The functions `walk_*` say what a walk does, as a function from the
//! visitor's state before to its state after.
use crate::algebra::field_of;
use crate::evaluate::expr_type;
use crate::item::{macro_of_chain, name_of_value, Item, ItemModel};
use crate::resolve::resolve;
use crate::scopes::{address_of, module_at, modules_at, ScopeModel, Scopes, ScopesModel};
use crate::syntax::{
    Ability, BindModel, ExpModel, FileHash, FunctionBodyModel, FunctionModel,
    FunctionSignatureModel, NameAccessChainModel, NameModel, NumericalAddress, SequenceItemModel,
    SequenceModel, Spanned, TypeModel, UseModel,
};
use crate::types::Resolved;
use vstd::prelude::*;

verus! {

/// What a feature implements to be told of every binding-relevant node.
///
/// A visitor is a state machine: `state` is what it has learned so far,
/// `handled` is how one report changes that, and `done` and `visits` are
/// what it answers in a given state. A verified visitor defines the four; the
/// walk is then known exactly.
pub trait ScopeVisitor {
    /// What the visitor has learned so far.
    type State;

    /// The state that the visitor is in.
    open spec fn state(&self) -> Self::State {
        arbitrary()
    }

    /// The state after a report.
    open spec fn handled(s: Self::State, scopes: ScopesModel, item: ItemModel) -> Self::State {
        s
    }

    /// Whether the visitor wants no more reports.
    open spec fn done(s: Self::State) -> bool {
        false
    }

    /// Whether the visitor wants the nodes of a file.
    open spec fn visits(s: Self::State, file: FileHash) -> bool {
        true
    }

    /// Takes the report of one node, with the scopes as they are there.
    fn handle_item(&mut self, scopes: &Scopes, item: &Item)
        requires
            scopes.wf(),
        ensures
            final(self).state() == Self::handled(old(self).state(), scopes@, item@),
    ;

    /// Whether the nodes of a file are to be reported.
    fn file_should_visit(&self, p: FileHash) -> (b: bool)
        ensures
            b == Self::visits(self.state(), p),
    ;

    /// Whether the walk is to stop.
    fn finished(&self) -> (b: bool)
        ensures
            b == Self::done(self.state()),
    ;
}

/// The names of addresses, as a walk is given them.
pub type Named = Map<Seq<char>, NumericalAddress>;

/// What a walk hands on: the scopes and the visitor's state, and whether it
/// stopped because the visitor was finished.
pub struct Walk<S> {
    pub scopes: ScopesModel,
    pub state: S,
    pub stopped: bool,
}

/// The item that a call reports for its callee: the macro where the call is
/// a macro call of a recognized name, and else the name.
pub open spec fn callee_item(chain: Spanned<NameAccessChainModel>, is_macro: bool) -> ItemModel {
    if is_macro && macro_of_chain(chain.value) is Some {
        ItemModel::MacroCall(macro_of_chain(chain.value).unwrap())
    } else {
        ItemModel::NameAccessChain(chain)
    }
}

/// Reports each type of a list, from position `from` on, without asking in
/// between.
pub open spec fn report_types<V: ScopeVisitor>(
    ts: Seq<Spanned<TypeModel>>,
    from: int,
    sc: ScopesModel,
    st: V::State,
) -> V::State
    decreases ts.len() - from,
{
    if from < 0 || from >= ts.len() {
        st
    } else {
        report_types::<V>(ts, from + 1, sc, V::handled(st, sc, ItemModel::ApplyType(ts[from])))
    }
}

/// Reports each type of a list, from position `from` on, and asks after
/// each.
pub open spec fn walk_types<V: ScopeVisitor>(
    ts: Seq<Spanned<TypeModel>>,
    from: int,
    sc: ScopesModel,
    st: V::State,
) -> (V::State, bool)
    decreases ts.len() - from,
{
    if from < 0 || from >= ts.len() {
        (st, false)
    } else {
        let s1 = V::handled(st, sc, ItemModel::ApplyType(ts[from]));
        if V::done(s1) {
            (s1, true)
        } else {
            walk_types::<V>(ts, from + 1, sc, s1)
        }
    }
}

/// Walks the types of an optional list.
pub open spec fn walk_opt_types<V: ScopeVisitor>(
    ts: Option<Seq<Spanned<TypeModel>>>,
    sc: ScopesModel,
    st: V::State,
) -> (V::State, bool) {
    match ts {
        Some(x) => walk_types::<V>(x, 0, sc, st),
        None => (st, false),
    }
}

/// The walk over an expression. The scopes are the same before and after.
///
/// - A named address, `move x`, `copy x`, a name, `break` and `continue`
///   report themselves.
/// - A call reports its callee and asks; then it reports its type arguments
///   and walks its arguments, asking after each argument.
/// - A struct literal reports its name and asks; walks its type arguments;
///   then for each field reports the field, if the struct has it, and walks
///   the field's value, asking after each field.
/// - A vector literal walks its type arguments and its elements.
/// - Cast and annotation walk the operand, ask, and report the type. Field
///   access walks the operand, asks, and reports the field if the operand's
///   type has it.
/// - Every other form with parts walks them from left to right and asks
///   between them. A block is walked in a scope of its own.
/// - A lambda, a quantifier, a specification block and indexing have no
///   rule: nothing is reported for them.
pub open spec fn walk_expr<V: ScopeVisitor>(
    named: Named,
    e: Spanned<ExpModel>,
    sc: ScopesModel,
    st: V::State,
) -> V::State
    decreases e, 0int,
{
    match e.value {
        ExpModel::Value(v) => match name_of_value(v.value) {
            Some(name) => V::handled(st, sc, ItemModel::ExprAddressName(name)),
            None => st,
        },
        ExpModel::Move(var) => V::handled(st, sc, ItemModel::ExprVar(var)),
        ExpModel::Copy(var) => V::handled(st, sc, ItemModel::ExprVar(var)),
        ExpModel::Name(chain, _) => V::handled(st, sc, ItemModel::NameAccessChain(chain)),
        ExpModel::Call(chain, is_macro, types, exprs) => {
            let s1 = V::handled(st, sc, callee_item(chain, is_macro));
            if V::done(s1) {
                s1
            } else {
                let s2 = match types {
                    Some(ts) => report_types::<V>(ts, 0, sc, s1),
                    None => s1,
                };
                walk_exprs::<V>(named, exprs.value, 0, sc, s2).0
            }
        },
        ExpModel::Pack(chain, types, fields) => {
            let s1 = V::handled(st, sc, ItemModel::NameAccessChain(chain));
            if V::done(s1) {
                s1
            } else {
                let (s2, stopped) = walk_opt_types::<V>(types, sc, s1);
                if stopped {
                    s2
                } else {
                    walk_fields::<V>(named, expr_type(named, sc, e), fields, 0, sc, s2).0
                }
            }
        },
        ExpModel::Vector(_, types, exprs) => {
            let (s1, stopped) = walk_opt_types::<V>(types, sc, st);
            if stopped {
                s1
            } else {
                walk_exprs::<V>(named, exprs.value, 0, sc, s1).0
            }
        },
        ExpModel::IfElse(condition, then, else_) => {
            let s1 = walk_expr::<V>(named, *condition, sc, st);
            if V::done(s1) {
                s1
            } else {
                let s2 = walk_expr::<V>(named, *then, sc, s1);
                if V::done(s2) {
                    s2
                } else {
                    match else_ {
                        Some(x) => walk_expr::<V>(named, *x, sc, s2),
                        None => s2,
                    }
                }
            }
        },
        ExpModel::While(condition, body) => {
            let s1 = walk_expr::<V>(named, *condition, sc, st);
            if V::done(s1) {
                s1
            } else {
                walk_expr::<V>(named, *body, sc, s1)
            }
        },
        ExpModel::Loop(body) => walk_expr::<V>(named, *body, sc, st),
        ExpModel::Block(b) => walk_block::<V>(named, b, sc, st),
        ExpModel::Lambda(_) => st,
        ExpModel::Quant(_) => st,
        ExpModel::ExpList(list) => walk_exprs::<V>(named, list, 0, sc, st).0,
        ExpModel::Unit => st,
        ExpModel::Assign(left, right) => {
            let s1 = walk_expr::<V>(named, *left, sc, st);
            if V::done(s1) {
                s1
            } else {
                walk_expr::<V>(named, *right, sc, s1)
            }
        },
        ExpModel::Return(x) => match x {
            Some(x) => walk_expr::<V>(named, *x, sc, st),
            None => st,
        },
        ExpModel::Abort(x) => walk_expr::<V>(named, *x, sc, st),
        ExpModel::Break => V::handled(st, sc, ItemModel::KeyWords("break"@)),
        ExpModel::Continue => V::handled(st, sc, ItemModel::KeyWords("continue"@)),
        ExpModel::Dereference(x) => walk_expr::<V>(named, *x, sc, st),
        ExpModel::UnaryExp(_, x) => walk_expr::<V>(named, *x, sc, st),
        ExpModel::BinopExp(left, _, right) => {
            let s1 = walk_expr::<V>(named, *left, sc, st);
            if V::done(s1) {
                s1
            } else {
                walk_expr::<V>(named, *right, sc, s1)
            }
        },
        ExpModel::Borrow(_, x) => walk_expr::<V>(named, *x, sc, st),
        ExpModel::Dot(x, field) => {
            let s1 = walk_expr::<V>(named, *x, sc, st);
            if V::done(s1) {
                s1
            } else {
                match field_of(expr_type(named, sc, *x), field.value) {
                    Some(f) => V::handled(s1, sc, ItemModel::AccessFiled(f.0, f.1)),
                    None => s1,
                }
            }
        },
        ExpModel::Index(_, _) => st,
        ExpModel::Cast(x, ty) => {
            let s1 = walk_expr::<V>(named, *x, sc, st);
            if V::done(s1) {
                s1
            } else {
                V::handled(s1, sc, ItemModel::ApplyType(ty))
            }
        },
        ExpModel::Annotate(x, ty) => {
            let s1 = walk_expr::<V>(named, *x, sc, st);
            if V::done(s1) {
                s1
            } else {
                V::handled(s1, sc, ItemModel::ApplyType(ty))
            }
        },
        ExpModel::Spec(_) => st,
        ExpModel::UnresolvedError => st,
    }
}

/// Walks each expression of a list, from position `from` on, and asks after
/// each.
pub open spec fn walk_exprs<V: ScopeVisitor>(
    named: Named,
    es: Seq<Spanned<ExpModel>>,
    from: int,
    sc: ScopesModel,
    st: V::State,
) -> (V::State, bool)
    decreases es, es.len() - from,
{
    if from < 0 || from >= es.len() {
        (st, false)
    } else {
        let s1 = walk_expr::<V>(named, es[from], sc, st);
        if V::done(s1) {
            (s1, true)
        } else {
            walk_exprs::<V>(named, es, from + 1, sc, s1)
        }
    }
}

/// For each field of a struct literal, from position `from` on: reports the
/// field with its type, if the struct type `ty` has a field of that name,
/// walks the field's value, and asks.
pub open spec fn walk_fields<V: ScopeVisitor>(
    named: Named,
    ty: Resolved,
    fs: Seq<(NameModel, Spanned<ExpModel>)>,
    from: int,
    sc: ScopesModel,
    st: V::State,
) -> (V::State, bool)
    decreases fs, fs.len() - from,
{
    if from < 0 || from >= fs.len() {
        (st, false)
    } else {
        let s1 = match field_of(ty, fs[from].0.value) {
            Some(f) => V::handled(st, sc, ItemModel::FieldInitialization(fs[from].0, f.1)),
            None => st,
        };
        let s2 = walk_expr::<V>(named, fs[from].1, sc, s1);
        if V::done(s2) {
            (s2, true)
        } else {
            walk_fields::<V>(named, ty, fs, from + 1, sc, s2)
        }
    }
}

/// The name under which an import is bound: the alias, or else its own.
pub open spec fn bound_name(name: NameModel, alias: Option<NameModel>) -> Seq<char> {
    match alias {
        Some(a) => a.value,
        None => name.value,
    }
}

/// The scopes after binding the first `n` imported members: each member that
/// the module has is bound, under its alias or its own name, to what the
/// module binds it to.
pub open spec fn bind_members(
    sc: ScopesModel,
    module: ScopeModel,
    members: Seq<(NameModel, Option<NameModel>)>,
    n: int,
) -> ScopesModel
    decreases n,
{
    if n <= 0 || n > members.len() {
        sc
    } else {
        let before = bind_members(sc, module, members, n - 1);
        if module.items.contains_key(members[n - 1].0.value) {
            before.bind(
                bound_name(members[n - 1].0, members[n - 1].1),
                ItemModel::ImportUse(Box::new(module.items[members[n - 1].0.value])),
            )
        } else {
            before
        }
    }
}

/// The scopes after a `use` declaration. Where the module is not known, or
/// its address has no number, nothing is bound. An imported module is bound
/// under its alias or its own name; imported members are bound as
/// [`bind_members`] says.
pub open spec fn use_bindings(named: Named, u: UseModel, sc: ScopesModel) -> ScopesModel {
    match u {
        UseModel::Module(module, alias) => match address_of(module.value.address.value, named) {
            Some(a) => if modules_at(sc.addresses, a).contains_key(module.value.module.value) {
                sc.bind(
                    bound_name(module.value.module, alias),
                    ItemModel::ImportedUseModule(module, a),
                )
            } else {
                sc
            },
            None => sc,
        },
        UseModel::Members(module, members) => match address_of(module.value.address.value, named) {
            Some(a) => if modules_at(sc.addresses, a).contains_key(module.value.module.value) {
                bind_members(
                    sc,
                    module_at(sc.addresses, a, module.value.module.value),
                    members,
                    members.len() as int,
                )
            } else {
                sc
            },
            None => sc,
        },
    }
}

/// The walk over a `use` declaration: reports it, asks, and binds what it
/// brings in.
pub open spec fn walk_use<V: ScopeVisitor>(named: Named, u: UseModel, sc: ScopesModel, st: V::State) -> (
    ScopesModel,
    V::State,
) {
    let s1 = V::handled(st, sc, ItemModel::Use(u));
    if V::done(s1) {
        (sc, s1)
    } else {
        (use_bindings(named, u, sc), s1)
    }
}

/// Walks each `use` declaration of a list, from position `from` on, and
/// asks after each.
pub open spec fn walk_uses<V: ScopeVisitor>(
    named: Named,
    us: Seq<UseModel>,
    from: int,
    sc: ScopesModel,
    st: V::State,
) -> Walk<V::State>
    decreases us.len() - from,
{
    if from < 0 || from >= us.len() {
        Walk { scopes: sc, state: st, stopped: false }
    } else {
        let (sc1, s1) = walk_use::<V>(named, us[from], sc, st);
        if V::done(s1) {
            Walk { scopes: sc1, state: s1, stopped: true }
        } else {
            walk_uses::<V>(named, us, from + 1, sc1, s1)
        }
    }
}

/// The walk over one pattern: a variable is reported and, unless the
/// visitor is finished, bound. A struct pattern has no rule: nothing is
/// reported for it.
pub open spec fn walk_bind<V: ScopeVisitor>(b: Spanned<BindModel>, sc: ScopesModel, st: V::State) -> (
    ScopesModel,
    V::State,
) {
    match b.value {
        BindModel::Var(var) => {
            let s1 = V::handled(st, sc, ItemModel::ExprVar(var));
            if V::done(s1) {
                (sc, s1)
            } else {
                (sc.bind(var.value, ItemModel::ExprVar(var)), s1)
            }
        },
        BindModel::Unpack(_, _, _) => (sc, st),
    }
}

/// Walks each pattern of a list, from position `from` on, and asks after
/// each.
pub open spec fn walk_binds<V: ScopeVisitor>(
    bs: Seq<Spanned<BindModel>>,
    from: int,
    sc: ScopesModel,
    st: V::State,
) -> (ScopesModel, V::State)
    decreases bs.len() - from,
{
    if from < 0 || from >= bs.len() {
        (sc, st)
    } else {
        let (sc1, s1) = walk_bind::<V>(bs[from], sc, st);
        if V::done(s1) {
            (sc1, s1)
        } else {
            walk_binds::<V>(bs, from + 1, sc1, s1)
        }
    }
}

/// The walk over one statement: an expression is walked; a `let` walks its
/// patterns. The expression that a `let` binds is not walked.
pub open spec fn walk_item<V: ScopeVisitor>(
    named: Named,
    item: Spanned<SequenceItemModel>,
    sc: ScopesModel,
    st: V::State,
) -> (ScopesModel, V::State)
    decreases item, 0int,
{
    match item.value {
        SequenceItemModel::Expr(e) => (sc, walk_expr::<V>(named, *e, sc, st)),
        SequenceItemModel::Declare(list, _) => walk_binds::<V>(list.value, 0, sc, st),
        SequenceItemModel::Bind(list, _, _) => walk_binds::<V>(list.value, 0, sc, st),
    }
}

/// Walks each statement of a list, from position `from` on, and asks after
/// each.
pub open spec fn walk_items<V: ScopeVisitor>(
    named: Named,
    items: Seq<Spanned<SequenceItemModel>>,
    from: int,
    sc: ScopesModel,
    st: V::State,
) -> Walk<V::State>
    decreases items, items.len() - from,
{
    if from < 0 || from >= items.len() {
        Walk { scopes: sc, state: st, stopped: false }
    } else {
        let (sc1, s1) = walk_item::<V>(named, items[from], sc, st);
        if V::done(s1) {
            Walk { scopes: sc1, state: s1, stopped: true }
        } else {
            walk_items::<V>(named, items, from + 1, sc1, s1)
        }
    }
}

/// The walk over the inside of a block, in the scope that was entered for
/// it: the `use` declarations, the statements, the final expression.
pub open spec fn walk_block_body<V: ScopeVisitor>(
    named: Named,
    b: SequenceModel,
    sc: ScopesModel,
    st: V::State,
) -> V::State
    decreases b, 1int,
{
    let uses = walk_uses::<V>(named, b.uses, 0, sc, st);
    if uses.stopped {
        uses.state
    } else {
        let items = walk_items::<V>(named, b.items, 0, uses.scopes, uses.state);
        if items.stopped {
            items.state
        } else {
            match b.tail {
                Some(e) => walk_expr::<V>(named, *e, items.scopes, items.state),
                None => items.state,
            }
        }
    }
}

/// The walk over a block: its inside, in a new scope on top.
pub open spec fn walk_block<V: ScopeVisitor>(
    named: Named,
    b: SequenceModel,
    sc: ScopesModel,
    st: V::State,
) -> V::State
    decreases b, 2int,
{
    walk_block_body::<V>(named, b, sc.push(), st)
}

/// Reports each type parameter, from position `from` on, asks, and binds
/// it.
pub open spec fn walk_type_parameters<V: ScopeVisitor>(
    ps: Seq<(NameModel, Seq<Ability>)>,
    from: int,
    sc: ScopesModel,
    st: V::State,
) -> Walk<V::State>
    decreases ps.len() - from,
{
    if from < 0 || from >= ps.len() {
        Walk { scopes: sc, state: st, stopped: false }
    } else {
        let item = ItemModel::TParam(ps[from].0, ps[from].1);
        let s1 = V::handled(st, sc, item);
        if V::done(s1) {
            Walk { scopes: sc, state: s1, stopped: true }
        } else {
            walk_type_parameters::<V>(ps, from + 1, sc.bind(ps[from].0.value, item), s1)
        }
    }
}

/// For each parameter, from position `from` on: reports its type as
/// written and asks; reports the parameter with its resolved type and asks;
/// binds the parameter.
pub open spec fn walk_parameters<V: ScopeVisitor>(
    ps: Seq<(NameModel, Spanned<TypeModel>)>,
    from: int,
    sc: ScopesModel,
    st: V::State,
) -> Walk<V::State>
    decreases ps.len() - from,
{
    if from < 0 || from >= ps.len() {
        Walk { scopes: sc, state: st, stopped: false }
    } else {
        let s1 = V::handled(st, sc, ItemModel::ApplyType(ps[from].1));
        if V::done(s1) {
            Walk { scopes: sc, state: s1, stopped: true }
        } else {
            let item = ItemModel::Parameter(ps[from].0, resolve(sc, ps[from].1));
            let s2 = V::handled(s1, sc, item);
            if V::done(s2) {
                Walk { scopes: sc, state: s2, stopped: true }
            } else {
                walk_parameters::<V>(ps, from + 1, sc.bind(ps[from].0.value, item), s2)
            }
        }
    }
}

/// The walk over the header of a function: the type parameters, then the
/// parameters, each bound as soon as it has been reported, so that what
/// follows sees it.
pub open spec fn walk_signature<V: ScopeVisitor>(
    sig: FunctionSignatureModel,
    sc: ScopesModel,
    st: V::State,
) -> Walk<V::State> {
    let tps = walk_type_parameters::<V>(sig.type_parameters, 0, sc, st);
    if tps.stopped {
        tps
    } else {
        walk_parameters::<V>(sig.parameters, 0, tps.scopes, tps.state)
    }
}

/// The walk over a function: in a new scope, the header; then, unless the
/// visitor is finished, the body, as a block. The scopes are the same before
/// and after.
pub open spec fn walk_function<V: ScopeVisitor>(
    named: Named,
    f: FunctionModel,
    sc: ScopesModel,
    st: V::State,
) -> V::State {
    let sig = walk_signature::<V>(f.signature, sc.push(), st);
    if V::done(sig.state) {
        sig.state
    } else {
        match f.body.value {
            FunctionBodyModel::Native => sig.state,
            FunctionBodyModel::Defined(b) => walk_block::<V>(named, b, sig.scopes, sig.state),
        }
    }
}

} // verus!
