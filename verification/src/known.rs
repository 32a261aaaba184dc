//! What a walk sees of the table of all modules: every report is made with
//! the table that the walk started with, and after the first pass of a run
//! that table knows every struct that a file of the repository declares.
use crate::driver::{
    fresh, register_definition, register_members, register_module, register_modules,
    register_package, register_packages, registered, registered_from, run, struct_item,
    walk_definition, walk_members, walk_module, walk_modules, walk_package, walk_packages,
};
use crate::evaluate::expr_type;
use crate::item::ItemModel;
use crate::modules::{IDEModule, Modules};
use crate::scopes::{
    address_of, chain_type, module_at, modules_at, AddressesModel, ScopeModel, ScopesModel,
};
use crate::syntax::{
    Ability, BindModel, DefinitionModel, ExpModel, FunctionBodyModel, FunctionModel,
    ModuleDefinitionModel, ModuleMemberModel, NameAccessChainModel, NameModel, NumericalAddress,
    SequenceItemModel, SequenceModel, Spanned, TypeModel, UseModel,
};
use crate::types::Resolved;
use crate::visitor::{
    bind_members, report_types, walk_bind, walk_binds, walk_block, walk_block_body, walk_expr,
    walk_exprs, walk_fields, walk_function, walk_item, walk_items, walk_opt_types, walk_parameters,
    walk_signature, walk_type_parameters, walk_types, walk_use, walk_uses, Named, ScopeVisitor,
};
use vstd::prelude::*;

verus! {

/// The property `inv` of the visitor's state survives every report that is
/// made with the table of modules `a`.
pub open spec fn kept_by_reports<V: ScopeVisitor>(
    inv: spec_fn(V::State) -> bool,
    a: AddressesModel,
) -> bool {
    forall|s: V::State, sc: ScopesModel, i: ItemModel|
        inv(s) && sc.addresses == a ==> inv(#[trigger] V::handled(s, sc, i))
}

proof fn kept_in_reported_types<V: ScopeVisitor>(
    inv: spec_fn(V::State) -> bool,
    ts: Seq<Spanned<TypeModel>>,
    from: int,
    sc: ScopesModel,
    st: V::State,
)
    requires
        kept_by_reports::<V>(inv, sc.addresses),
        inv(st),
    ensures
        inv(report_types::<V>(ts, from, sc, st)),
    decreases ts.len() - from,
{
    if 0 <= from < ts.len() {
        kept_in_reported_types::<V>(
            inv,
            ts,
            from + 1,
            sc,
            V::handled(st, sc, ItemModel::ApplyType(ts[from])),
        );
    }
}

proof fn kept_in_types<V: ScopeVisitor>(
    inv: spec_fn(V::State) -> bool,
    ts: Seq<Spanned<TypeModel>>,
    from: int,
    sc: ScopesModel,
    st: V::State,
)
    requires
        kept_by_reports::<V>(inv, sc.addresses),
        inv(st),
    ensures
        inv(walk_types::<V>(ts, from, sc, st).0),
    decreases ts.len() - from,
{
    if 0 <= from < ts.len() {
        let s1 = V::handled(st, sc, ItemModel::ApplyType(ts[from]));
        if !V::done(s1) {
            kept_in_types::<V>(inv, ts, from + 1, sc, s1);
        }
    }
}

proof fn kept_in_opt_types<V: ScopeVisitor>(
    inv: spec_fn(V::State) -> bool,
    ts: Option<Seq<Spanned<TypeModel>>>,
    sc: ScopesModel,
    st: V::State,
)
    requires
        kept_by_reports::<V>(inv, sc.addresses),
        inv(st),
    ensures
        inv(walk_opt_types::<V>(ts, sc, st).0),
{
    match ts {
        Some(x) => kept_in_types::<V>(inv, x, 0, sc, st),
        None => {},
    }
}

proof fn kept_in_expr<V: ScopeVisitor>(
    inv: spec_fn(V::State) -> bool,
    named: Named,
    e: Spanned<ExpModel>,
    sc: ScopesModel,
    st: V::State,
)
    requires
        kept_by_reports::<V>(inv, sc.addresses),
        inv(st),
    ensures
        inv(walk_expr::<V>(named, e, sc, st)),
    decreases e, 0int,
{
    match e.value {
        ExpModel::Call(chain, is_macro, types, exprs) => {
            let s1 = V::handled(st, sc, crate::visitor::callee_item(chain, is_macro));
            if !V::done(s1) {
                let s2 = match types {
                    Some(ts) => {
                        kept_in_reported_types::<V>(inv, ts, 0, sc, s1);
                        report_types::<V>(ts, 0, sc, s1)
                    },
                    None => s1,
                };
                kept_in_exprs::<V>(inv, named, exprs.value, 0, sc, s2);
            }
        },
        ExpModel::Pack(chain, types, fields) => {
            let s1 = V::handled(st, sc, ItemModel::NameAccessChain(chain));
            if !V::done(s1) {
                kept_in_opt_types::<V>(inv, types, sc, s1);
                let (s2, stopped) = walk_opt_types::<V>(types, sc, s1);
                if !stopped {
                    kept_in_fields::<V>(inv, named, expr_type(named, sc, e), fields, 0, sc, s2);
                }
            }
        },
        ExpModel::Vector(_, types, exprs) => {
            kept_in_opt_types::<V>(inv, types, sc, st);
            let (s1, stopped) = walk_opt_types::<V>(types, sc, st);
            if !stopped {
                kept_in_exprs::<V>(inv, named, exprs.value, 0, sc, s1);
            }
        },
        ExpModel::IfElse(condition, then, else_) => {
            kept_in_expr::<V>(inv, named, *condition, sc, st);
            let s1 = walk_expr::<V>(named, *condition, sc, st);
            if !V::done(s1) {
                kept_in_expr::<V>(inv, named, *then, sc, s1);
                let s2 = walk_expr::<V>(named, *then, sc, s1);
                if !V::done(s2) {
                    match else_ {
                        Some(x) => kept_in_expr::<V>(inv, named, *x, sc, s2),
                        None => {},
                    }
                }
            }
        },
        ExpModel::While(condition, body) => {
            kept_in_expr::<V>(inv, named, *condition, sc, st);
            let s1 = walk_expr::<V>(named, *condition, sc, st);
            if !V::done(s1) {
                kept_in_expr::<V>(inv, named, *body, sc, s1);
            }
        },
        ExpModel::Loop(body) => kept_in_expr::<V>(inv, named, *body, sc, st),
        ExpModel::Block(b) => kept_in_block::<V>(inv, named, b, sc, st),
        ExpModel::ExpList(list) => kept_in_exprs::<V>(inv, named, list, 0, sc, st),
        ExpModel::Assign(left, right) => {
            kept_in_expr::<V>(inv, named, *left, sc, st);
            let s1 = walk_expr::<V>(named, *left, sc, st);
            if !V::done(s1) {
                kept_in_expr::<V>(inv, named, *right, sc, s1);
            }
        },
        ExpModel::Return(x) => match x {
            Some(x) => kept_in_expr::<V>(inv, named, *x, sc, st),
            None => {},
        },
        ExpModel::Abort(x) => kept_in_expr::<V>(inv, named, *x, sc, st),
        ExpModel::Dereference(x) => kept_in_expr::<V>(inv, named, *x, sc, st),
        ExpModel::UnaryExp(_, x) => kept_in_expr::<V>(inv, named, *x, sc, st),
        ExpModel::BinopExp(left, _, right) => {
            kept_in_expr::<V>(inv, named, *left, sc, st);
            let s1 = walk_expr::<V>(named, *left, sc, st);
            if !V::done(s1) {
                kept_in_expr::<V>(inv, named, *right, sc, s1);
            }
        },
        ExpModel::Borrow(_, x) => kept_in_expr::<V>(inv, named, *x, sc, st),
        ExpModel::Dot(x, _) => kept_in_expr::<V>(inv, named, *x, sc, st),
        ExpModel::Cast(x, _) => kept_in_expr::<V>(inv, named, *x, sc, st),
        ExpModel::Annotate(x, _) => kept_in_expr::<V>(inv, named, *x, sc, st),
        _ => {},
    }
}

proof fn kept_in_exprs<V: ScopeVisitor>(
    inv: spec_fn(V::State) -> bool,
    named: Named,
    es: Seq<Spanned<ExpModel>>,
    from: int,
    sc: ScopesModel,
    st: V::State,
)
    requires
        kept_by_reports::<V>(inv, sc.addresses),
        inv(st),
    ensures
        inv(walk_exprs::<V>(named, es, from, sc, st).0),
    decreases es, es.len() - from,
{
    if 0 <= from < es.len() {
        kept_in_expr::<V>(inv, named, es[from], sc, st);
        let s1 = walk_expr::<V>(named, es[from], sc, st);
        if !V::done(s1) {
            kept_in_exprs::<V>(inv, named, es, from + 1, sc, s1);
        }
    }
}

proof fn kept_in_fields<V: ScopeVisitor>(
    inv: spec_fn(V::State) -> bool,
    named: Named,
    ty: Resolved,
    fs: Seq<(NameModel, Spanned<ExpModel>)>,
    from: int,
    sc: ScopesModel,
    st: V::State,
)
    requires
        kept_by_reports::<V>(inv, sc.addresses),
        inv(st),
    ensures
        inv(walk_fields::<V>(named, ty, fs, from, sc, st).0),
    decreases fs, fs.len() - from,
{
    if 0 <= from < fs.len() {
        let s1 = match crate::algebra::field_of(ty, fs[from].0.value) {
            Some(f) => V::handled(st, sc, ItemModel::FieldInitialization(fs[from].0, f.1)),
            None => st,
        };
        kept_in_expr::<V>(inv, named, fs[from].1, sc, s1);
        let s2 = walk_expr::<V>(named, fs[from].1, sc, s1);
        if !V::done(s2) {
            kept_in_fields::<V>(inv, named, ty, fs, from + 1, sc, s2);
        }
    }
}

/// Binding imported members leaves the table of modules as it is.
proof fn bind_members_keeps_the_table(
    sc: ScopesModel,
    module: ScopeModel,
    members: Seq<(NameModel, Option<NameModel>)>,
    n: int,
)
    ensures
        bind_members(sc, module, members, n).addresses == sc.addresses,
    decreases n,
{
    if 0 < n <= members.len() {
        bind_members_keeps_the_table(sc, module, members, n - 1);
    }
}

proof fn kept_in_use<V: ScopeVisitor>(
    inv: spec_fn(V::State) -> bool,
    named: Named,
    u: UseModel,
    sc: ScopesModel,
    st: V::State,
)
    requires
        kept_by_reports::<V>(inv, sc.addresses),
        inv(st),
    ensures
        inv(walk_use::<V>(named, u, sc, st).1),
        walk_use::<V>(named, u, sc, st).0.addresses == sc.addresses,
{
    match u {
        UseModel::Members(module, members) => {
            match address_of(module.value.address.value, named) {
                Some(a) => bind_members_keeps_the_table(
                    sc,
                    module_at(sc.addresses, a, module.value.module.value),
                    members,
                    members.len() as int,
                ),
                None => {},
            }
        },
        _ => {},
    }
}

proof fn kept_in_uses<V: ScopeVisitor>(
    inv: spec_fn(V::State) -> bool,
    named: Named,
    us: Seq<UseModel>,
    from: int,
    sc: ScopesModel,
    st: V::State,
)
    requires
        kept_by_reports::<V>(inv, sc.addresses),
        inv(st),
    ensures
        inv(walk_uses::<V>(named, us, from, sc, st).state),
        walk_uses::<V>(named, us, from, sc, st).scopes.addresses == sc.addresses,
    decreases us.len() - from,
{
    if 0 <= from < us.len() {
        kept_in_use::<V>(inv, named, us[from], sc, st);
        let (sc1, s1) = walk_use::<V>(named, us[from], sc, st);
        if !V::done(s1) {
            kept_in_uses::<V>(inv, named, us, from + 1, sc1, s1);
        }
    }
}

proof fn kept_in_binds<V: ScopeVisitor>(
    inv: spec_fn(V::State) -> bool,
    bs: Seq<Spanned<BindModel>>,
    from: int,
    sc: ScopesModel,
    st: V::State,
)
    requires
        kept_by_reports::<V>(inv, sc.addresses),
        inv(st),
    ensures
        inv(walk_binds::<V>(bs, from, sc, st).1),
        walk_binds::<V>(bs, from, sc, st).0.addresses == sc.addresses,
    decreases bs.len() - from,
{
    if 0 <= from < bs.len() {
        let (sc1, s1) = walk_bind::<V>(bs[from], sc, st);
        if !V::done(s1) {
            kept_in_binds::<V>(inv, bs, from + 1, sc1, s1);
        }
    }
}

proof fn kept_in_item<V: ScopeVisitor>(
    inv: spec_fn(V::State) -> bool,
    named: Named,
    item: Spanned<SequenceItemModel>,
    sc: ScopesModel,
    st: V::State,
)
    requires
        kept_by_reports::<V>(inv, sc.addresses),
        inv(st),
    ensures
        inv(walk_item::<V>(named, item, sc, st).1),
        walk_item::<V>(named, item, sc, st).0.addresses == sc.addresses,
    decreases item, 0int,
{
    match item.value {
        SequenceItemModel::Expr(e) => kept_in_expr::<V>(inv, named, *e, sc, st),
        SequenceItemModel::Declare(list, _) => kept_in_binds::<V>(inv, list.value, 0, sc, st),
        SequenceItemModel::Bind(list, _, _) => kept_in_binds::<V>(inv, list.value, 0, sc, st),
    }
}

proof fn kept_in_items<V: ScopeVisitor>(
    inv: spec_fn(V::State) -> bool,
    named: Named,
    items: Seq<Spanned<SequenceItemModel>>,
    from: int,
    sc: ScopesModel,
    st: V::State,
)
    requires
        kept_by_reports::<V>(inv, sc.addresses),
        inv(st),
    ensures
        inv(walk_items::<V>(named, items, from, sc, st).state),
        walk_items::<V>(named, items, from, sc, st).scopes.addresses == sc.addresses,
    decreases items, items.len() - from,
{
    if 0 <= from < items.len() {
        kept_in_item::<V>(inv, named, items[from], sc, st);
        let (sc1, s1) = walk_item::<V>(named, items[from], sc, st);
        if !V::done(s1) {
            kept_in_items::<V>(inv, named, items, from + 1, sc1, s1);
        }
    }
}

proof fn kept_in_block_body<V: ScopeVisitor>(
    inv: spec_fn(V::State) -> bool,
    named: Named,
    b: SequenceModel,
    sc: ScopesModel,
    st: V::State,
)
    requires
        kept_by_reports::<V>(inv, sc.addresses),
        inv(st),
    ensures
        inv(walk_block_body::<V>(named, b, sc, st)),
    decreases b, 1int,
{
    kept_in_uses::<V>(inv, named, b.uses, 0, sc, st);
    let uses = walk_uses::<V>(named, b.uses, 0, sc, st);
    if !uses.stopped {
        kept_in_items::<V>(inv, named, b.items, 0, uses.scopes, uses.state);
        let items = walk_items::<V>(named, b.items, 0, uses.scopes, uses.state);
        if !items.stopped {
            match b.tail {
                Some(e) => kept_in_expr::<V>(inv, named, *e, items.scopes, items.state),
                None => {},
            }
        }
    }
}

proof fn kept_in_block<V: ScopeVisitor>(
    inv: spec_fn(V::State) -> bool,
    named: Named,
    b: SequenceModel,
    sc: ScopesModel,
    st: V::State,
)
    requires
        kept_by_reports::<V>(inv, sc.addresses),
        inv(st),
    ensures
        inv(walk_block::<V>(named, b, sc, st)),
    decreases b, 2int,
{
    kept_in_block_body::<V>(inv, named, b, sc.push(), st);
}

proof fn kept_in_type_parameters<V: ScopeVisitor>(
    inv: spec_fn(V::State) -> bool,
    ps: Seq<(NameModel, Seq<Ability>)>,
    from: int,
    sc: ScopesModel,
    st: V::State,
)
    requires
        kept_by_reports::<V>(inv, sc.addresses),
        inv(st),
    ensures
        inv(walk_type_parameters::<V>(ps, from, sc, st).state),
        walk_type_parameters::<V>(ps, from, sc, st).scopes.addresses == sc.addresses,
    decreases ps.len() - from,
{
    if 0 <= from < ps.len() {
        let item = ItemModel::TParam(ps[from].0, ps[from].1);
        let s1 = V::handled(st, sc, item);
        if !V::done(s1) {
            kept_in_type_parameters::<V>(inv, ps, from + 1, sc.bind(ps[from].0.value, item), s1);
        }
    }
}

proof fn kept_in_parameters<V: ScopeVisitor>(
    inv: spec_fn(V::State) -> bool,
    ps: Seq<(NameModel, Spanned<TypeModel>)>,
    from: int,
    sc: ScopesModel,
    st: V::State,
)
    requires
        kept_by_reports::<V>(inv, sc.addresses),
        inv(st),
    ensures
        inv(walk_parameters::<V>(ps, from, sc, st).state),
        walk_parameters::<V>(ps, from, sc, st).scopes.addresses == sc.addresses,
    decreases ps.len() - from,
{
    if 0 <= from < ps.len() {
        let s1 = V::handled(st, sc, ItemModel::ApplyType(ps[from].1));
        if !V::done(s1) {
            let item = ItemModel::Parameter(ps[from].0, crate::resolve::resolve(sc, ps[from].1));
            let s2 = V::handled(s1, sc, item);
            if !V::done(s2) {
                kept_in_parameters::<V>(inv, ps, from + 1, sc.bind(ps[from].0.value, item), s2);
            }
        }
    }
}

/// Every report of the walk over a function is made with the table of
/// modules that the walk started with: a property of the visitor's state
/// that survives every report made with that table holds after the walk.
pub proof fn every_report_sees_the_same_modules<V: ScopeVisitor>(
    inv: spec_fn(V::State) -> bool,
    named: Named,
    f: FunctionModel,
    sc: ScopesModel,
    st: V::State,
)
    requires
        kept_by_reports::<V>(inv, sc.addresses),
        inv(st),
    ensures
        inv(walk_function::<V>(named, f, sc, st)),
{
    kept_in_type_parameters::<V>(inv, f.signature.type_parameters, 0, sc.push(), st);
    let tps = walk_type_parameters::<V>(f.signature.type_parameters, 0, sc.push(), st);
    if !tps.stopped {
        kept_in_parameters::<V>(inv, f.signature.parameters, 0, tps.scopes, tps.state);
    }
    let sig = walk_signature::<V>(f.signature, sc.push(), st);
    if !V::done(sig.state) {
        match f.body.value {
            FunctionBodyModel::Native => {},
            FunctionBodyModel::Defined(b) => kept_in_block::<V>(
                inv,
                named,
                b,
                sig.scopes,
                sig.state,
            ),
        }
    }
}

proof fn kept_in_members<V: ScopeVisitor>(
    inv: spec_fn(V::State) -> bool,
    named: Named,
    members: Seq<ModuleMemberModel>,
    from: int,
    sc: ScopesModel,
    st: V::State,
)
    requires
        kept_by_reports::<V>(inv, sc.addresses),
        inv(st),
    ensures
        inv(walk_members::<V>(named, members, from, sc, st).0),
    decreases members.len() - from,
{
    if 0 <= from < members.len() {
        match members[from] {
            ModuleMemberModel::Function(f) => {
                every_report_sees_the_same_modules::<V>(inv, named, f, sc, st);
                let s1 = walk_function::<V>(named, f, sc, st);
                if !V::done(s1) {
                    kept_in_members::<V>(inv, named, members, from + 1, sc, s1);
                }
            },
            ModuleMemberModel::Struct(_) => {
                kept_in_members::<V>(inv, named, members, from + 1, sc, st);
            },
        }
    }
}

proof fn kept_in_modules<V: ScopeVisitor>(
    inv: spec_fn(V::State) -> bool,
    named: Named,
    ms: Seq<ModuleDefinitionModel>,
    from: int,
    sc: ScopesModel,
    st: V::State,
)
    requires
        kept_by_reports::<V>(inv, sc.addresses),
        inv(st),
    ensures
        inv(walk_modules::<V>(named, ms, from, sc, st).0),
    decreases ms.len() - from,
{
    if 0 <= from < ms.len() {
        kept_in_members::<V>(inv, named, ms[from].members, 0, sc, st);
        let (s1, stopped) = walk_module::<V>(named, ms[from], sc, st);
        if !stopped {
            kept_in_modules::<V>(inv, named, ms, from + 1, sc, s1);
        }
    }
}

proof fn kept_in_definition<V: ScopeVisitor>(
    inv: spec_fn(V::State) -> bool,
    named: Named,
    d: DefinitionModel,
    sc: ScopesModel,
    st: V::State,
)
    requires
        kept_by_reports::<V>(inv, sc.addresses),
        inv(st),
    ensures
        inv(walk_definition::<V>(named, d, sc, st).0),
{
    match d {
        DefinitionModel::Module(m) => kept_in_members::<V>(inv, named, m.members, 0, sc, st),
        DefinitionModel::Address(a) => kept_in_modules::<V>(inv, named, a.modules, 0, sc, st),
        DefinitionModel::Script(s) => every_report_sees_the_same_modules::<V>(
            inv,
            named,
            s.function,
            sc,
            st,
        ),
    }
}

proof fn kept_in_package<V: ScopeVisitor>(
    inv: spec_fn(V::State) -> bool,
    named: Named,
    p: IDEModule,
    from: int,
    sc: ScopesModel,
    st: V::State,
)
    requires
        kept_by_reports::<V>(inv, sc.addresses),
        inv(st),
    ensures
        inv(walk_package::<V>(named, p, from, sc, st).0),
    decreases p.files().len() - from,
{
    if 0 <= from < p.files().len() {
        let d = p.definitions()[p.files()[from]]@;
        kept_in_definition::<V>(inv, named, d, sc, st);
        let (s1, stopped) = walk_definition::<V>(named, d, sc, st);
        if !stopped {
            kept_in_package::<V>(inv, named, p, from + 1, sc, s1);
        }
    }
}

/// Every report of the second pass is made with the table of modules that
/// the pass started with.
pub proof fn every_report_of_a_pass_sees_the_same_modules<V: ScopeVisitor>(
    inv: spec_fn(V::State) -> bool,
    m: Modules,
    from: int,
    sc: ScopesModel,
    st: V::State,
)
    requires
        kept_by_reports::<V>(inv, sc.addresses),
        inv(st),
    ensures
        inv(walk_packages::<V>(m, from, sc, st).0),
    decreases m.manifests().len() - from,
{
    if 0 <= from < m.manifests().len() {
        let p = m.packages()[m.manifests()[from]];
        kept_in_package::<V>(inv, m.named(), p, 0, sc, st);
        let (s1, stopped) = walk_package::<V>(m.named(), p, 0, sc, st);
        if !stopped {
            every_report_of_a_pass_sees_the_same_modules::<V>(inv, m, from + 1, sc, s1);
        }
    }
}

/// The table of modules knows a struct: the module is known at the address
/// and binds the name to a struct.
pub open spec fn knows_struct(
    a: AddressesModel,
    address: NumericalAddress,
    module: Seq<char>,
    name: Seq<char>,
) -> bool {
    &&& modules_at(a, address).contains_key(module)
    &&& module_at(a, address, module).items.contains_key(name)
    &&& module_at(a, address, module).items[name] is Struct
}

/// A struct that the table of modules knows resolves by its full name: the
/// type that `address::module::name` denotes is a struct type, whatever the
/// frames are.
pub proof fn a_known_struct_resolves(
    sc: ScopesModel,
    named: Named,
    chain: Spanned<NameAccessChainModel>,
    address: NumericalAddress,
    module: Seq<char>,
    name: Seq<char>,
)
    requires
        knows_struct(sc.addresses, address, module, name),
        chain.value matches NameAccessChainModel::Three(pair, member) && address_of(
            pair.value.0.value,
            named,
        ) == Some(address) && pair.value.1.value == module && member.value == name,
    ensures
        chain_type(sc, named, chain).value is Struct,
{
}

/// A struct that the table knows stays known when a module becomes known.
proof fn with_module_keeps_structs(
    sc: ScopesModel,
    a: NumericalAddress,
    module: Seq<char>,
    ta: NumericalAddress,
    tm: Seq<char>,
    tn: Seq<char>,
)
    requires
        knows_struct(sc.addresses, ta, tm, tn),
    ensures
        knows_struct(sc.with_module(a, module).addresses, ta, tm, tn),
{
}

/// A struct that the table knows stays known when a struct is bound in a
/// module.
proof fn bind_top_keeps_structs(
    sc: ScopesModel,
    a: NumericalAddress,
    module: Seq<char>,
    name: Seq<char>,
    item: ItemModel,
    ta: NumericalAddress,
    tm: Seq<char>,
    tn: Seq<char>,
)
    requires
        knows_struct(sc.addresses, ta, tm, tn),
        item is Struct,
    ensures
        knows_struct(sc.bind_top(a, module, name, item).addresses, ta, tm, tn),
{
}

proof fn register_members_keeps_structs(
    sc: ScopesModel,
    a: NumericalAddress,
    module: Seq<char>,
    members: Seq<ModuleMemberModel>,
    n: int,
    ta: NumericalAddress,
    tm: Seq<char>,
    tn: Seq<char>,
)
    requires
        knows_struct(sc.addresses, ta, tm, tn),
    ensures
        knows_struct(register_members(sc, a, module, members, n).addresses, ta, tm, tn),
    decreases n,
{
    if 0 < n <= members.len() {
        register_members_keeps_structs(sc, a, module, members, n - 1, ta, tm, tn);
        let before = register_members(sc, a, module, members, n - 1);
        match members[n - 1] {
            ModuleMemberModel::Struct(d) => bind_top_keeps_structs(
                before,
                a,
                module,
                d.name.value,
                struct_item(before, d),
                ta,
                tm,
                tn,
            ),
            ModuleMemberModel::Function(_) => {},
        }
    }
}

/// The struct at position `k` of a module's members is known once the
/// first `n > k` members are.
proof fn register_members_adds_struct(
    sc: ScopesModel,
    a: NumericalAddress,
    module: Seq<char>,
    members: Seq<ModuleMemberModel>,
    n: int,
    k: int,
)
    requires
        0 <= k < n <= members.len(),
        members[k] is Struct,
    ensures
        knows_struct(
            register_members(sc, a, module, members, n).addresses,
            a,
            module,
            members[k]->Struct_0.name.value,
        ),
    decreases n,
{
    let before = register_members(sc, a, module, members, n - 1);
    if k < n - 1 {
        register_members_adds_struct(sc, a, module, members, n - 1, k);
        match members[n - 1] {
            ModuleMemberModel::Struct(d) => bind_top_keeps_structs(
                before,
                a,
                module,
                d.name.value,
                struct_item(before, d),
                a,
                module,
                members[k]->Struct_0.name.value,
            ),
            ModuleMemberModel::Function(_) => {},
        }
    }
}

/// The address at which a module becomes known: its own or, where it has
/// none, that of the block around it.
pub open spec fn module_address(
    named: Named,
    m: ModuleDefinitionModel,
    around: Option<NumericalAddress>,
) -> Option<NumericalAddress> {
    match m.address {
        Some(l) => address_of(l.value, named),
        None => around,
    }
}

/// A module declares a struct of the given name and becomes known at the
/// given address under the given name.
pub open spec fn module_declares(
    named: Named,
    m: ModuleDefinitionModel,
    around: Option<NumericalAddress>,
    address: NumericalAddress,
    module: Seq<char>,
    name: Seq<char>,
) -> bool {
    &&& module_address(named, m, around) == Some(address)
    &&& m.name.value == module
    &&& exists|k: int|
        0 <= k < m.members.len() && (#[trigger] m.members[k]) is Struct && m.members[k]->Struct_0.name.value
            == name
}

/// A file declares a struct of the given name in a module that becomes
/// known at the given address under the given name.
pub open spec fn definition_declares(
    named: Named,
    d: DefinitionModel,
    address: NumericalAddress,
    module: Seq<char>,
    name: Seq<char>,
) -> bool {
    match d {
        DefinitionModel::Module(m) => module_declares(named, m, None, address, module, name),
        DefinitionModel::Address(a) => exists|j: int|
            0 <= j < a.modules.len() && module_declares(
                named,
                #[trigger] a.modules[j],
                address_of(a.addr.value, named),
                address,
                module,
                name,
            ),
        DefinitionModel::Script(_) => false,
    }
}

/// What the file at position `f` of the package at position `p` declares.
pub open spec fn file_at(m: Modules, p: int, f: int) -> DefinitionModel {
    let package = m.packages()[m.manifests()[p]];
    package.definitions()[package.files()[f]]@
}

/// Some file of the repository declares the struct.
pub open spec fn declares(m: Modules, address: NumericalAddress, module: Seq<char>, name: Seq<char>) -> bool {
    exists|p: int, f: int|
        0 <= p < m.manifests().len() && 0 <= f < m.packages()[m.manifests()[p]].files().len()
            && definition_declares(m.named(), #[trigger] file_at(m, p, f), address, module, name)
}

proof fn register_module_keeps_structs(
    named: Named,
    sc: ScopesModel,
    m: ModuleDefinitionModel,
    around: Option<NumericalAddress>,
    ta: NumericalAddress,
    tm: Seq<char>,
    tn: Seq<char>,
)
    requires
        knows_struct(sc.addresses, ta, tm, tn),
    ensures
        knows_struct(register_module(named, sc, m, around).addresses, ta, tm, tn),
{
    match module_address(named, m, around) {
        Some(a) => {
            with_module_keeps_structs(sc, a, m.name.value, ta, tm, tn);
            register_members_keeps_structs(
                sc.with_module(a, m.name.value),
                a,
                m.name.value,
                m.members,
                m.members.len() as int,
                ta,
                tm,
                tn,
            );
        },
        None => {},
    }
}

proof fn register_module_adds_struct(
    named: Named,
    sc: ScopesModel,
    m: ModuleDefinitionModel,
    around: Option<NumericalAddress>,
    ta: NumericalAddress,
    tm: Seq<char>,
    tn: Seq<char>,
)
    requires
        module_declares(named, m, around, ta, tm, tn),
    ensures
        knows_struct(register_module(named, sc, m, around).addresses, ta, tm, tn),
{
    let k = choose|k: int|
        0 <= k < m.members.len() && (#[trigger] m.members[k]) is Struct && m.members[k]->Struct_0.name.value
            == tn;
    register_members_adds_struct(
        sc.with_module(ta, tm),
        ta,
        tm,
        m.members,
        m.members.len() as int,
        k,
    );
}

proof fn register_modules_keeps_structs(
    named: Named,
    sc: ScopesModel,
    ms: Seq<ModuleDefinitionModel>,
    around: Option<NumericalAddress>,
    n: int,
    ta: NumericalAddress,
    tm: Seq<char>,
    tn: Seq<char>,
)
    requires
        knows_struct(sc.addresses, ta, tm, tn),
    ensures
        knows_struct(register_modules(named, sc, ms, around, n).addresses, ta, tm, tn),
    decreases n,
{
    if 0 < n <= ms.len() {
        register_modules_keeps_structs(named, sc, ms, around, n - 1, ta, tm, tn);
        register_module_keeps_structs(
            named,
            register_modules(named, sc, ms, around, n - 1),
            ms[n - 1],
            around,
            ta,
            tm,
            tn,
        );
    }
}

proof fn register_modules_adds_struct(
    named: Named,
    sc: ScopesModel,
    ms: Seq<ModuleDefinitionModel>,
    around: Option<NumericalAddress>,
    n: int,
    j: int,
    ta: NumericalAddress,
    tm: Seq<char>,
    tn: Seq<char>,
)
    requires
        0 <= j < n <= ms.len(),
        module_declares(named, ms[j], around, ta, tm, tn),
    ensures
        knows_struct(register_modules(named, sc, ms, around, n).addresses, ta, tm, tn),
    decreases n,
{
    let before = register_modules(named, sc, ms, around, n - 1);
    if j < n - 1 {
        register_modules_adds_struct(named, sc, ms, around, n - 1, j, ta, tm, tn);
        register_module_keeps_structs(named, before, ms[n - 1], around, ta, tm, tn);
    } else {
        register_module_adds_struct(named, before, ms[n - 1], around, ta, tm, tn);
    }
}

proof fn register_definition_keeps_structs(
    named: Named,
    sc: ScopesModel,
    d: DefinitionModel,
    ta: NumericalAddress,
    tm: Seq<char>,
    tn: Seq<char>,
)
    requires
        knows_struct(sc.addresses, ta, tm, tn),
    ensures
        knows_struct(register_definition(named, sc, d).addresses, ta, tm, tn),
{
    match d {
        DefinitionModel::Module(m) => register_module_keeps_structs(named, sc, m, None, ta, tm, tn),
        DefinitionModel::Address(a) => register_modules_keeps_structs(
            named,
            sc,
            a.modules,
            address_of(a.addr.value, named),
            a.modules.len() as int,
            ta,
            tm,
            tn,
        ),
        DefinitionModel::Script(_) => {},
    }
}

proof fn register_definition_adds_struct(
    named: Named,
    sc: ScopesModel,
    d: DefinitionModel,
    ta: NumericalAddress,
    tm: Seq<char>,
    tn: Seq<char>,
)
    requires
        definition_declares(named, d, ta, tm, tn),
    ensures
        knows_struct(register_definition(named, sc, d).addresses, ta, tm, tn),
{
    match d {
        DefinitionModel::Module(m) => register_module_adds_struct(named, sc, m, None, ta, tm, tn),
        DefinitionModel::Address(a) => {
            let j = choose|j: int|
                0 <= j < a.modules.len() && module_declares(
                    named,
                    #[trigger] a.modules[j],
                    address_of(a.addr.value, named),
                    ta,
                    tm,
                    tn,
                );
            register_modules_adds_struct(
                named,
                sc,
                a.modules,
                address_of(a.addr.value, named),
                a.modules.len() as int,
                j,
                ta,
                tm,
                tn,
            );
        },
        DefinitionModel::Script(_) => {},
    }
}

proof fn register_package_keeps_structs(
    named: Named,
    sc: ScopesModel,
    p: IDEModule,
    n: int,
    ta: NumericalAddress,
    tm: Seq<char>,
    tn: Seq<char>,
)
    requires
        knows_struct(sc.addresses, ta, tm, tn),
    ensures
        knows_struct(register_package(named, sc, p, n).addresses, ta, tm, tn),
    decreases n,
{
    if 0 < n <= p.files().len() {
        register_package_keeps_structs(named, sc, p, n - 1, ta, tm, tn);
        register_definition_keeps_structs(
            named,
            register_package(named, sc, p, n - 1),
            p.definitions()[p.files()[n - 1]]@,
            ta,
            tm,
            tn,
        );
    }
}

proof fn register_package_adds_struct(
    named: Named,
    sc: ScopesModel,
    p: IDEModule,
    n: int,
    f: int,
    ta: NumericalAddress,
    tm: Seq<char>,
    tn: Seq<char>,
)
    requires
        0 <= f < n <= p.files().len(),
        definition_declares(named, p.definitions()[p.files()[f]]@, ta, tm, tn),
    ensures
        knows_struct(register_package(named, sc, p, n).addresses, ta, tm, tn),
    decreases n,
{
    let before = register_package(named, sc, p, n - 1);
    let d = p.definitions()[p.files()[n - 1]]@;
    if f < n - 1 {
        register_package_adds_struct(named, sc, p, n - 1, f, ta, tm, tn);
        register_definition_keeps_structs(named, before, d, ta, tm, tn);
    } else {
        register_definition_adds_struct(named, before, d, ta, tm, tn);
    }
}

proof fn register_packages_keeps_structs(
    m: Modules,
    sc: ScopesModel,
    n: int,
    ta: NumericalAddress,
    tm: Seq<char>,
    tn: Seq<char>,
)
    requires
        knows_struct(sc.addresses, ta, tm, tn),
    ensures
        knows_struct(register_packages(m, sc, n).addresses, ta, tm, tn),
    decreases n,
{
    if 0 < n <= m.manifests().len() {
        register_packages_keeps_structs(m, sc, n - 1, ta, tm, tn);
        let p = m.packages()[m.manifests()[n - 1]];
        register_package_keeps_structs(
            m.named(),
            register_packages(m, sc, n - 1),
            p,
            p.files().len() as int,
            ta,
            tm,
            tn,
        );
    }
}

proof fn register_packages_adds_struct(
    m: Modules,
    sc: ScopesModel,
    n: int,
    p: int,
    f: int,
    ta: NumericalAddress,
    tm: Seq<char>,
    tn: Seq<char>,
)
    requires
        0 <= p < n <= m.manifests().len(),
        0 <= f < m.packages()[m.manifests()[p]].files().len(),
        definition_declares(m.named(), file_at(m, p, f), ta, tm, tn),
    ensures
        knows_struct(register_packages(m, sc, n).addresses, ta, tm, tn),
    decreases n,
{
    let before = register_packages(m, sc, n - 1);
    let last = m.packages()[m.manifests()[n - 1]];
    if p < n - 1 {
        register_packages_adds_struct(m, sc, n - 1, p, f, ta, tm, tn);
        register_package_keeps_structs(
            m.named(),
            before,
            last,
            last.files().len() as int,
            ta,
            tm,
            tn,
        );
    } else {
        register_package_adds_struct(
            m.named(),
            before,
            last,
            last.files().len() as int,
            f,
            ta,
            tm,
            tn,
        );
    }
}

/// After the first pass the table of modules knows every struct that a file
/// of the repository declares, wherever in the repository that file stands
/// and whatever the scopes were before.
pub proof fn the_first_pass_makes_every_struct_known(
    m: Modules,
    sc: ScopesModel,
    address: NumericalAddress,
    module: Seq<char>,
    name: Seq<char>,
)
    requires
        declares(m, address, module, name),
    ensures
        knows_struct(registered_from(m, sc).addresses, address, module, name),
{
    let (p, f) = choose|p: int, f: int|
        0 <= p < m.manifests().len() && 0 <= f < m.packages()[m.manifests()[p]].files().len()
            && definition_declares(m.named(), #[trigger] file_at(m, p, f), address, module, name);
    register_packages_adds_struct(
        m,
        sc,
        m.manifests().len() as int,
        p,
        f,
        address,
        module,
        name,
    );
}

/// A struct that some file of the repository declares is known at every
/// report of a run, whichever file is walked: a property of the visitor's
/// state that survives every report at which the struct is known holds
/// after the run.
pub proof fn a_declared_struct_is_known_at_every_report<V: ScopeVisitor>(
    inv: spec_fn(V::State) -> bool,
    m: Modules,
    st: V::State,
    address: NumericalAddress,
    module: Seq<char>,
    name: Seq<char>,
)
    requires
        declares(m, address, module, name),
        inv(st),
        forall|s: V::State, sc: ScopesModel, i: ItemModel|
            inv(s) && knows_struct(sc.addresses, address, module, name) ==> inv(
                #[trigger] V::handled(s, sc, i),
            ),
    ensures
        inv(run::<V>(m, st)),
{
    the_first_pass_makes_every_struct_known(m, fresh(), address, module, name);
    every_report_of_a_pass_sees_the_same_modules::<V>(inv, m, 0, registered(m), st);
}

} // verus!
