//! What holds of every walk, whatever the function and the visitor.
use crate::collect::{Collected, Collector};
use crate::driver::{
    registered, run, walk_definition, walk_members, walk_module, walk_modules, walk_package,
    walk_packages,
};
use crate::item::ItemModel;
use crate::modules::{IDEModule, Modules};
use crate::scopes::ScopesModel;
use crate::syntax::{
    Ability, BindModel, DefinitionModel, ExpModel, FunctionBodyModel, FunctionModel,
    ModuleDefinitionModel, ModuleMemberModel, NameModel, SequenceItemModel, SequenceModel, Spanned,
    TypeModel, UseModel,
};
use crate::visitor::{
    walk_bind, walk_binds, walk_block, walk_block_body, walk_expr, walk_exprs, walk_function,
    walk_item, walk_items, walk_opt_types, walk_parameters, walk_signature, walk_type_parameters,
    walk_types, walk_uses, Named, ScopeVisitor,
};
use vstd::prelude::*;

verus! {

/// In the given state the visitor is finished as soon as it is told of
/// anything.
pub open spec fn stops_after_a_report<V: ScopeVisitor>(st: V::State) -> bool {
    forall|sc: ScopesModel, i: ItemModel| V::done(#[trigger] V::handled(st, sc, i))
}

/// Between the two states the visitor was told of nothing, or of one node.
pub open spec fn at_most_one_report<V: ScopeVisitor>(before: V::State, after: V::State) -> bool {
    after == before || exists|sc: ScopesModel, i: ItemModel| after == V::handled(before, sc, i)
}

proof fn one_report_in_types<V: ScopeVisitor>(
    ts: Seq<Spanned<TypeModel>>,
    from: int,
    sc: ScopesModel,
    st: V::State,
)
    requires
        stops_after_a_report::<V>(st),
        !V::done(st),
    ensures
        at_most_one_report::<V>(st, walk_types::<V>(ts, from, sc, st).0),
        !walk_types::<V>(ts, from, sc, st).1 ==> walk_types::<V>(ts, from, sc, st).0 == st,
    decreases ts.len() - from,
{
}

proof fn one_report_in_expr<V: ScopeVisitor>(
    named: Named,
    e: Spanned<ExpModel>,
    sc: ScopesModel,
    st: V::State,
)
    requires
        stops_after_a_report::<V>(st),
        !V::done(st),
    ensures
        at_most_one_report::<V>(st, walk_expr::<V>(named, e, sc, st)),
    decreases e, 0int,
{
    match e.value {
        ExpModel::Call(chain, is_macro, types, exprs) => {},
        ExpModel::Pack(chain, types, fields) => {},
        ExpModel::Vector(_, types, exprs) => {
            match types {
                Some(ts) => one_report_in_types::<V>(ts, 0, sc, st),
                None => {},
            }
            if !walk_opt_types::<V>(types, sc, st).1 {
                one_report_in_exprs::<V>(named, exprs.value, 0, sc, st);
            }
        },
        ExpModel::IfElse(condition, then, else_) => {
            one_report_in_expr::<V>(named, *condition, sc, st);
            if !V::done(walk_expr::<V>(named, *condition, sc, st)) {
                one_report_in_expr::<V>(named, *then, sc, st);
                if !V::done(walk_expr::<V>(named, *then, sc, st)) {
                    match else_ {
                        Some(x) => one_report_in_expr::<V>(named, *x, sc, st),
                        None => {},
                    }
                }
            }
        },
        ExpModel::While(condition, body) => {
            one_report_in_expr::<V>(named, *condition, sc, st);
            if !V::done(walk_expr::<V>(named, *condition, sc, st)) {
                one_report_in_expr::<V>(named, *body, sc, st);
            }
        },
        ExpModel::Loop(body) => one_report_in_expr::<V>(named, *body, sc, st),
        ExpModel::Block(b) => one_report_in_block::<V>(named, b, sc, st),
        ExpModel::ExpList(list) => one_report_in_exprs::<V>(named, list, 0, sc, st),
        ExpModel::Assign(left, right) => {
            one_report_in_expr::<V>(named, *left, sc, st);
            if !V::done(walk_expr::<V>(named, *left, sc, st)) {
                one_report_in_expr::<V>(named, *right, sc, st);
            }
        },
        ExpModel::Return(x) => match x {
            Some(x) => one_report_in_expr::<V>(named, *x, sc, st),
            None => {},
        },
        ExpModel::Abort(x) => one_report_in_expr::<V>(named, *x, sc, st),
        ExpModel::Dereference(x) => one_report_in_expr::<V>(named, *x, sc, st),
        ExpModel::UnaryExp(_, x) => one_report_in_expr::<V>(named, *x, sc, st),
        ExpModel::BinopExp(left, _, right) => {
            one_report_in_expr::<V>(named, *left, sc, st);
            if !V::done(walk_expr::<V>(named, *left, sc, st)) {
                one_report_in_expr::<V>(named, *right, sc, st);
            }
        },
        ExpModel::Borrow(_, x) => one_report_in_expr::<V>(named, *x, sc, st),
        ExpModel::Dot(x, _) => one_report_in_expr::<V>(named, *x, sc, st),
        ExpModel::Cast(x, _) => one_report_in_expr::<V>(named, *x, sc, st),
        ExpModel::Annotate(x, _) => one_report_in_expr::<V>(named, *x, sc, st),
        _ => {},
    }
}

proof fn one_report_in_exprs<V: ScopeVisitor>(
    named: Named,
    es: Seq<Spanned<ExpModel>>,
    from: int,
    sc: ScopesModel,
    st: V::State,
)
    requires
        stops_after_a_report::<V>(st),
        !V::done(st),
    ensures
        at_most_one_report::<V>(st, walk_exprs::<V>(named, es, from, sc, st).0),
    decreases es, es.len() - from,
{
    if 0 <= from < es.len() {
        one_report_in_expr::<V>(named, es[from], sc, st);
        if !V::done(walk_expr::<V>(named, es[from], sc, st)) {
            one_report_in_exprs::<V>(named, es, from + 1, sc, st);
        }
    }
}

proof fn one_report_in_uses<V: ScopeVisitor>(
    named: Named,
    us: Seq<UseModel>,
    from: int,
    sc: ScopesModel,
    st: V::State,
)
    requires
        stops_after_a_report::<V>(st),
        !V::done(st),
    ensures
        at_most_one_report::<V>(st, walk_uses::<V>(named, us, from, sc, st).state),
        !walk_uses::<V>(named, us, from, sc, st).stopped ==> walk_uses::<V>(
            named,
            us,
            from,
            sc,
            st,
        ).state == st,
    decreases us.len() - from,
{
}

proof fn one_report_in_binds<V: ScopeVisitor>(
    bs: Seq<Spanned<BindModel>>,
    from: int,
    sc: ScopesModel,
    st: V::State,
)
    requires
        stops_after_a_report::<V>(st),
        !V::done(st),
    ensures
        at_most_one_report::<V>(st, walk_binds::<V>(bs, from, sc, st).1),
    decreases bs.len() - from,
{
    if 0 <= from < bs.len() {
        let (sc1, s1) = walk_bind::<V>(bs[from], sc, st);
        if !V::done(s1) {
            one_report_in_binds::<V>(bs, from + 1, sc1, st);
        }
    }
}

proof fn one_report_in_item<V: ScopeVisitor>(
    named: Named,
    item: Spanned<SequenceItemModel>,
    sc: ScopesModel,
    st: V::State,
)
    requires
        stops_after_a_report::<V>(st),
        !V::done(st),
    ensures
        at_most_one_report::<V>(st, walk_item::<V>(named, item, sc, st).1),
    decreases item, 0int,
{
    match item.value {
        SequenceItemModel::Expr(e) => one_report_in_expr::<V>(named, *e, sc, st),
        SequenceItemModel::Declare(list, _) => one_report_in_binds::<V>(list.value, 0, sc, st),
        SequenceItemModel::Bind(list, _, _) => one_report_in_binds::<V>(list.value, 0, sc, st),
    }
}

proof fn one_report_in_items<V: ScopeVisitor>(
    named: Named,
    items: Seq<Spanned<SequenceItemModel>>,
    from: int,
    sc: ScopesModel,
    st: V::State,
)
    requires
        stops_after_a_report::<V>(st),
        !V::done(st),
    ensures
        at_most_one_report::<V>(st, walk_items::<V>(named, items, from, sc, st).state),
        !walk_items::<V>(named, items, from, sc, st).stopped ==> walk_items::<V>(
            named,
            items,
            from,
            sc,
            st,
        ).state == st,
    decreases items, items.len() - from,
{
    if 0 <= from < items.len() {
        one_report_in_item::<V>(named, items[from], sc, st);
        let (sc1, s1) = walk_item::<V>(named, items[from], sc, st);
        if !V::done(s1) {
            one_report_in_items::<V>(named, items, from + 1, sc1, st);
        }
    }
}

proof fn one_report_in_block_body<V: ScopeVisitor>(
    named: Named,
    b: SequenceModel,
    sc: ScopesModel,
    st: V::State,
)
    requires
        stops_after_a_report::<V>(st),
        !V::done(st),
    ensures
        at_most_one_report::<V>(st, walk_block_body::<V>(named, b, sc, st)),
    decreases b, 1int,
{
    one_report_in_uses::<V>(named, b.uses, 0, sc, st);
    let uses = walk_uses::<V>(named, b.uses, 0, sc, st);
    if !uses.stopped {
        one_report_in_items::<V>(named, b.items, 0, uses.scopes, st);
        let items = walk_items::<V>(named, b.items, 0, uses.scopes, st);
        if !items.stopped {
            match b.tail {
                Some(e) => one_report_in_expr::<V>(named, *e, items.scopes, st),
                None => {},
            }
        }
    }
}

proof fn one_report_in_block<V: ScopeVisitor>(
    named: Named,
    b: SequenceModel,
    sc: ScopesModel,
    st: V::State,
)
    requires
        stops_after_a_report::<V>(st),
        !V::done(st),
    ensures
        at_most_one_report::<V>(st, walk_block::<V>(named, b, sc, st)),
    decreases b, 2int,
{
    one_report_in_block_body::<V>(named, b, sc.push(), st);
}

proof fn one_report_in_type_parameters<V: ScopeVisitor>(
    ps: Seq<(NameModel, Seq<Ability>)>,
    from: int,
    sc: ScopesModel,
    st: V::State,
)
    requires
        stops_after_a_report::<V>(st),
        !V::done(st),
    ensures
        at_most_one_report::<V>(st, walk_type_parameters::<V>(ps, from, sc, st).state),
        !walk_type_parameters::<V>(ps, from, sc, st).stopped ==> walk_type_parameters::<V>(
            ps,
            from,
            sc,
            st,
        ).state == st,
    decreases ps.len() - from,
{
}

proof fn one_report_in_parameters<V: ScopeVisitor>(
    ps: Seq<(NameModel, Spanned<TypeModel>)>,
    from: int,
    sc: ScopesModel,
    st: V::State,
)
    requires
        stops_after_a_report::<V>(st),
        !V::done(st),
    ensures
        at_most_one_report::<V>(st, walk_parameters::<V>(ps, from, sc, st).state),
    decreases ps.len() - from,
{
}

/// A visitor that is not finished, and will be as soon as it is told of
/// anything, is told of at most one node by the walk over a function,
/// however deep in the function that node lies.
pub proof fn a_visitor_that_stops_is_told_once<V: ScopeVisitor>(
    named: Named,
    f: FunctionModel,
    sc: ScopesModel,
    st: V::State,
)
    requires
        stops_after_a_report::<V>(st),
        !V::done(st),
    ensures
        at_most_one_report::<V>(st, walk_function::<V>(named, f, sc, st)),
{
    one_report_in_type_parameters::<V>(f.signature.type_parameters, 0, sc.push(), st);
    let tps = walk_type_parameters::<V>(f.signature.type_parameters, 0, sc.push(), st);
    if !tps.stopped {
        one_report_in_parameters::<V>(f.signature.parameters, 0, tps.scopes, st);
    }
    let sig = walk_signature::<V>(f.signature, sc.push(), st);
    if !V::done(sig.state) {
        match f.body.value {
            FunctionBodyModel::Native => {},
            FunctionBodyModel::Defined(b) => one_report_in_block::<V>(named, b, sig.scopes, st),
        }
    }
}

proof fn one_report_in_members<V: ScopeVisitor>(
    named: Named,
    members: Seq<ModuleMemberModel>,
    from: int,
    sc: ScopesModel,
    st: V::State,
)
    requires
        stops_after_a_report::<V>(st),
        !V::done(st),
    ensures
        at_most_one_report::<V>(st, walk_members::<V>(named, members, from, sc, st).0),
        !walk_members::<V>(named, members, from, sc, st).1 ==> walk_members::<V>(
            named,
            members,
            from,
            sc,
            st,
        ).0 == st,
    decreases members.len() - from,
{
    if 0 <= from < members.len() {
        match members[from] {
            ModuleMemberModel::Function(f) => {
                a_visitor_that_stops_is_told_once::<V>(named, f, sc, st);
                if !V::done(walk_function::<V>(named, f, sc, st)) {
                    one_report_in_members::<V>(named, members, from + 1, sc, st);
                }
            },
            ModuleMemberModel::Struct(_) => {
                one_report_in_members::<V>(named, members, from + 1, sc, st);
            },
        }
    }
}

proof fn one_report_in_modules<V: ScopeVisitor>(
    named: Named,
    ms: Seq<ModuleDefinitionModel>,
    from: int,
    sc: ScopesModel,
    st: V::State,
)
    requires
        stops_after_a_report::<V>(st),
        !V::done(st),
    ensures
        at_most_one_report::<V>(st, walk_modules::<V>(named, ms, from, sc, st).0),
        !walk_modules::<V>(named, ms, from, sc, st).1 ==> walk_modules::<V>(
            named,
            ms,
            from,
            sc,
            st,
        ).0 == st,
    decreases ms.len() - from,
{
    if 0 <= from < ms.len() {
        one_report_in_members::<V>(named, ms[from].members, 0, sc, st);
        if !walk_module::<V>(named, ms[from], sc, st).1 {
            one_report_in_modules::<V>(named, ms, from + 1, sc, st);
        }
    }
}

proof fn one_report_in_definition<V: ScopeVisitor>(
    named: Named,
    d: DefinitionModel,
    sc: ScopesModel,
    st: V::State,
)
    requires
        stops_after_a_report::<V>(st),
        !V::done(st),
    ensures
        at_most_one_report::<V>(st, walk_definition::<V>(named, d, sc, st).0),
        !walk_definition::<V>(named, d, sc, st).1 ==> walk_definition::<V>(named, d, sc, st).0
            == st,
{
    match d {
        DefinitionModel::Module(m) => one_report_in_members::<V>(named, m.members, 0, sc, st),
        DefinitionModel::Address(a) => one_report_in_modules::<V>(named, a.modules, 0, sc, st),
        DefinitionModel::Script(s) => a_visitor_that_stops_is_told_once::<V>(
            named,
            s.function,
            sc,
            st,
        ),
    }
}

proof fn one_report_in_package<V: ScopeVisitor>(
    named: Named,
    p: IDEModule,
    from: int,
    sc: ScopesModel,
    st: V::State,
)
    requires
        stops_after_a_report::<V>(st),
        !V::done(st),
    ensures
        at_most_one_report::<V>(st, walk_package::<V>(named, p, from, sc, st).0),
        !walk_package::<V>(named, p, from, sc, st).1 ==> walk_package::<V>(named, p, from, sc, st).0
            == st,
    decreases p.files().len() - from,
{
    if 0 <= from < p.files().len() {
        one_report_in_definition::<V>(named, p.definitions()[p.files()[from]]@, sc, st);
        if !walk_definition::<V>(named, p.definitions()[p.files()[from]]@, sc, st).1 {
            one_report_in_package::<V>(named, p, from + 1, sc, st);
        }
    }
}

proof fn one_report_in_packages<V: ScopeVisitor>(m: Modules, from: int, sc: ScopesModel, st: V::State)
    requires
        stops_after_a_report::<V>(st),
        !V::done(st),
    ensures
        at_most_one_report::<V>(st, walk_packages::<V>(m, from, sc, st).0),
    decreases m.manifests().len() - from,
{
    if 0 <= from < m.manifests().len() {
        one_report_in_package::<V>(m.named(), m.packages()[m.manifests()[from]], 0, sc, st);
        if !walk_package::<V>(m.named(), m.packages()[m.manifests()[from]], 0, sc, st).1 {
            one_report_in_packages::<V>(m, from + 1, sc, st);
        }
    }
}

/// A visitor that is not finished, and will be as soon as it is told of
/// anything, is told of at most one node by a run over a whole repository.
pub proof fn a_visitor_that_stops_is_told_once_in_a_run<V: ScopeVisitor>(m: Modules, st: V::State)
    requires
        stops_after_a_report::<V>(st),
        !V::done(st),
    ensures
        at_most_one_report::<V>(st, run::<V>(m, st)),
{
    one_report_in_packages::<V>(m, 0, registered(m), st);
}

/// A collector with the limit one holds at most one item after the walk
/// over a function.
pub proof fn a_collector_of_one_holds_at_most_one(named: Named, f: FunctionModel, sc: ScopesModel)
    ensures
        walk_function::<Collector>(
            named,
            f,
            sc,
            Collected { seen: Seq::empty(), limit: Some(1) },
        ).seen.len() <= 1,
{
    let st = Collected { seen: Seq::empty(), limit: Some(1) };
    a_visitor_that_stops_is_told_once::<Collector>(named, f, sc, st);
}

} // verus!
