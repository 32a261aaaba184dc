//! The walk itself: the functions that go through a function's header and
//! body, report to the visitor and keep the scopes.
//!
//! Every function that enters a scope leaves it again before it returns, so
//! the stack of scopes is the same before and after a walk over a function,
//! a block or an expression, whether or not the visitor stopped the walk.
use crate::item::{get_name_from_value, Item, ItemModel, MacroCall};
use crate::modules::Modules;
use crate::scopes::{address_of, module_at, modules_at, Scopes, ScopesModel};
use crate::syntax::{
    bind_list_view, bind_view_unfolds, clone_abilities, clone_chain, clone_module_ident, clone_name,
    clone_type, exp_view_unfolds, item_view_unfolds, member_view, opt_views, sequence_view_unfolds,
    views, Bind, BindList, Bind_, Exp, Exp_, Field, Function, FunctionBody_, FunctionSignature,
    LeadingNameAccess_, Name, NumericalAddress, Sequence, SequenceItem, SequenceItem_, Type, Use,
    UseDecl,
};
use crate::types::ResolvedType;
use crate::visitor::{
    bind_members, report_types, walk_bind, walk_binds, walk_block, walk_block_body, walk_expr,
    walk_exprs, walk_fields, walk_function, walk_item, walk_items, walk_opt_types, walk_parameters,
    walk_signature, walk_type_parameters, walk_types, walk_use, walk_uses, ScopeVisitor, Walk,
};
use vstd::prelude::*;

verus! {

/// Two stacks differ at most in their top frame.
pub open spec fn same_but_top(a: ScopesModel, b: ScopesModel) -> bool {
    &&& a.addresses == b.addresses
    &&& a.frames.len() == b.frames.len()
    &&& a.frames.len() >= 1
    &&& a.frames.drop_last() == b.frames.drop_last()
}

/// A binding changes the top frame only.
pub proof fn bind_keeps_the_rest(sc: ScopesModel, name: Seq<char>, item: ItemModel)
    requires
        sc.frames.len() >= 1,
    ensures
        same_but_top(sc.bind(name, item), sc),
{
    assert(sc.bind(name, item).frames.drop_last() =~= sc.frames.drop_last());
}

/// What was entered is gone once it is left.
pub proof fn push_then_pop(sc: ScopesModel, inner: ScopesModel)
    requires
        same_but_top(inner, sc.push()),
    ensures
        inner.pop() == sc,
{
    assert(sc.push().frames.drop_last() =~= sc.frames);
}

impl Modules {
    /// The number of the address that a qualified name starts with.
    pub fn lead_address(&self, lead: &LeadingNameAccess_) -> (r: Option<NumericalAddress>)
        requires
            self.wf(),
        ensures
            r == address_of(lead@, self.named()),
    {
        match lead {
            LeadingNameAccess_::AnonymousAddress(x) => Some(*x),
            LeadingNameAccess_::Name(name) => match self.named_to_addresses.get(&name.value) {
                Some(a) => Some(*a),
                None => None,
            },
        }
    }

    /// Reports a place where a type is written.
    pub fn visit_type_apply<V: ScopeVisitor>(&self, ty: &Type, scopes: &Scopes, visitor: &mut V)
        requires
            scopes.wf(),
        ensures
            final(visitor).state() == V::handled(
                old(visitor).state(),
                scopes@,
                ItemModel::ApplyType(ty@),
            ),
    {
        let item = Item::ApplyType(clone_type(ty));
        visitor.handle_item(scopes, &item);
    }

    /// Reports each type of a list, without asking in between.
    fn report_types<V: ScopeVisitor>(&self, types: &Vec<Type>, scopes: &Scopes, visitor: &mut V)
        requires
            scopes.wf(),
        ensures
            final(visitor).state() == report_types::<V>(
                views(types@),
                0,
                scopes@,
                old(visitor).state(),
            ),
    {
        let mut i: usize = 0;
        while i < types.len()
            invariant
                i <= types.len(),
                scopes.wf(),
                report_types::<V>(views(types@), 0, scopes@, old(visitor).state())
                    == report_types::<V>(views(types@), i as int, scopes@, visitor.state()),
            decreases types.len() - i,
        {
            self.visit_type_apply(&types[i], scopes, visitor);
            i += 1;
        }
    }

    /// Reports each type of a list and asks after each. The result says
    /// whether the visitor stopped the walk.
    fn visit_types<V: ScopeVisitor>(&self, types: &Vec<Type>, scopes: &Scopes, visitor: &mut V) -> (stopped:
        bool)
        requires
            scopes.wf(),
        ensures
            (final(visitor).state(), stopped) == walk_types::<V>(
                views(types@),
                0,
                scopes@,
                old(visitor).state(),
            ),
    {
        let mut i: usize = 0;
        while i < types.len()
            invariant
                i <= types.len(),
                scopes.wf(),
                walk_types::<V>(views(types@), 0, scopes@, old(visitor).state()) == walk_types::<V>(
                    views(types@),
                    i as int,
                    scopes@,
                    visitor.state(),
                ),
            decreases types.len() - i,
        {
            self.visit_type_apply(&types[i], scopes, visitor);
            if visitor.finished() {
                return true;
            }
            i += 1;
        }
        false
    }

    /// Walks the types of an optional list.
    fn visit_opt_types<V: ScopeVisitor>(
        &self,
        types: &Option<Vec<Type>>,
        scopes: &Scopes,
        visitor: &mut V,
    ) -> (stopped: bool)
        requires
            scopes.wf(),
        ensures
            (final(visitor).state(), stopped) == walk_opt_types::<V>(
                opt_views(*types),
                scopes@,
                old(visitor).state(),
            ),
    {
        match types {
            Some(ts) => self.visit_types(ts, scopes, visitor),
            None => false,
        }
    }

    /// Walks each expression of a list and asks after each. The result says
    /// whether the visitor stopped the walk.
    fn visit_exprs<V: ScopeVisitor>(&self, es: &Vec<Exp>, scopes: &mut Scopes, visitor: &mut V) -> (stopped:
        bool)
        requires
            self.wf(),
            old(scopes).wf(),
        ensures
            final(scopes).wf(),
            final(scopes)@ == old(scopes)@,
            (final(visitor).state(), stopped) == walk_exprs::<V>(
                self.named(),
                views(es@),
                0,
                old(scopes)@,
                old(visitor).state(),
            ),
        decreases es,
    {
        let mut i: usize = 0;
        while i < es.len()
            invariant
                i <= es.len(),
                self.wf(),
                scopes.wf(),
                scopes@ == old(scopes)@,
                walk_exprs::<V>(self.named(), views(es@), 0, old(scopes)@, old(visitor).state())
                    == walk_exprs::<V>(
                    self.named(),
                    views(es@),
                    i as int,
                    scopes@,
                    visitor.state(),
                ),
            decreases es.len() - i,
        {
            self.visit_expr(&es[i], scopes, visitor);
            if visitor.finished() {
                return true;
            }
            i += 1;
        }
        false
    }

    /// For each field of a struct literal: reports the field, if the struct
    /// type has it, walks its value, and asks.
    fn visit_fields<V: ScopeVisitor>(
        &self,
        ty: &ResolvedType,
        fields: &Vec<(Field, Exp)>,
        scopes: &mut Scopes,
        visitor: &mut V,
    ) -> (stopped: bool)
        requires
            self.wf(),
            old(scopes).wf(),
        ensures
            final(scopes).wf(),
            final(scopes)@ == old(scopes)@,
            (final(visitor).state(), stopped) == walk_fields::<V>(
                self.named(),
                ty@,
                views(fields@),
                0,
                old(scopes)@,
                old(visitor).state(),
            ),
        decreases fields,
    {
        let mut i: usize = 0;
        while i < fields.len()
            invariant
                i <= fields.len(),
                self.wf(),
                scopes.wf(),
                scopes@ == old(scopes)@,
                walk_fields::<V>(
                    self.named(),
                    ty@,
                    views(fields@),
                    0,
                    old(scopes)@,
                    old(visitor).state(),
                ) == walk_fields::<V>(
                    self.named(),
                    ty@,
                    views(fields@),
                    i as int,
                    scopes@,
                    visitor.state(),
                ),
            decreases fields.len() - i,
        {
            match ty.find_filed_by_name(&fields[i].0.value) {
                Some(field_type) => {
                    let item = Item::FieldInitialization(
                        clone_name(&fields[i].0),
                        field_type.1.clone(),
                    );
                    visitor.handle_item(scopes, &item);
                },
                None => {},
            }
            self.visit_expr(&fields[i].1, scopes, visitor);
            if visitor.finished() {
                return true;
            }
            i += 1;
        }
        false
    }

    /// Walks an expression.
    pub fn visit_expr<V: ScopeVisitor>(&self, exp: &Exp, scopes: &mut Scopes, visitor: &mut V)
        requires
            self.wf(),
            old(scopes).wf(),
        ensures
            final(scopes).wf(),
            final(scopes)@ == old(scopes)@,
            final(visitor).state() == walk_expr::<V>(
                self.named(),
                exp@,
                old(scopes)@,
                old(visitor).state(),
            ),
        decreases exp,
    {
        proof {
            exp_view_unfolds(exp.value);
        }
        match &exp.value {
            Exp_::Value(v) => {
                match get_name_from_value(v) {
                    Some(name) => {
                        let item = Item::ExprAddressName(clone_name(name));
                        visitor.handle_item(scopes, &item);
                    },
                    None => {},
                }
            },
            Exp_::Move(var) => {
                let item = Item::ExprVar(clone_name(var));
                visitor.handle_item(scopes, &item);
            },
            Exp_::Copy(var) => {
                let item = Item::ExprVar(clone_name(var));
                visitor.handle_item(scopes, &item);
            },
            Exp_::Name(chain, _) => {
                let item = Item::NameAccessChain(clone_chain(chain));
                visitor.handle_item(scopes, &item);
            },
            Exp_::Call(chain, is_macro, types, exprs) => {
                let item = if *is_macro && MacroCall::is_macro_chain(chain) {
                    Item::MacroCall(MacroCall::from_chain(chain))
                } else {
                    Item::NameAccessChain(clone_chain(chain))
                };
                visitor.handle_item(scopes, &item);
                if visitor.finished() {
                    return ;
                }
                match types {
                    Some(ts) => {
                        self.report_types(ts, scopes, visitor);
                    },
                    None => {},
                }
                self.visit_exprs(&exprs.value, scopes, visitor);
            },
            Exp_::Pack(leading, types, fields) => {
                let ty = self.get_expr_type(exp, scopes);
                let item = Item::NameAccessChain(clone_chain(leading));
                visitor.handle_item(scopes, &item);
                if visitor.finished() {
                    return ;
                }
                if self.visit_opt_types(types, scopes, visitor) {
                    return ;
                }
                self.visit_fields(&ty, fields, scopes, visitor);
            },
            Exp_::Vector(_, ty, exprs) => {
                if self.visit_opt_types(ty, scopes, visitor) {
                    return ;
                }
                self.visit_exprs(&exprs.value, scopes, visitor);
            },
            Exp_::IfElse(condition, then_, else_) => {
                self.visit_expr(condition, scopes, visitor);
                if visitor.finished() {
                    return ;
                }
                self.visit_expr(then_, scopes, visitor);
                if visitor.finished() {
                    return ;
                }
                match else_ {
                    Some(x) => {
                        self.visit_expr(x, scopes, visitor);
                    },
                    None => {},
                }
            },
            Exp_::While(condition, body) => {
                self.visit_expr(condition, scopes, visitor);
                if visitor.finished() {
                    return ;
                }
                self.visit_expr(body, scopes, visitor);
            },
            Exp_::Loop(e) => {
                self.visit_expr(e, scopes, visitor);
            },
            Exp_::Block(b) => {
                self.visit_block(b, scopes, visitor);
            },
            Exp_::Lambda(_) => {},
            Exp_::Quant(_) => {},
            Exp_::ExpList(list) => {
                self.visit_exprs(list, scopes, visitor);
            },
            Exp_::Unit => {},
            Exp_::Assign(left, right) => {
                self.visit_expr(left, scopes, visitor);
                if visitor.finished() {
                    return ;
                }
                self.visit_expr(right, scopes, visitor);
            },
            Exp_::Return(e) => {
                match e {
                    Some(x) => {
                        self.visit_expr(x, scopes, visitor);
                    },
                    None => {},
                }
            },
            Exp_::Abort(e) => {
                self.visit_expr(e, scopes, visitor);
            },
            Exp_::Break => {
                let item = Item::KeyWords("break");
                visitor.handle_item(scopes, &item);
            },
            Exp_::Continue => {
                let item = Item::KeyWords("continue");
                visitor.handle_item(scopes, &item);
            },
            Exp_::Dereference(x) => {
                self.visit_expr(x, scopes, visitor);
            },
            Exp_::UnaryExp(_, e) => {
                self.visit_expr(e, scopes, visitor);
            },
            Exp_::BinopExp(left, _, right) => {
                self.visit_expr(left, scopes, visitor);
                if visitor.finished() {
                    return ;
                }
                self.visit_expr(right, scopes, visitor);
            },
            Exp_::Borrow(_, e) => {
                self.visit_expr(e, scopes, visitor);
            },
            Exp_::Dot(e, field) => {
                self.visit_expr(e, scopes, visitor);
                if visitor.finished() {
                    return ;
                }
                let ty = self.get_expr_type(e, scopes);
                match ty.find_filed_by_name(&field.value) {
                    Some(f) => {
                        let item = Item::AccessFiled(clone_name(&f.0), f.1.clone());
                        visitor.handle_item(scopes, &item);
                    },
                    None => {},
                }
            },
            Exp_::Index(_, _) => {},
            Exp_::Cast(e, ty) => {
                self.visit_expr(e, scopes, visitor);
                if visitor.finished() {
                    return ;
                }
                self.visit_type_apply(ty, scopes, visitor);
            },
            Exp_::Annotate(e, ty) => {
                self.visit_expr(e, scopes, visitor);
                if visitor.finished() {
                    return ;
                }
                self.visit_type_apply(ty, scopes, visitor);
            },
            Exp_::Spec(_) => {},
            Exp_::UnresolvedError => {},
        }
    }

    /// Walks a block in a scope of its own.
    pub fn visit_block<V: ScopeVisitor>(&self, seq: &Sequence, scopes: &mut Scopes, visitor: &mut V)
        requires
            self.wf(),
            old(scopes).wf(),
        ensures
            final(scopes).wf(),
            final(scopes)@ == old(scopes)@,
            final(visitor).state() == walk_block::<V>(
                self.named(),
                seq@,
                old(scopes)@,
                old(visitor).state(),
            ),
        decreases seq, 1int,
    {
        scopes.enter_scope();
        self.visit_block_body(seq, scopes, visitor);
        proof {
            push_then_pop(old(scopes)@, scopes@);
        }
        scopes.leave_scope();
    }

    /// Walks the inside of a block: the `use` declarations, the statements,
    /// the final expression.
    fn visit_block_body<V: ScopeVisitor>(&self, seq: &Sequence, scopes: &mut Scopes, visitor: &mut V)
        requires
            self.wf(),
            old(scopes).wf(),
        ensures
            final(scopes).wf(),
            same_but_top(final(scopes)@, old(scopes)@),
            final(visitor).state() == walk_block_body::<V>(
                self.named(),
                seq@,
                old(scopes)@,
                old(visitor).state(),
            ),
        decreases seq, 0int,
    {
        proof {
            sequence_view_unfolds(*seq);
        }
        let mut i: usize = 0;
        while i < seq.uses.len()
            invariant
                i <= seq.uses.len(),
                self.wf(),
                scopes.wf(),
                same_but_top(scopes@, old(scopes)@),
                walk_uses::<V>(self.named(), views(seq.uses@), 0, old(scopes)@, old(visitor).state())
                    == walk_uses::<V>(
                    self.named(),
                    views(seq.uses@),
                    i as int,
                    scopes@,
                    visitor.state(),
                ),
            decreases seq.uses.len() - i,
        {
            self.visit_use_decl(&seq.uses[i], scopes, visitor);
            if visitor.finished() {
                proof {
                    sequence_view_unfolds(*seq);
                }
                return ;
            }
            i += 1;
        }
        let ghost after_uses = scopes@;
        let ghost state_after_uses = visitor.state();
        let mut j: usize = 0;
        while j < seq.items.len()
            invariant
                j <= seq.items.len(),
                self.wf(),
                scopes.wf(),
                same_but_top(scopes@, old(scopes)@),
                walk_items::<V>(self.named(), views(seq.items@), 0, after_uses, state_after_uses)
                    == walk_items::<V>(
                    self.named(),
                    views(seq.items@),
                    j as int,
                    scopes@,
                    visitor.state(),
                ),
                walk_uses::<V>(self.named(), views(seq.uses@), 0, old(scopes)@, old(visitor).state())
                    == (Walk { scopes: after_uses, state: state_after_uses, stopped: false }),
            decreases seq.items.len() - j,
        {
            self.visit_sequence_item(&seq.items[j], scopes, visitor);
            if visitor.finished() {
                proof {
                    sequence_view_unfolds(*seq);
                }
                return ;
            }
            j += 1;
        }
        match &seq.tail {
            Some(exp) => {
                self.visit_expr(exp, scopes, visitor);
            },
            None => {},
        }
    }

    /// Walks one statement.
    pub fn visit_sequence_item<V: ScopeVisitor>(
        &self,
        seq: &SequenceItem,
        scopes: &mut Scopes,
        visitor: &mut V,
    )
        requires
            self.wf(),
            old(scopes).wf(),
        ensures
            final(scopes).wf(),
            same_but_top(final(scopes)@, old(scopes)@),
            (final(scopes)@, final(visitor).state()) == walk_item::<V>(
                self.named(),
                seq@,
                old(scopes)@,
                old(visitor).state(),
            ),
        decreases seq,
    {
        proof {
            item_view_unfolds(seq.value);
        }
        match &seq.value {
            SequenceItem_::Expr(e) => {
                self.visit_expr(e, scopes, visitor);
                assert(scopes@.frames.drop_last() =~= old(scopes)@.frames.drop_last());
            },
            SequenceItem_::Declare(list, ty) => {
                self.visit_bind_list(list, ty, None, scopes, visitor);
            },
            SequenceItem_::Bind(list, ty, expr) => {
                self.visit_bind_list(list, ty, Some(expr), scopes, visitor);
            },
        }
    }

    /// The type that the patterns of a `let` are matched against: the type
    /// that is written, else the type of the bound expression, else unknown
    /// at the place of the patterns.
    pub fn get_bind_list_type(
        &self,
        bind_list: &BindList,
        ty: &Option<Type>,
        expr: Option<&Box<Exp>>,
        scopes: &Scopes,
    ) -> (r: ResolvedType)
        requires
            self.wf(),
            scopes.wf(),
        ensures
            r@ == (match ty {
                Some(t) => crate::resolve::resolve(scopes@, t@),
                None => match expr {
                    Some(e) => crate::evaluate::expr_type(self.named(), scopes@, (**e)@),
                    None => crate::algebra::unknown_at(bind_list.loc),
                },
            }),
    {
        match ty {
            Some(t) => scopes.resolve_type(t),
            None => match expr {
                Some(e) => self.get_expr_type(e, scopes),
                None => ResolvedType::new_unknown(bind_list.loc),
            },
        }
    }

    /// Walks the patterns of a `let`, each with the element of the bound
    /// type at its place, and asks after each.
    pub fn visit_bind_list<V: ScopeVisitor>(
        &self,
        bind_list: &BindList,
        ty: &Option<Type>,
        expr: Option<&Box<Exp>>,
        scopes: &mut Scopes,
        visitor: &mut V,
    )
        requires
            self.wf(),
            old(scopes).wf(),
        ensures
            final(scopes).wf(),
            same_but_top(final(scopes)@, old(scopes)@),
            (final(scopes)@, final(visitor).state()) == walk_binds::<V>(
                bind_list_view(*bind_list).value,
                0,
                old(scopes)@,
                old(visitor).state(),
            ),
    {
        let ty = self.get_bind_list_type(bind_list, ty, expr, scopes);
        assert(scopes@.frames.drop_last() =~= old(scopes)@.frames.drop_last());
        let mut index: usize = 0;
        while index < bind_list.value.len()
            invariant
                index <= bind_list.value.len(),
                self.wf(),
                scopes.wf(),
                same_but_top(scopes@, old(scopes)@),
                walk_binds::<V>(
                    bind_list_view(*bind_list).value,
                    0,
                    old(scopes)@,
                    old(visitor).state(),
                ) == walk_binds::<V>(
                    bind_list_view(*bind_list).value,
                    index as int,
                    scopes@,
                    visitor.state(),
                ),
            decreases bind_list.value.len() - index,
        {
            let unknown = ResolvedType::new_unknown(bind_list.loc);
            let element = match ty.nth_ty(index) {
                Some(t) => t,
                None => &unknown,
            };
            self.visit_bind(&bind_list.value[index], element, scopes, None, visitor);
            if visitor.finished() {
                return ;
            }
            index += 1;
        }
    }

    /// Walks one pattern: a variable is reported and, unless the visitor is
    /// finished, bound. A struct pattern is passed over.
    pub fn visit_bind<V: ScopeVisitor>(
        &self,
        bind: &Bind,
        ty: &ResolvedType,
        scopes: &mut Scopes,
        field: Option<&Field>,
        visitor: &mut V,
    )
        requires
            old(scopes).wf(),
        ensures
            final(scopes).wf(),
            same_but_top(final(scopes)@, old(scopes)@),
            (final(scopes)@, final(visitor).state()) == walk_bind::<V>(
                bind@,
                old(scopes)@,
                old(visitor).state(),
            ),
    {
        proof {
            bind_view_unfolds(bind.value);
        }
        assert(scopes@.frames.drop_last() =~= old(scopes)@.frames.drop_last());
        match &bind.value {
            Bind_::Var(var) => {
                let item = Item::ExprVar(clone_name(var));
                visitor.handle_item(scopes, &item);
                if visitor.finished() {
                    return ;
                }
                proof {
                    bind_keeps_the_rest(scopes@, var.value@, item@);
                }
                scopes.enter_item(var.value.clone(), item);
            },
            Bind_::Unpack(_, _, _) => {},
        }
    }

    /// Walks a `use` declaration: reports it, asks, and binds what it brings
    /// in.
    pub fn visit_use_decl<V: ScopeVisitor>(
        &self,
        use_decl: &UseDecl,
        scopes: &mut Scopes,
        visitor: &mut V,
    )
        requires
            self.wf(),
            old(scopes).wf(),
        ensures
            final(scopes).wf(),
            same_but_top(final(scopes)@, old(scopes)@),
            (final(scopes)@, final(visitor).state()) == walk_use::<V>(
                self.named(),
                use_decl@,
                old(scopes)@,
                old(visitor).state(),
            ),
    {
        assert(scopes@.frames.drop_last() =~= old(scopes)@.frames.drop_last());
        let item = Item::Use(use_decl.clone());
        visitor.handle_item(scopes, &item);
        if visitor.finished() {
            return ;
        }
        match &use_decl.use_ {
            Use::Module(module, alias) => {
                let name = match alias {
                    Some(a) => a.value.clone(),
                    None => module.value.module.value.clone(),
                };
                match self.lead_address(&module.value.address.value) {
                    Some(a) => {
                        if scopes.addresses.module(a, &module.value.module.value).is_some() {
                            let item = Item::ImportedUseModule(clone_module_ident(module), a);
                            proof {
                                bind_keeps_the_rest(scopes@, name@, item@);
                            }
                            scopes.enter_item(name, item);
                        }
                    },
                    None => {},
                }
            },
            Use::Members(module, members) => {
                match self.lead_address(&module.value.address.value) {
                    Some(a) => {
                        if scopes.addresses.module(a, &module.value.module.value).is_some() {
                            let ghost members_view = members@.map_values(
                                |x: (Name, Option<Name>)| member_view(x),
                            );
                            let ghost module_view = module_at(
                                old(scopes)@.addresses,
                                a,
                                module.value.module.value@,
                            );
                            let mut i: usize = 0;
                            while i < members.len()
                                invariant
                                    i <= members.len(),
                                    self.wf(),
                                    scopes.wf(),
                                    same_but_top(scopes@, old(scopes)@),
                                    members_view == members@.map_values(
                                        |x: (Name, Option<Name>)| member_view(x),
                                    ),
                                    modules_at(scopes@.addresses, a).contains_key(
                                        module.value.module.value@,
                                    ),
                                    module_view == module_at(
                                        scopes@.addresses,
                                        a,
                                        module.value.module.value@,
                                    ),
                                    scopes@ == bind_members(
                                        old(scopes)@,
                                        module_view,
                                        members_view,
                                        i as int,
                                    ),
                                decreases members.len() - i,
                            {
                                let name = match &members[i].1 {
                                    Some(alias) => alias.value.clone(),
                                    None => members[i].0.value.clone(),
                                };
                                let found = match scopes.addresses.module(
                                    a,
                                    &module.value.module.value,
                                ) {
                                    Some(r) => match r.items.get(&members[i].0.value) {
                                        Some(x) => Some(x.clone()),
                                        None => None,
                                    },
                                    None => None,
                                };
                                match found {
                                    Some(x) => {
                                        let item = Item::ImportUse(Box::new(x));
                                        proof {
                                            bind_keeps_the_rest(scopes@, name@, item@);
                                        }
                                        scopes.enter_item(name, item);
                                    },
                                    None => {},
                                }
                                i += 1;
                            }
                        }
                    },
                    None => {},
                }
            },
        }
    }

    /// Walks the header of a function: the type parameters, then the
    /// parameters, each bound as soon as it has been reported.
    pub fn visit_signature<V: ScopeVisitor>(
        &self,
        signature: &FunctionSignature,
        scopes: &mut Scopes,
        visitor: &mut V,
    )
        requires
            old(scopes).wf(),
        ensures
            final(scopes).wf(),
            same_but_top(final(scopes)@, old(scopes)@),
            final(scopes)@ == walk_signature::<V>(
                signature@,
                old(scopes)@,
                old(visitor).state(),
            ).scopes,
            final(visitor).state() == walk_signature::<V>(
                signature@,
                old(scopes)@,
                old(visitor).state(),
            ).state,
    {
        assert(scopes@.frames.drop_last() =~= old(scopes)@.frames.drop_last());
        let mut i: usize = 0;
        while i < signature.type_parameters.len()
            invariant
                i <= signature.type_parameters.len(),
                scopes.wf(),
                same_but_top(scopes@, old(scopes)@),
                walk_type_parameters::<V>(
                    views(signature.type_parameters@),
                    0,
                    old(scopes)@,
                    old(visitor).state(),
                ) == walk_type_parameters::<V>(
                    views(signature.type_parameters@),
                    i as int,
                    scopes@,
                    visitor.state(),
                ),
            decreases signature.type_parameters.len() - i,
        {
            let name = &signature.type_parameters[i].0;
            let item = Item::TParam(
                clone_name(name),
                clone_abilities(&signature.type_parameters[i].1),
            );
            visitor.handle_item(scopes, &item);
            if visitor.finished() {
                return ;
            }
            proof {
                bind_keeps_the_rest(scopes@, name.value@, item@);
            }
            scopes.enter_item(name.value.clone(), item);
            i += 1;
        }
        let ghost after = scopes@;
        let ghost state_after = visitor.state();
        let mut j: usize = 0;
        while j < signature.parameters.len()
            invariant
                j <= signature.parameters.len(),
                scopes.wf(),
                same_but_top(scopes@, old(scopes)@),
                walk_type_parameters::<V>(
                    views(signature.type_parameters@),
                    0,
                    old(scopes)@,
                    old(visitor).state(),
                ) == (Walk { scopes: after, state: state_after, stopped: false }),
                walk_parameters::<V>(views(signature.parameters@), 0, after, state_after)
                    == walk_parameters::<V>(
                    views(signature.parameters@),
                    j as int,
                    scopes@,
                    visitor.state(),
                ),
            decreases signature.parameters.len() - j,
        {
            let v = &signature.parameters[j].0;
            let t = &signature.parameters[j].1;
            let item = Item::ApplyType(clone_type(t));
            visitor.handle_item(scopes, &item);
            if visitor.finished() {
                return ;
            }
            let t = scopes.resolve_type(t);
            let item = Item::Parameter(clone_name(v), t);
            visitor.handle_item(scopes, &item);
            if visitor.finished() {
                return ;
            }
            proof {
                bind_keeps_the_rest(scopes@, v.value@, item@);
            }
            scopes.enter_item(v.value.clone(), item);
            j += 1;
        }
    }

    /// Walks the header and the body of a function, in the scope that
    /// `visit_function` entered.
    fn visit_function_body<V: ScopeVisitor>(
        &self,
        function: &Function,
        scopes: &mut Scopes,
        visitor: &mut V,
    )
        requires
            self.wf(),
            old(scopes).wf(),
        ensures
            final(scopes).wf(),
            same_but_top(final(scopes)@, old(scopes)@),
            final(visitor).state() == ({
                let sig = walk_signature::<V>(
                    function@.signature,
                    old(scopes)@,
                    old(visitor).state(),
                );
                if V::done(sig.state) {
                    sig.state
                } else {
                    match function@.body.value {
                        crate::syntax::FunctionBodyModel::Native => sig.state,
                        crate::syntax::FunctionBodyModel::Defined(b) => walk_block::<V>(
                            self.named(),
                            b,
                            sig.scopes,
                            sig.state,
                        ),
                    }
                }
            }),
    {
        self.visit_signature(&function.signature, scopes, visitor);
        if visitor.finished() {
            return ;
        }
        match &function.body.value {
            FunctionBody_::Native => {},
            FunctionBody_::Defined(seq) => {
                self.visit_block(seq, scopes, visitor);
            },
        }
    }

    /// Walks a function in a scope of its own.
    pub fn visit_function<V: ScopeVisitor>(
        &self,
        function: &Function,
        scopes: &mut Scopes,
        visitor: &mut V,
    )
        requires
            self.wf(),
            old(scopes).wf(),
        ensures
            final(scopes).wf(),
            final(scopes)@ == old(scopes)@,
            final(visitor).state() == walk_function::<V>(
                self.named(),
                function@,
                old(scopes)@,
                old(visitor).state(),
            ),
    {
        scopes.enter_scope();
        self.visit_function_body(function, scopes, visitor);
        proof {
            push_then_pop(old(scopes)@, scopes@);
        }
        scopes.leave_scope();
    }
}

} // verus!
