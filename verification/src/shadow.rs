//! What a name in a function may be shadowed by: an import or a local. And
//! the grouping of imports by module, so that the imports from one module
//! are written as one `use` statement.
use crate::generate::{indent, indent_text};
use crate::syntax::{
    member_view, opt_view, views, LeadingNameAccessModel, LeadingNameAccess_, Name,
    NumericalAddress, Symbol, Use, UseModel,
};
use crate::table::{AddressTable, Table};
use vstd::prelude::*;

verus! {

/// An imported member: where it comes from, its name, and its alias.
#[derive(Debug, PartialEq, Eq)]
pub struct ShadowItemUseItem {
    pub lead: LeadingNameAccess_,
    pub module: Symbol,
    pub item: Symbol,
    pub alias: Option<Symbol>,
}

/// An imported module: where it comes from, its alias, and whether it was
/// imported as `Self` among the members.
#[derive(Debug, PartialEq, Eq)]
pub struct ShadowItemUseModule {
    pub lead: LeadingNameAccess_,
    pub module: Symbol,
    pub alias: Option<Symbol>,
    pub has_self: bool,
}

/// A local, by its position.
#[derive(Clone, Copy, Debug, PartialEq, Eq)]
pub struct ShadowItemLocal {
    pub index: usize,
}

#[derive(Debug, PartialEq, Eq)]
pub enum ShadowItemUse {
    Module(ShadowItemUseModule),
    Item(ShadowItemUseItem),
}

#[derive(Debug, PartialEq, Eq)]
pub enum ShadowItem {
    Use(ShadowItemUse),
    Local(ShadowItemLocal),
}

pub enum ShadowItemUseModel {
    Module { lead: LeadingNameAccessModel, module: Seq<char>, alias: Option<Seq<char>>, has_self: bool },
    Item { lead: LeadingNameAccessModel, module: Seq<char>, item: Seq<char>, alias: Option<Seq<char>> },
}

pub enum ShadowItemModel {
    Use(ShadowItemUseModel),
    Local(ShadowItemLocal),
}

impl View for ShadowItemUse {
    type V = ShadowItemUseModel;

    open spec fn view(&self) -> ShadowItemUseModel {
        match self {
            ShadowItemUse::Module(x) => ShadowItemUseModel::Module {
                lead: x.lead@,
                module: x.module@,
                alias: opt_view(x.alias),
                has_self: x.has_self,
            },
            ShadowItemUse::Item(x) => ShadowItemUseModel::Item {
                lead: x.lead@,
                module: x.module@,
                item: x.item@,
                alias: opt_view(x.alias),
            },
        }
    }
}

impl View for ShadowItem {
    type V = ShadowItemModel;

    open spec fn view(&self) -> ShadowItemModel {
        match self {
            ShadowItem::Use(x) => ShadowItemModel::Use(x@),
            ShadowItem::Local(x) => ShadowItemModel::Local(*x),
        }
    }
}

impl ShadowItemUseModel {
    /// The address that the import comes from.
    pub open spec fn lead(self) -> LeadingNameAccessModel {
        match self {
            ShadowItemUseModel::Module { lead, .. } => lead,
            ShadowItemUseModel::Item { lead, .. } => lead,
        }
    }

    /// The module that the import comes from.
    pub open spec fn module(self) -> Seq<char> {
        match self {
            ShadowItemUseModel::Module { module, .. } => module,
            ShadowItemUseModel::Item { module, .. } => module,
        }
    }

    /// How the import is written inside a `use` statement: the module or
    /// the member, followed by ` as ` and the alias if there is one.
    pub open spec fn text(self) -> Seq<char> {
        match self {
            ShadowItemUseModel::Module { module, alias, .. } => match alias {
                Some(a) => module + " as "@ + a,
                None => module,
            },
            ShadowItemUseModel::Item { item, alias, .. } => match alias {
                Some(a) => item + " as "@ + a,
                None => item,
            },
        }
    }
}

/// The first `n` imports of a group, written out, with a comma after each
/// but the last of the group.
pub open spec fn joined_text(items: Seq<ShadowItemUseModel>, n: int) -> Seq<char>
    decreases n,
{
    if n <= 0 || n > items.len() {
        Seq::empty()
    } else {
        joined_text(items, n - 1) + items[n - 1].text() + (if n < items.len() {
            ","@
        } else {
            Seq::empty()
        })
    }
}

/// The imports of a group, written out: in braces if there is more than
/// one.
pub open spec fn group_text(items: Seq<ShadowItemUseModel>) -> Seq<char> {
    (if items.len() > 1 {
        "{"@
    } else {
        Seq::empty()
    }) + joined_text(items, items.len() as int) + (if items.len() > 1 {
        "}"@
    } else {
        Seq::empty()
    })
}

/// One `use` statement: the imports of one group, from a module at a named
/// address.
pub open spec fn use_line(
    indent_size: nat,
    lead: Seq<char>,
    module: Seq<char>,
    items: Seq<ShadowItemUseModel>,
) -> Seq<char> {
    indent_text(indent_size) + "use "@ + lead + "::"@ + module + "::"@ + group_text(items) + ";\n"@
}

/// The name of a named address.
pub open spec fn lead_name(lead: LeadingNameAccessModel) -> Option<Seq<char>> {
    match lead {
        LeadingNameAccessModel::Name(n) => Some(n.value),
        LeadingNameAccessModel::AnonymousAddress(_) => None,
    }
}

/// The imports from the modules at one address, by module.
pub type ModuleGroups = Table<Vec<ShadowItemUse>>;

/// The group that a module's imports are in, if there is one; no imports
/// otherwise.
pub open spec fn group_in(groups: Map<Seq<char>, Vec<ShadowItemUse>>, module: Seq<char>) -> Seq<
    ShadowItemUseModel,
> {
    if groups.contains_key(module) {
        views(groups[module]@)
    } else {
        Seq::empty()
    }
}

/// Imports grouped by the address and module they come from. The imports
/// of a group are kept in the order in which they came, and so are the
/// named addresses and the modules at each of them.
#[derive(Debug)]
pub struct GroupShadowItemUse {
    named: Table<ModuleGroups>,
    numbered: AddressTable<ModuleGroups>,
}

impl GroupShadowItemUse {
    /// Every table is in order.
    pub closed spec fn wf(&self) -> bool {
        &&& self.named.wf()
        &&& self.numbered.wf()
        &&& forall|k: Seq<char>| #[trigger]
            self.named.map().contains_key(k) ==> self.named.map()[k].wf()
        &&& forall|k: NumericalAddress| #[trigger]
            self.numbered.map().contains_key(k) ==> self.numbered.map()[k].wf()
    }

    /// The named addresses that imports came from, in the order in which
    /// they first came.
    pub closed spec fn leads(&self) -> Seq<Seq<char>> {
        self.named.order()
    }

    /// The modules at a named address that imports came from, in the order
    /// in which they first came.
    pub closed spec fn modules(&self, lead: Seq<char>) -> Seq<Seq<char>> {
        if self.named.map().contains_key(lead) {
            self.named.map()[lead].order()
        } else {
            Seq::empty()
        }
    }

    /// The imports from a module at a named address, in the order in which
    /// they came.
    pub closed spec fn named_group(&self, lead: Seq<char>, module: Seq<char>) -> Seq<
        ShadowItemUseModel,
    > {
        if self.named.map().contains_key(lead) {
            group_in(self.named.map()[lead].map(), module)
        } else {
            Seq::empty()
        }
    }

    /// The imports from a module at a numeric address, in the order in which
    /// they came.
    pub closed spec fn numbered_group(&self, lead: NumericalAddress, module: Seq<char>) -> Seq<
        ShadowItemUseModel,
    > {
        if self.numbered.map().contains_key(lead) {
            group_in(self.numbered.map()[lead].map(), module)
        } else {
            Seq::empty()
        }
    }

    /// The imports from a module at an address, in the order in which they
    /// came. A named address is the same wherever it is written.
    pub open spec fn group(&self, lead: LeadingNameAccessModel, module: Seq<char>) -> Seq<
        ShadowItemUseModel,
    > {
        match lead {
            LeadingNameAccessModel::Name(n) => self.named_group(n.value, module),
            LeadingNameAccessModel::AnonymousAddress(a) => self.numbered_group(a, module),
        }
    }

    /// The `use` statements of the first `n` modules at a named address.
    pub open spec fn modules_text(&self, indent_size: nat, lead: Seq<char>, n: int) -> Seq<char>
        decreases n,
    {
        if n <= 0 || n > self.modules(lead).len() {
            Seq::empty()
        } else {
            self.modules_text(indent_size, lead, n - 1) + use_line(
                indent_size,
                lead,
                self.modules(lead)[n - 1],
                self.named_group(lead, self.modules(lead)[n - 1]),
            )
        }
    }

    /// The `use` statements of the first `n` named addresses.
    pub open spec fn leads_text(&self, indent_size: nat, n: int) -> Seq<char>
        decreases n,
    {
        if n <= 0 || n > self.leads().len() {
            Seq::empty()
        } else {
            self.leads_text(indent_size, n - 1) + self.modules_text(
                indent_size,
                self.leads()[n - 1],
                self.modules(self.leads()[n - 1]).len() as int,
            )
        }
    }

    /// The `use` statements of the groups at named addresses: the addresses
    /// in the order in which they first came, under each its modules in the
    /// order in which they first came. A numeric address has no rule for
    /// writing it: its groups are left out.
    pub open spec fn text(&self, indent_size: nat) -> Seq<char> {
        self.leads_text(indent_size, self.leads().len() as int)
    }

    /// The addresses and modules that are listed are those that have
    /// imports, each listed once.
    pub proof fn lists_what_has_imports(&self)
        requires
            self.wf(),
        ensures
            self.leads().no_duplicates(),
            forall|l: Seq<char>| #[trigger] self.modules(l).no_duplicates(),
            forall|l: Seq<char>, m: Seq<char>|
                self.named_group(l, m).len() > 0 ==> self.leads().contains(l) && #[trigger] self.modules(
                    l,
                ).contains(m),
    {
        self.named.order_lists_the_names();
        assert forall|l: Seq<char>| #[trigger] self.modules(l).no_duplicates() by {
            if self.named.map().contains_key(l) {
                self.named.map()[l].order_lists_the_names();
            }
        }
        assert forall|l: Seq<char>, m: Seq<char>| self.named_group(l, m).len() > 0 implies self.leads().contains(
            l,
        ) && #[trigger] self.modules(l).contains(m) by {
            self.named.map()[l].order_lists_the_names();
        }
    }

    /// No import at all.
    pub fn new() -> (g: Self)
        ensures
            g.wf(),
            g.leads() == Seq::<Seq<char>>::empty(),
            forall|l: Seq<char>| #[trigger] g.modules(l) == Seq::<Seq<char>>::empty(),
            forall|l: Seq<char>, m: Seq<char>| #[trigger]
                g.named_group(l, m) == Seq::<ShadowItemUseModel>::empty(),
            forall|a: NumericalAddress, m: Seq<char>| #[trigger]
                g.numbered_group(a, m) == Seq::<ShadowItemUseModel>::empty(),
    {
        GroupShadowItemUse { named: Table::new(), numbered: AddressTable::new() }
    }

    /// Adds an import at the end of the group of its address and module.
    /// Every other group stays as it is. A named address and a module that
    /// had no import yet go to the end of their lists.
    pub fn insert(&mut self, x: ShadowItemUse)
        requires
            old(self).wf(),
        ensures
            final(self).wf(),
            forall|l: Seq<char>, m: Seq<char>| #[trigger]
                final(self).named_group(l, m) == (if lead_name(x@.lead()) == Some(l) && m
                    == x@.module() {
                    old(self).named_group(l, m).push(x@)
                } else {
                    old(self).named_group(l, m)
                }),
            forall|a: NumericalAddress, m: Seq<char>| #[trigger]
                final(self).numbered_group(a, m) == (if x@.lead()
                    == LeadingNameAccessModel::AnonymousAddress(a) && m == x@.module() {
                    old(self).numbered_group(a, m).push(x@)
                } else {
                    old(self).numbered_group(a, m)
                }),
            final(self).leads() == (match lead_name(x@.lead()) {
                Some(l) => if old(self).leads().contains(l) {
                    old(self).leads()
                } else {
                    old(self).leads().push(l)
                },
                None => old(self).leads(),
            }),
            forall|l: Seq<char>| #[trigger]
                final(self).modules(l) == (if lead_name(x@.lead()) == Some(l) && !old(
                    self,
                ).modules(l).contains(x@.module()) {
                    old(self).modules(l).push(x@.module())
                } else {
                    old(self).modules(l)
                }),
    {
        let module = match &x {
            ShadowItemUse::Module(m) => m.module.clone(),
            ShadowItemUse::Item(i) => i.module.clone(),
        };
        let lead = match &x {
            ShadowItemUse::Module(m) => &m.lead,
            ShadowItemUse::Item(i) => &i.lead,
        };
        proof {
            self.named.order_lists_the_names();
        }
        match lead {
            LeadingNameAccess_::Name(name) => {
                let key = name.value.clone();
                if !self.named.contains_key(&key) {
                    self.named.insert(key.clone(), Table::new());
                }
                proof {
                    self.named.map()[key@].order_lists_the_names();
                }
                match self.named.get_mut(&key) {
                    Some(groups) => {
                        add_to_group(groups, module, x);
                    },
                    None => {},
                }
            },
            LeadingNameAccess_::AnonymousAddress(a) => {
                let key = *a;
                if !self.numbered.contains_key(key) {
                    self.numbered.insert(key, Table::new());
                }
                match self.numbered.get_mut(key) {
                    Some(groups) => {
                        add_to_group(groups, module, x);
                    },
                    None => {},
                }
            },
        }
    }

    /// The `use` statements of the groups, one line each, indented by
    /// `indent_size` levels.
    pub fn to_string(&self, indent_size: usize) -> (ret: String)
        requires
            self.wf(),
        ensures
            ret@ == self.text(indent_size as nat),
    {
        let mut ret = String::new();
        let mut i: usize = 0;
        while i < self.named.len()
            invariant
                i <= self.leads().len(),
                self.wf(),
                ret@ == self.leads_text(indent_size as nat, i as int),
            decreases self.leads().len() - i,
        {
            let lead = self.named.key_at(i);
            let groups = self.named.value_at(i);
            let ghost before = ret@;
            let mut j: usize = 0;
            while j < groups.len()
                invariant
                    j <= groups.order().len(),
                    groups.wf(),
                    self.named.map().contains_key(lead@),
                    *groups == self.named.map()[lead@],
                    ret@ == before + self.modules_text(indent_size as nat, lead@, j as int),
                decreases groups.order().len() - j,
            {
                let k = groups.key_at(j);
                let v = groups.value_at(j);
                let line = write_use_line(indent_size, lead, k, v);
                ret.append(line.as_str());
                assert(ret@ =~= before + self.modules_text(indent_size as nat, lead@, j + 1));
                j += 1;
            }
            assert(ret@ =~= self.leads_text(indent_size as nat, i + 1));
            i += 1;
        }
        ret
    }
}

/// Adds an import at the end of the group of its module.
fn add_to_group(groups: &mut ModuleGroups, module: Symbol, x: ShadowItemUse)
    requires
        old(groups).wf(),
    ensures
        final(groups).wf(),
        group_in(final(groups).map(), module@) == group_in(old(groups).map(), module@).push(x@),
        forall|other: Seq<char>|
            other != module@ ==> group_in(final(groups).map(), other) == group_in(
                old(groups).map(),
                other,
            ),
        final(groups).order() == (if old(groups).map().contains_key(module@) {
            old(groups).order()
        } else {
            old(groups).order().push(module@)
        }),
{
    if groups.contains_key(&module) {
        match groups.get_mut(&module) {
            Some(list) => {
                let ghost before = views(list@);
                list.push(x);
                assert(views(list@) =~= before.push(x@));
            },
            None => {},
        }
    } else {
        let mut v: Vec<ShadowItemUse> = Vec::new();
        v.push(x);
        assert(views(v@) =~= Seq::<ShadowItemUseModel>::empty().push(x@));
        groups.insert(module, v);
    }
}

/// How an import is written inside a `use` statement.
fn write_item(vv: &ShadowItemUse) -> (r: String)
    ensures
        r@ == vv@.text(),
{
    let mut r = String::new();
    match vv {
        ShadowItemUse::Module(x) => {
            r.append(x.module.as_str());
            match &x.alias {
                Some(alias) => {
                    r.append(" as ");
                    r.append(alias.as_str());
                },
                None => {},
            }
        },
        ShadowItemUse::Item(item) => {
            r.append(item.item.as_str());
            match &item.alias {
                Some(alias) => {
                    r.append(" as ");
                    r.append(alias.as_str());
                },
                None => {},
            }
        },
    }
    assert(r@ =~= vv@.text());
    r
}

/// One `use` statement for the imports of one group.
fn write_use_line(indent_size: usize, lead: &Symbol, module: &Symbol, v: &Vec<ShadowItemUse>) -> (r:
    String)
    ensures
        r@ == use_line(indent_size as nat, lead@, module@, views(v@)),
{
    let mut v_str = String::new();
    if v.len() > 1 {
        v_str.append("{");
    }
    let ghost open = v_str@;
    let v_len = v.len();
    let mut index: usize = 0;
    while index < v_len
        invariant
            index <= v_len,
            v_len == v.len(),
            v_str@ == open + joined_text(views(v@), index as int),
        decreases v_len - index,
    {
        let item = write_item(&v[index]);
        v_str.append(item.as_str());
        if index + 1 < v_len {
            v_str.append(",");
        }
        assert(v_str@ =~= open + joined_text(views(v@), index + 1));
        index += 1;
    }
    if v.len() > 1 {
        v_str.append("}");
    }
    assert(v_str@ =~= group_text(views(v@)));
    let mut r = indent(indent_size);
    r.append("use ");
    r.append(lead.as_str());
    r.append("::");
    r.append(module.as_str());
    r.append("::");
    r.append(v_str.as_str());
    r.append(";\n");
    assert(r@ =~= use_line(indent_size as nat, lead@, module@, views(v@)));
    r
}

/// The names in the order in which they first came, and the shadowing items
/// of each name in the order in which they came.
pub struct ShadowItems {
    pub names: Seq<Seq<char>>,
    pub items: Map<Seq<char>, Seq<ShadowItemModel>>,
}

/// No name at all.
pub open spec fn no_items() -> ShadowItems {
    ShadowItems { names: Seq::empty(), items: Map::empty() }
}

/// The items with one more at the end of the list of a name. A new name
/// goes to the end of the names.
pub open spec fn with_item(m: ShadowItems, name: Seq<char>, item: ShadowItemModel) -> ShadowItems {
    if m.items.contains_key(name) {
        ShadowItems { names: m.names, items: m.items.insert(name, m.items[name].push(item)) }
    } else {
        ShadowItems {
            names: m.names.push(name),
            items: m.items.insert(name, Seq::empty().push(item)),
        }
    }
}

/// What an imported member shadows with: the member, or the module itself
/// where the member is `Self`.
pub open spec fn member_item(
    lead: LeadingNameAccessModel,
    module: Seq<char>,
    member: (crate::syntax::NameModel, Option<crate::syntax::NameModel>),
) -> ShadowItemModel {
    let alias = match member.1 {
        Some(a) => Some(a.value),
        None => None,
    };
    if member.0.value != "Self"@ {
        ShadowItemModel::Use(
            ShadowItemUseModel::Item { lead, module, item: member.0.value, alias },
        )
    } else {
        ShadowItemModel::Use(ShadowItemUseModel::Module { lead, module, alias, has_self: true })
    }
}

/// The shadowing items of the first `n` imported members, each under its
/// alias or its own name.
pub open spec fn member_items(
    lead: LeadingNameAccessModel,
    module: Seq<char>,
    members: Seq<(crate::syntax::NameModel, Option<crate::syntax::NameModel>)>,
    n: int,
) -> ShadowItems
    decreases n,
{
    if n <= 0 || n > members.len() {
        no_items()
    } else {
        with_item(
            member_items(lead, module, members, n - 1),
            crate::visitor::bound_name(members[n - 1].0, members[n - 1].1),
            member_item(lead, module, members[n - 1]),
        )
    }
}

/// The shadowing items that a `use` brings in, by the name that each is
/// known under. An imported module is known under its alias or its own
/// name; an imported member likewise.
pub open spec fn use_items(u: UseModel) -> ShadowItems {
    match u {
        UseModel::Module(m, alias) => with_item(
            no_items(),
            crate::visitor::bound_name(m.value.module, alias),
            ShadowItemModel::Use(
                ShadowItemUseModel::Module {
                    lead: m.value.address.value,
                    module: m.value.module.value,
                    alias: match alias {
                        Some(a) => Some(a.value),
                        None => None,
                    },
                    has_self: false,
                },
            ),
        ),
        UseModel::Members(m, members) => member_items(
            m.value.address.value,
            m.value.module.value,
            members,
            members.len() as int,
        ),
    }
}

/// What a table of shadowing items holds.
pub open spec fn item_views(t: Table<Vec<ShadowItem>>) -> ShadowItems {
    ShadowItems { names: t.order(), items: t.map().map_values(|v: Vec<ShadowItem>| views(v@)) }
}

/// Adds a shadowing item at the end of the list of a name.
fn add_item(ret: &mut Table<Vec<ShadowItem>>, name: Symbol, item: ShadowItem)
    requires
        old(ret).wf(),
    ensures
        final(ret).wf(),
        item_views(*final(ret)) == with_item(item_views(*old(ret)), name@, item@),
{
    if ret.contains_key(&name) {
        let ghost before = ret.map()[name@]@;
        match ret.get_mut(&name) {
            Some(list) => {
                list.push(item);
                assert(views(list@) =~= views(before).push(item@));
            },
            None => {},
        }
        assert(item_views(*ret).items =~= with_item(item_views(*old(ret)), name@, item@).items);
    } else {
        let mut v: Vec<ShadowItem> = Vec::new();
        v.push(item);
        assert(views(v@) =~= Seq::<ShadowItemModel>::empty().push(item@));
        ret.insert(name, v);
        assert(item_views(*ret).items =~= with_item(item_views(*old(ret)), name@, item@).items);
    }
}

/// The name of an optional alias.
fn alias_symbol(alias: &Option<Name>) -> (r: Option<Symbol>)
    ensures
        opt_view(r) == (match opt_view(*alias) {
            Some(a) => Some(a.value),
            None => None,
        }),
{
    match alias {
        Some(a) => Some(a.value.clone()),
        None => None,
    }
}

/// The shadowing items that a `use` brings in, by the name that each is
/// known under.
pub fn use_2_shadow_items(u: &Use) -> (ret: Table<Vec<ShadowItem>>)
    ensures
        ret.wf(),
        item_views(ret) == use_items(u@),
{
    let mut ret: Table<Vec<ShadowItem>> = Table::new();
    assert(item_views(ret).items =~= no_items().items);
    match u {
        Use::Module(addr_module, alias) => {
            let name = match alias {
                Some(alias) => alias.value.clone(),
                None => addr_module.value.module.value.clone(),
            };
            let item = ShadowItem::Use(
                ShadowItemUse::Module(
                    ShadowItemUseModule {
                        lead: addr_module.value.address.value.clone(),
                        module: addr_module.value.module.value.clone(),
                        alias: alias_symbol(alias),
                        has_self: false,
                    },
                ),
            );
            add_item(&mut ret, name, item);
        },
        Use::Members(addr_module, imports) => {
            let ghost members = imports@.map_values(|x: (Name, Option<Name>)| member_view(x));
            let mut i: usize = 0;
            while i < imports.len()
                invariant
                    i <= imports.len(),
                    ret.wf(),
                    members == imports@.map_values(|x: (Name, Option<Name>)| member_view(x)),
                    item_views(ret) == member_items(
                        addr_module@.value.address.value,
                        addr_module@.value.module.value,
                        members,
                        i as int,
                    ),
                decreases imports.len() - i,
            {
                let name = match &imports[i].1 {
                    Some(alias) => alias.value.clone(),
                    None => imports[i].0.value.clone(),
                };
                let item = if !imports[i].0.value.is("Self") {
                    ShadowItem::Use(
                        ShadowItemUse::Item(
                            ShadowItemUseItem {
                                lead: addr_module.value.address.value.clone(),
                                module: addr_module.value.module.value.clone(),
                                item: imports[i].0.value.clone(),
                                alias: alias_symbol(&imports[i].1),
                            },
                        ),
                    )
                } else {
                    ShadowItem::Use(
                        ShadowItemUse::Module(
                            ShadowItemUseModule {
                                lead: addr_module.value.address.value.clone(),
                                module: addr_module.value.module.value.clone(),
                                alias: alias_symbol(&imports[i].1),
                                has_self: true,
                            },
                        ),
                    )
                };
                add_item(&mut ret, name, item);
                i += 1;
            }
        },
    }
    ret
}

} // verus!
