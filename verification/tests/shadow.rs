use move_analyzer::shadow::{
    use_2_shadow_items, GroupShadowItemUse, ShadowItem, ShadowItemUse, ShadowItemUseItem,
    ShadowItemUseModule,
};
use move_analyzer::syntax::{
    LeadingNameAccess_, Loc, ModuleIdent, ModuleIdent_, Name, NumericalAddress, Spanned, Symbol,
    Use,
};

fn name(text: &str) -> Name {
    Spanned { loc: Loc::unknown(), value: Symbol::from(text) }
}

fn lead(text: &str) -> LeadingNameAccess_ {
    LeadingNameAccess_::Name(name(text))
}

fn member(address: &str, module: &str, item: &str, alias: Option<&str>) -> ShadowItemUse {
    ShadowItemUse::Item(ShadowItemUseItem {
        lead: lead(address),
        module: Symbol::from(module),
        item: Symbol::from(item),
        alias: alias.map(Symbol::from),
    })
}

fn module(address: &str, module: &str, alias: Option<&str>, has_self: bool) -> ShadowItemUse {
    ShadowItemUse::Module(ShadowItemUseModule {
        lead: lead(address),
        module: Symbol::from(module),
        alias: alias.map(Symbol::from),
        has_self,
    })
}

fn ident(address: &str, module: &str) -> ModuleIdent {
    Spanned {
        loc: Loc::unknown(),
        value: ModuleIdent_ {
            address: Spanned { loc: Loc::unknown(), value: lead(address) },
            module: name(module),
        },
    }
}

#[test]
fn imports_from_one_module_merge_into_one_statement() {
    let mut g = GroupShadowItemUse::new();
    g.insert(member("std", "vector", "push_back", None));
    g.insert(member("std", "vector", "pop_back", Some("pb")));
    assert_eq!(g.to_string(1), "    use std::vector::{push_back,pop_back as pb};\n");
    g.insert(module("std", "vector", None, true));
    assert_eq!(g.to_string(0), "use std::vector::{push_back,pop_back as pb,vector};\n");
}

#[test]
fn a_single_import_is_written_without_braces() {
    let mut g = GroupShadowItemUse::new();
    assert_eq!(g.to_string(2), "");
    g.insert(module("std", "vector", Some("v"), false));
    assert_eq!(g.to_string(2), "        use std::vector::vector as v;\n");
}

#[test]
fn groups_come_in_the_order_in_which_they_first_came() {
    let mut g = GroupShadowItemUse::new();
    g.insert(member("std", "vector", "empty", None));
    g.insert(member("aptos", "coin", "Coin", None));
    g.insert(member("std", "option", "some", None));
    g.insert(member("std", "vector", "length", None));
    let expected = "use std::vector::{empty,length};\nuse std::option::some;\nuse aptos::coin::Coin;\n";
    assert_eq!(g.to_string(0), expected);
}

#[test]
fn a_numeric_address_is_grouped_but_not_written() {
    let mut g = GroupShadowItemUse::new();
    g.insert(ShadowItemUse::Item(ShadowItemUseItem {
        lead: LeadingNameAccess_::AnonymousAddress(NumericalAddress { value: 1 }),
        module: Symbol::from("vector"),
        item: Symbol::from("empty"),
        alias: None,
    }));
    assert_eq!(g.to_string(0), "");
    g.insert(member("std", "vector", "empty", None));
    assert_eq!(g.to_string(0), "use std::vector::empty;\n");
}

#[test]
fn an_imported_module_shadows_under_its_alias_or_its_name() {
    let plain = use_2_shadow_items(&Use::Module(ident("std", "vector"), None));
    assert_eq!(plain.len(), 1);
    let expected = vec![ShadowItem::Use(module("std", "vector", None, false))];
    assert_eq!(plain.get(&Symbol::from("vector")), Some(&expected));
    let aliased = use_2_shadow_items(&Use::Module(ident("std", "vector"), Some(name("v"))));
    let expected = vec![ShadowItem::Use(module("std", "vector", Some("v"), false))];
    assert_eq!(aliased.get(&Symbol::from("v")), Some(&expected));
    assert_eq!(aliased.get(&Symbol::from("vector")), None);
}

#[test]
fn imported_members_shadow_each_under_its_own_name() {
    let u = Use::Members(
        ident("std", "vector"),
        vec![
            (name("empty"), None),
            (name("length"), Some(name("len"))),
            (name("Self"), None),
            (name("Self"), Some(name("V"))),
            (name("borrow"), Some(name("len"))),
        ],
    );
    let items = use_2_shadow_items(&u);
    assert_eq!(items.len(), 4);
    let empty = vec![ShadowItem::Use(member("std", "vector", "empty", None))];
    assert_eq!(items.get(&Symbol::from("empty")), Some(&empty));
    let len = vec![
        ShadowItem::Use(member("std", "vector", "length", Some("len"))),
        ShadowItem::Use(member("std", "vector", "borrow", Some("len"))),
    ];
    assert_eq!(items.get(&Symbol::from("len")), Some(&len));
    let own = vec![ShadowItem::Use(module("std", "vector", None, true))];
    assert_eq!(items.get(&Symbol::from("Self")), Some(&own));
    let aliased = vec![ShadowItem::Use(module("std", "vector", Some("V"), true))];
    assert_eq!(items.get(&Symbol::from("V")), Some(&aliased));
    assert_eq!(items.get(&Symbol::from("length")), None);
}
