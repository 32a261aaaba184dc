use move_analyzer::item::Item;
use move_analyzer::scopes::{Scopes, Wanted};
use move_analyzer::syntax::{
    LeadingNameAccess_, Loc, ModuleIdent_, Name, NameAccessChain, NameAccessChain_,
    NumericalAddress, Spanned, Symbol, Type, Type_,
};
use move_analyzer::table::Table;
use move_analyzer::types::{BuildInType, ResolvedType, ResolvedType_};

fn at(start: u32, end: u32) -> Loc {
    Loc { file_hash: Loc::unknown().file_hash, start, end }
}

fn name(text: &str) -> Name {
    Spanned { loc: Loc::unknown(), value: Symbol::from(text) }
}

fn one(text: &str, loc: Loc) -> NameAccessChain {
    Spanned { loc, value: NameAccessChain_::One(name(text)) }
}

fn u64_type() -> ResolvedType {
    ResolvedType::new_build_in(BuildInType::U64)
}

fn struct_item(text: &str) -> Item {
    Item::Struct(name(text), vec![], vec![(name("f"), u64_type())])
}

fn struct_type(text: &str) -> ResolvedType {
    ResolvedType(Spanned {
        loc: Loc::unknown(),
        value: ResolvedType_::Struct(name(text), vec![], vec![(name("f"), u64_type())]),
    })
}

#[test]
fn xxxx() {
    let mut s = Scopes::new();
    s.enter_scope();
    s.enter_scope();
    s.enter_scope();
    assert_eq!(s.len(), 4);
    s.leave_scope();
    s.leave_scope();
    s.leave_scope();
    assert_eq!(s.len(), 1);
}

#[test]
fn the_bottom_frame_is_never_left() {
    let mut s = Scopes::new();
    s.leave_scope();
    assert_eq!(s.len(), 1);
    s.enter_scope();
    s.leave_scope();
    s.leave_scope();
    assert_eq!(s.len(), 1);
}

#[test]
fn an_inner_binding_hides_an_outer_one_until_its_scope_is_left() {
    let mut s = Scopes::new();
    s.enter_item(Symbol::from("x"), Item::Parameter(name("x"), u64_type()));
    s.enter_scope();
    let inner = ResolvedType::new_build_in(BuildInType::Bool);
    s.enter_item(Symbol::from("x"), Item::Parameter(name("x"), inner.clone()));
    assert_eq!(s.find_var_type(&Symbol::from("x")), inner);
    s.leave_scope();
    assert_eq!(s.find_var_type(&Symbol::from("x")), u64_type());
}

#[test]
fn a_variable_that_is_no_parameter_has_unknown_type() {
    let mut s = Scopes::new();
    s.enter_item(Symbol::from("x"), Item::ExprVar(name("x")));
    assert_eq!(s.find_var_type(&Symbol::from("x")), ResolvedType::new_unknown(Loc::unknown()));
    assert_eq!(s.find_var_type(&Symbol::from("y")), ResolvedType::new_unknown(Loc::unknown()));
}

#[test]
fn a_parameter_is_found_behind_a_local_of_the_same_name() {
    let mut s = Scopes::new();
    s.enter_item(Symbol::from("x"), Item::Parameter(name("x"), u64_type()));
    s.enter_scope();
    s.enter_item(Symbol::from("x"), Item::ExprVar(name("x")));
    assert_eq!(s.find_var_type(&Symbol::from("x")), u64_type());
}

#[test]
fn innermost_takes_only_what_is_wanted() {
    let mut s = Scopes::new();
    s.enter_item(Symbol::from("T"), struct_item("T"));
    s.enter_scope();
    s.enter_item(Symbol::from("T"), Item::ExprVar(name("T")));
    assert_eq!(s.innermost(&Symbol::from("T"), Wanted::Any), Some(&Item::ExprVar(name("T"))));
    assert_eq!(s.innermost(&Symbol::from("T"), Wanted::Type), Some(&struct_item("T")));
    assert_eq!(s.innermost(&Symbol::from("T"), Wanted::Parameter), None);
}

#[test]
fn build_in_names_are_bound_in_the_bottom_frame() {
    let mut s = Scopes::new();
    s.enter_scope();
    s.enter_build_in();
    s.leave_scope();
    let named: Table<NumericalAddress> = Table::new();
    for (text, kind) in [
        ("bool", BuildInType::Bool),
        ("u8", BuildInType::U8),
        ("u64", BuildInType::U64),
        ("u128", BuildInType::U128),
        ("address", BuildInType::Address),
    ] {
        let t = s.find_name_access_chain_type(&one(text, at(1, 2)), &named);
        assert_eq!(t, ResolvedType::new_build_in(kind));
    }
    let t = s.find_name_access_chain_type(&one("u256", at(1, 2)), &named);
    assert_eq!(t, ResolvedType::new_unknown(at(1, 2)));
}

#[test]
fn under_function_and_under_spec_follow_the_flags() {
    let mut s = Scopes::new();
    assert_eq!(s.under_function(), None);
    assert_eq!(s.under_spec(), None);
    s.enter_scope();
    s.setup_scope(true, false);
    s.enter_scope();
    assert_eq!(s.under_function(), Some(()));
    assert_eq!(s.under_spec(), None);
    s.setup_scope(false, true);
    assert_eq!(s.under_spec(), Some(()));
    s.leave_scope();
    s.leave_scope();
    assert_eq!(s.under_function(), None);
}

#[test]
fn a_member_is_found_by_address_module_and_name() {
    let a = NumericalAddress { value: 1 };
    let mut s = Scopes::new();
    s.enter_top_item(a, Symbol::from("M"), Symbol::from("S"), struct_item("S"));
    let mut named: Table<NumericalAddress> = Table::new();
    named.insert(Symbol::from("std"), a);
    let lead_number = Spanned { loc: Loc::unknown(), value: LeadingNameAccess_::AnonymousAddress(a) };
    let lead_name = Spanned { loc: Loc::unknown(), value: LeadingNameAccess_::Name(name("std")) };
    let lead_other = Spanned { loc: Loc::unknown(), value: LeadingNameAccess_::Name(name("other")) };
    let three = |lead, module: &str, member: &str| Spanned {
        loc: at(5, 9),
        value: NameAccessChain_::Three(
            Spanned { loc: Loc::unknown(), value: (lead, name(module)) },
            name(member),
        ),
    };
    assert_eq!(s.find_name_access_chain_type(&three(lead_number, "M", "S"), &named), struct_type("S"));
    assert_eq!(s.find_name_access_chain_type(&three(lead_name, "M", "S"), &named), struct_type("S"));
    let unknown = ResolvedType::new_unknown(at(5, 9));
    assert_eq!(s.find_name_access_chain_type(&three(lead_other, "M", "S"), &named), unknown);
    let lead_number = Spanned { loc: Loc::unknown(), value: LeadingNameAccess_::AnonymousAddress(a) };
    assert_eq!(s.find_name_access_chain_type(&three(lead_number, "N", "S"), &named), unknown);
    let lead_number = Spanned { loc: Loc::unknown(), value: LeadingNameAccess_::AnonymousAddress(a) };
    assert_eq!(s.find_name_access_chain_type(&three(lead_number, "M", "T"), &named), unknown);
}

#[test]
fn a_two_part_name_goes_through_the_binding_of_its_member_name() {
    let a = NumericalAddress { value: 7 };
    let mut s = Scopes::new();
    s.enter_top_item(a, Symbol::from("M"), Symbol::from("S"), struct_item("S"));
    let ident = Spanned {
        loc: Loc::unknown(),
        value: ModuleIdent_ {
            address: Spanned { loc: Loc::unknown(), value: LeadingNameAccess_::AnonymousAddress(a) },
            module: name("M"),
        },
    };
    let named: Table<NumericalAddress> = Table::new();
    let two = Spanned {
        loc: at(3, 4),
        value: NameAccessChain_::Two(
            Spanned { loc: Loc::unknown(), value: LeadingNameAccess_::Name(name("M")) },
            name("S"),
        ),
    };
    assert_eq!(s.find_name_access_chain_type(&two, &named), ResolvedType::new_unknown(at(3, 4)));
    s.enter_item(Symbol::from("S"), Item::ImportedUseModule(ident, a));
    assert_eq!(s.find_name_access_chain_type(&two, &named), struct_type("S"));
}

#[test]
fn entering_a_top_item_twice_keeps_the_later_one() {
    let a = NumericalAddress { value: 1 };
    let mut s = Scopes::new();
    s.enter_top_module(a, &Symbol::from("M"));
    s.enter_top_item(a, Symbol::from("M"), Symbol::from("S"), Item::ExprVar(name("S")));
    s.enter_top_item(a, Symbol::from("M"), Symbol::from("S"), struct_item("S"));
    s.enter_top_item(a, Symbol::from("M"), Symbol::from("T"), struct_item("T"));
    let named: Table<NumericalAddress> = Table::new();
    let three = |member: &str| Spanned {
        loc: Loc::unknown(),
        value: NameAccessChain_::Three(
            Spanned {
                loc: Loc::unknown(),
                value: (
                    Spanned { loc: Loc::unknown(), value: LeadingNameAccess_::AnonymousAddress(a) },
                    name("M"),
                ),
            },
            name(member),
        ),
    };
    assert_eq!(s.find_name_access_chain_type(&three("S"), &named), struct_type("S"));
    assert_eq!(s.find_name_access_chain_type(&three("T"), &named), struct_type("T"));
    assert_eq!(s.len(), 1);
}

#[test]
fn a_type_expression_resolves_part_by_part() {
    let mut s = Scopes::new();
    s.enter_build_in();
    let apply = |text: &str, loc: Loc| -> Type {
        Spanned { loc, value: Type_::Apply(Box::new(one(text, loc)), vec![]) }
    };
    let written: Type = Spanned {
        loc: at(0, 20),
        value: Type_::Multiple(vec![
            Spanned { loc: at(1, 5), value: Type_::Ref(true, Box::new(apply("u64", at(2, 5)))) },
            Spanned { loc: at(6, 8), value: Type_::Unit },
            Spanned {
                loc: at(9, 19),
                value: Type_::Fun(vec![apply("bool", at(10, 14))], Box::new(apply("u8", at(16, 18)))),
            },
        ]),
    };
    let expected = ResolvedType(Spanned {
        loc: at(0, 20),
        value: ResolvedType_::Multiple(vec![
            ResolvedType::new_ref(at(1, 5), true, u64_type()),
            ResolvedType::new_unit(at(6, 8)),
            ResolvedType(Spanned {
                loc: at(9, 19),
                value: ResolvedType_::Fun(
                    vec![],
                    vec![ResolvedType::new_build_in(BuildInType::Bool)],
                    Box::new(ResolvedType::new_build_in(BuildInType::U8)),
                ),
            }),
        ]),
    });
    assert_eq!(s.resolve_type(&written), expected);
}

#[test]
fn a_type_name_that_nothing_binds_keeps_its_syntax() {
    let s = Scopes::new();
    let chain = one("Missing", at(4, 11));
    let written: Type = Spanned {
        loc: at(4, 16),
        value: Type_::Apply(
            Box::new(one("Missing", at(4, 11))),
            vec![Spanned { loc: at(12, 15), value: Type_::Unit }],
        ),
    };
    let expected = ResolvedType(Spanned {
        loc: at(4, 11),
        value: ResolvedType_::ResolvedFailed(Type_::Apply(Box::new(chain), vec![])),
    });
    assert_eq!(s.resolve_type(&written), expected);
}

#[test]
fn a_type_name_resolves_to_the_innermost_binding() {
    let mut s = Scopes::new();
    s.enter_item(Symbol::from("T"), struct_item("T"));
    assert_eq!(s.resolve_name_access_chain_type(&one("T", at(1, 2))), struct_type("T"));
    s.enter_scope();
    s.enter_item(Symbol::from("T"), Item::TParam(name("T"), vec![]));
    let parameter = ResolvedType(Spanned {
        loc: Loc::unknown(),
        value: ResolvedType_::TParam(name("T"), vec![]),
    });
    assert_eq!(s.resolve_name_access_chain_type(&one("T", at(1, 2))), parameter);
    s.enter_scope();
    assert_eq!(s.resolve_name_access_chain_type(&one("T", at(1, 2))), parameter);
    s.leave_scope();
    s.leave_scope();
    assert_eq!(s.resolve_name_access_chain_type(&one("T", at(1, 2))), struct_type("T"));
    s.enter_item(Symbol::from("v"), Item::ExprVar(name("v")));
    assert_eq!(
        s.resolve_name_access_chain_type(&one("v", at(1, 2))),
        ResolvedType::new_unknown(at(1, 2))
    );
}
