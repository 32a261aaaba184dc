use move_analyzer::algebra::{infer_type_on_expression, Substitution};
use move_analyzer::syntax::{Loc, Name, Spanned, Symbol};
use move_analyzer::types::{BuildInType, ResolvedType, ResolvedType_};

fn name(text: &str) -> Name {
    Spanned { loc: Loc::unknown(), value: Symbol::from(text) }
}

fn tparam(text: &str) -> ResolvedType {
    ResolvedType(Spanned { loc: Loc::unknown(), value: ResolvedType_::TParam(name(text), vec![]) })
}

fn u64_type() -> ResolvedType {
    ResolvedType::new_build_in(BuildInType::U64)
}

#[test]
fn repeated_parameter_binds_to_the_argument_type() {
    let mut types: Substitution = Substitution::new();
    let parameters = vec![tparam("T"), tparam("T")];
    let arguments = vec![u64_type(), u64_type()];
    infer_type_on_expression(&mut types, &vec![], &parameters, &arguments);
    assert_eq!(types.get(&Symbol::from("T")), Some(&u64_type()));
}

#[test]
fn mismatched_slot_binds_nothing() {
    let mut types: Substitution = Substitution::new();
    let parameters = vec![tparam("T"), ResolvedType::new_build_in(BuildInType::Bool)];
    let arguments = vec![u64_type(), u64_type()];
    infer_type_on_expression(&mut types, &vec![], &parameters, &arguments);
    assert_eq!(types.get(&Symbol::from("T")), Some(&u64_type()));
    assert_eq!(types.get(&Symbol::from("bool")), None);
}

#[test]
fn substitution_replaces_parameters_and_keeps_the_place() {
    let mut types: Substitution = Substitution::new();
    types.insert(Symbol::from("T"), u64_type());
    let place = Loc { file_hash: Loc::unknown().file_hash, start: 3, end: 9 };
    let mut t = ResolvedType(Spanned {
        loc: place,
        value: ResolvedType_::Multiple(vec![tparam("T"), tparam("U")]),
    });
    assert!(!t.has_applied_parameter());
    t.bind_type_parameter(&types);
    let expected = ResolvedType(Spanned {
        loc: place,
        value: ResolvedType_::Multiple(vec![u64_type(), tparam("U")]),
    });
    assert_eq!(t, expected);
}

fn applied() -> ResolvedType {
    ResolvedType(Spanned {
        loc: Loc::unknown(),
        value: ResolvedType_::ApplyTParam(Box::new(u64_type()), name("T"), vec![]),
    })
}

fn of(value: ResolvedType_) -> ResolvedType {
    ResolvedType(Spanned { loc: Loc::unknown(), value })
}

#[test]
fn a_type_that_holds_an_applied_parameter_is_not_substituted_into() {
    let types: Substitution = Substitution::new();
    let holders = vec![
        applied(),
        ResolvedType::new_ref(Loc::unknown(), false, applied()),
        of(ResolvedType_::Vec(Box::new(applied()))),
        of(ResolvedType_::Multiple(vec![u64_type(), applied()])),
        of(ResolvedType_::Struct(name("S"), vec![], vec![(name("f"), u64_type()), (name("g"), applied())])),
        of(ResolvedType_::Fun(vec![], vec![applied()], Box::new(u64_type()))),
        of(ResolvedType_::Fun(vec![], vec![u64_type()], Box::new(applied()))),
        of(ResolvedType_::Multiple(vec![of(ResolvedType_::Vec(Box::new(applied())))])),
    ];
    for t in holders {
        assert!(t.has_applied_parameter());
        assert_eq!(t.substituted(&types), None);
    }
}

#[test]
fn a_type_without_an_applied_parameter_is_substituted_into() {
    let mut types: Substitution = Substitution::new();
    types.insert(Symbol::from("T"), u64_type());
    let plain = vec![
        u64_type(),
        tparam("T"),
        ResolvedType::new_unit(Loc::unknown()),
        ResolvedType::new_unknown(Loc::unknown()),
        of(ResolvedType_::Multiple(vec![])),
        of(ResolvedType_::Struct(name("S"), vec![], vec![(name("f"), tparam("T"))])),
        of(ResolvedType_::Fun(vec![(name("T"), vec![])], vec![tparam("T")], Box::new(tparam("U")))),
    ];
    for mut t in plain {
        assert!(!t.has_applied_parameter());
        let expected = t.substituted(&types);
        t.bind_type_parameter(&types);
        assert_eq!(Some(t), expected);
    }
    let mut in_struct = of(ResolvedType_::Struct(name("S"), vec![], vec![(name("f"), tparam("T"))]));
    in_struct.bind_type_parameter(&types);
    assert_eq!(in_struct, of(ResolvedType_::Struct(name("S"), vec![], vec![(name("f"), u64_type())])));
}
