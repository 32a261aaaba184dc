use move_analyzer::algebra::option_ty_is_valid;
use move_analyzer::collect::Collector;
use move_analyzer::item::{get_name_from_value, Item, MacroCall};
use move_analyzer::modules::Modules;
use move_analyzer::scopes::{Scopes, Wanted};
use move_analyzer::syntax::{
    clone_exp, clone_type, Ability_, BinOp_, Bind_, Exp, Exp_, LeadingNameAccess_, Loc, Name,
    NameAccessChain, NameAccessChain_, NumericalAddress, Sequence, SequenceItem_, Spanned,
    StructTypeParameter, Symbol, Type, Type_, Use, UseDecl, Value_,
};
use move_analyzer::types::{BuildInType, ResolvedType, ResolvedType_};
use move_analyzer::visitor::ScopeVisitor;

fn at(start: u32, end: u32) -> Loc {
    Loc { file_hash: Loc::unknown().file_hash, start, end }
}

fn sp<T>(value: T) -> Spanned<T> {
    Spanned { loc: Loc::unknown(), value }
}

fn name(text: &str) -> Name {
    sp(Symbol::from(text))
}

fn chain(text: &str) -> NameAccessChain {
    sp(NameAccessChain_::One(name(text)))
}

fn build_in(kind: BuildInType) -> ResolvedType {
    ResolvedType::new_build_in(kind)
}

#[test]
fn a_symbol_is_its_text() {
    let s = Symbol::from("coin");
    assert_eq!(s.as_str(), "coin");
    assert!(s.is("coin"));
    assert!(!s.is("Coin"));
    assert!(s.same(&Symbol::from("coin")));
    assert!(!s.same(&Symbol::from("coins")));
    assert_eq!(s.clone(), s);
}

#[test]
fn the_unknown_place_is_no_file_from_zero_to_zero() {
    let l = Loc::unknown();
    assert_eq!((l.file_hash().high, l.file_hash().low, l.start, l.end), (0, 0, 0, 0));
}

#[test]
fn only_assert_is_a_macro() {
    assert!(MacroCall::is_macro_symbol(&Symbol::from("assert")));
    assert_eq!(MacroCall::from_symbol(&Symbol::from("assert")), MacroCall::Assert);
    assert!(!MacroCall::is_macro_symbol(&Symbol::from("Assert")));
    assert!(!MacroCall::is_macro_symbol(&Symbol::from("")));
    assert!(MacroCall::is_macro_chain(&chain("assert")));
    assert_eq!(MacroCall::from_chain(&chain("assert")), MacroCall::Assert);
    assert!(!MacroCall::is_macro_chain(&chain("abort")));
    let two = sp(NameAccessChain_::Two(sp(LeadingNameAccess_::Name(name("m"))), name("assert")));
    assert!(!MacroCall::is_macro_chain(&two));
    let three = sp(NameAccessChain_::Three(
        sp((sp(LeadingNameAccess_::Name(name("a"))), name("m"))),
        name("assert"),
    ));
    assert!(!MacroCall::is_macro_chain(&three));
}

#[test]
fn five_names_are_primitive_types() {
    let known = [
        ("u8", BuildInType::U8),
        ("u64", BuildInType::U64),
        ("u128", BuildInType::U128),
        ("bool", BuildInType::Bool),
        ("address", BuildInType::Address),
    ];
    for (text, kind) in known {
        assert_eq!(BuildInType::from_symbol(&Symbol::from(text)), Some(kind));
    }
    for text in ["u16", "string", "signer", "U8", ""] {
        assert_eq!(BuildInType::from_symbol(&Symbol::from(text)), None);
    }
}

#[test]
fn only_type_level_items_denote_a_type() {
    let t = Item::TParam(Spanned { loc: at(1, 2), value: Symbol::from("T") }, vec![sp(Ability_::Copy)]);
    let expected = ResolvedType(Spanned {
        loc: at(1, 2),
        value: ResolvedType_::TParam(
            Spanned { loc: at(1, 2), value: Symbol::from("T") },
            vec![sp(Ability_::Copy)],
        ),
    });
    assert_eq!(t.to_type(), Some(expected));
    let parameter = StructTypeParameter { is_phantom: true, name: name("T"), constraints: vec![] };
    let s = Item::Struct(
        Spanned { loc: at(3, 4), value: Symbol::from("S") },
        vec![parameter],
        vec![(name("f"), build_in(BuildInType::U8))],
    );
    let parameter = StructTypeParameter { is_phantom: true, name: name("T"), constraints: vec![] };
    let expected = ResolvedType(Spanned {
        loc: at(3, 4),
        value: ResolvedType_::Struct(
            Spanned { loc: at(3, 4), value: Symbol::from("S") },
            vec![parameter],
            vec![(name("f"), build_in(BuildInType::U8))],
        ),
    });
    assert_eq!(s.to_type(), Some(expected));
    assert_eq!(Item::BuildInType(BuildInType::Bool).to_type(), Some(build_in(BuildInType::Bool)));
    let others = vec![
        Item::Parameter(name("x"), build_in(BuildInType::U8)),
        Item::ImportUse(Box::new(Item::BuildInType(BuildInType::U8))),
        Item::ExprVar(name("x")),
        Item::NameAccessChain(chain("x")),
        Item::ExprAddressName(name("a")),
        Item::FieldInitialization(name("f"), build_in(BuildInType::U8)),
        Item::AccessFiled(name("f"), build_in(BuildInType::U8)),
        Item::KeyWords("break"),
        Item::MacroCall(MacroCall::Assert),
        Item::ApplyType(sp(Type_::Unit)),
    ];
    for item in others {
        assert_eq!(item.to_type(), None);
        assert_eq!(item.clone(), item);
    }
}

#[test]
fn only_a_named_address_value_has_a_name() {
    let with_name = sp(Value_::Address(sp(LeadingNameAccess_::Name(name("std")))));
    assert_eq!(get_name_from_value(&with_name), Some(&name("std")));
    let number = sp(Value_::Address(sp(LeadingNameAccess_::AnonymousAddress(NumericalAddress {
        value: 1,
    }))));
    assert_eq!(get_name_from_value(&number), None);
    assert_eq!(get_name_from_value(&sp(Value_::Num(Symbol::from("std")))), None);
    assert_eq!(get_name_from_value(&sp(Value_::Bool(true))), None);
}

#[test]
fn accessors_look_one_level_into_a_type() {
    let tuple = ResolvedType(sp(ResolvedType_::Multiple(vec![
        build_in(BuildInType::U8),
        build_in(BuildInType::Bool),
    ])));
    assert_eq!(tuple.nth_ty(0), Some(&build_in(BuildInType::U8)));
    assert_eq!(tuple.nth_ty(1), Some(&build_in(BuildInType::Bool)));
    assert_eq!(tuple.nth_ty(2), None);
    let record = ResolvedType(sp(ResolvedType_::Struct(
        name("S"),
        vec![],
        vec![
            (name("a"), build_in(BuildInType::U8)),
            (name("b"), build_in(BuildInType::Bool)),
            (name("a"), build_in(BuildInType::U64)),
        ],
    )));
    assert_eq!(record.nth_ty(1), Some(&build_in(BuildInType::Bool)));
    assert_eq!(record.nth_ty(3), None);
    assert_eq!(
        record.find_filed_by_name(&Symbol::from("a")),
        Some(&(name("a"), build_in(BuildInType::U8)))
    );
    assert_eq!(record.find_filed_by_name(&Symbol::from("c")), None);
    assert_eq!(tuple.find_filed_by_name(&Symbol::from("a")), None);
    assert_eq!(build_in(BuildInType::U8).nth_ty(0), None);
    let vector = ResolvedType(sp(ResolvedType_::Vec(Box::new(build_in(BuildInType::U8)))));
    assert_eq!(vector.is_vector(), Some(&build_in(BuildInType::U8)));
    assert_eq!(tuple.is_vector(), None);
}

#[test]
fn builders_and_predicates_agree() {
    let unknown = ResolvedType::new_unknown(at(1, 2));
    assert!(unknown.is_unknown() && unknown.is_err() && !unknown.is_resolved_failed());
    let failed = ResolvedType(sp(ResolvedType_::ResolvedFailed(Type_::Unit)));
    assert!(failed.is_resolved_failed() && failed.is_err() && !failed.is_unknown());
    let unit = ResolvedType::new_unit(at(1, 2));
    assert_eq!(unit, ResolvedType(Spanned { loc: at(1, 2), value: ResolvedType_::Unit }));
    assert!(!unit.is_err() && !unit.is_tparam() && !unit.is_fun());
    let bool_type = build_in(BuildInType::Bool);
    assert_eq!(bool_type, ResolvedType(sp(ResolvedType_::BuildInType(BuildInType::Bool))));
    let tparam = ResolvedType(sp(ResolvedType_::TParam(name("T"), vec![])));
    assert!(tparam.is_tparam() && !tparam.is_fun());
    let fun = ResolvedType(sp(ResolvedType_::Fun(vec![], vec![], Box::new(unit.clone()))));
    assert!(fun.is_fun() && !fun.is_tparam());
    let many = ResolvedType::new_multi(at(5, 6), bool_type.clone(), 3);
    let expected = ResolvedType(Spanned {
        loc: at(5, 6),
        value: ResolvedType_::Multiple(vec![bool_type.clone(), bool_type.clone(), bool_type.clone()]),
    });
    assert_eq!(many, expected);
    assert_eq!(
        ResolvedType::new_multi(at(5, 6), bool_type.clone(), 0),
        ResolvedType(Spanned { loc: at(5, 6), value: ResolvedType_::Multiple(vec![]) })
    );
    assert!(option_ty_is_valid(&Some(bool_type)));
    assert!(!option_ty_is_valid(&Some(unknown)));
    assert!(!option_ty_is_valid(&Some(failed)));
    assert!(!option_ty_is_valid(&None));
}

#[test]
fn a_copy_of_a_tree_is_equal_to_it() {
    let block = Sequence {
        uses: vec![UseDecl {
            use_: Use::Members(
                sp(move_analyzer::syntax::ModuleIdent_ {
                    address: sp(LeadingNameAccess_::Name(name("std"))),
                    module: name("vector"),
                }),
                vec![(name("empty"), None), (name("length"), Some(name("len")))],
            ),
        }],
        items: vec![
            sp(SequenceItem_::Declare(sp(vec![sp(Bind_::Var(name("a")))]), Some(sp(Type_::Unit)))),
            sp(SequenceItem_::Bind(
                sp(vec![sp(Bind_::Unpack(
                    Box::new(chain("S")),
                    Some(vec![sp(Type_::Unit)]),
                    vec![(name("f"), sp(Bind_::Var(name("x"))))],
                ))]),
                None,
                Box::new(sp(Exp_::Unit)),
            )),
        ],
        semicolon: Some(at(7, 8)),
        tail: Some(Box::new(sp(Exp_::BinopExp(
            Box::new(sp(Exp_::Pack(chain("S"), None, vec![(name("f"), sp(Exp_::Break))]))),
            Spanned { loc: at(3, 4), value: BinOp_::Shl },
            Box::new(sp(Exp_::Vector(at(1, 2), Some(vec![]), sp(vec![sp(Exp_::Continue)])))),
        )))),
    };
    let e: Exp = Spanned { loc: at(0, 99), value: Exp_::Block(block) };
    assert_eq!(clone_exp(&e), e);
    let t: Type = sp(Type_::Fun(
        vec![sp(Type_::Ref(true, Box::new(sp(Type_::Apply(Box::new(chain("T")), vec![])))))],
        Box::new(sp(Type_::Multiple(vec![sp(Type_::Unit)]))),
    ));
    assert_eq!(clone_type(&t), t);
}

#[test]
fn a_collector_is_finished_at_its_limit() {
    let scopes = Scopes::new();
    let mut c = Collector::new(Some(2));
    assert!(!c.finished());
    c.handle_item(&scopes, &Item::KeyWords("break"));
    assert!(!c.finished());
    c.handle_item(&scopes, &Item::KeyWords("continue"));
    assert!(c.finished());
    assert_eq!(c.items(), &vec![Item::KeyWords("break"), Item::KeyWords("continue")]);
    assert!(c.file_should_visit(Loc::unknown().file_hash));
    assert!(Collector::new(Some(0)).finished());
    let mut never = Collector::new(None);
    never.handle_item(&scopes, &Item::KeyWords("break"));
    assert!(!never.finished());
}

#[test]
fn a_struct_pattern_is_passed_over() {
    let modules = Modules::new();
    let mut scopes = Scopes::new();
    let mut visitor = Collector::new(None);
    let unpack = sp(Bind_::Unpack(
        Box::new(chain("S")),
        None,
        vec![(name("f"), sp(Bind_::Var(name("x"))))],
    ));
    let unknown = ResolvedType::new_unknown(Loc::unknown());
    modules.visit_bind(&unpack, &unknown, &mut scopes, None, &mut visitor);
    assert_eq!(visitor.items().len(), 0);
    assert_eq!(scopes.innermost(&Symbol::from("x"), Wanted::Any), None);
    let again = sp(Bind_::Unpack(Box::new(chain("S")), None, vec![]));
    let declare = sp(SequenceItem_::Declare(
        sp(vec![sp(Bind_::Var(name("a"))), again, sp(Bind_::Var(name("b")))]),
        None,
    ));
    modules.visit_sequence_item(&declare, &mut scopes, &mut visitor);
    assert_eq!(visitor.items(), &vec![Item::ExprVar(name("a")), Item::ExprVar(name("b"))]);
    assert_eq!(scopes.innermost(&Symbol::from("b"), Wanted::Any), Some(&Item::ExprVar(name("b"))));
}

#[test]
fn the_type_of_the_bound_side_is_the_written_one_first() {
    let modules = Modules::new();
    let mut scopes = Scopes::new();
    scopes.enter_build_in();
    let list = Spanned { loc: at(4, 9), value: vec![sp(Bind_::Var(name("a")))] };
    let written: Type = sp(Type_::Apply(Box::new(chain("u8")), vec![]));
    let bound = Box::new(sp(Exp_::Value(sp(Value_::Bool(true)))));
    assert_eq!(
        modules.get_bind_list_type(&list, &Some(written), Some(&bound), &scopes),
        build_in(BuildInType::U8)
    );
    assert_eq!(
        modules.get_bind_list_type(&list, &None, Some(&bound), &scopes),
        build_in(BuildInType::Bool)
    );
    assert_eq!(
        modules.get_bind_list_type(&list, &None, None, &scopes),
        ResolvedType::new_unknown(at(4, 9))
    );
}
