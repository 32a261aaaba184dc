use move_analyzer::evaluate::{get_call_type, get_pack_type};
use move_analyzer::item::Item;
use move_analyzer::modules::Modules;
use move_analyzer::scopes::Scopes;
use move_analyzer::syntax::{
    BinOp_, Exp, Exp_, ExternalNode, LeadingNameAccess_, Loc, Name, NameAccessChain,
    NameAccessChain_, NumericalAddress, Sequence, Spanned, StructTypeParameter, Symbol, Type,
    Type_, UnaryOp_, Value_,
};
use move_analyzer::types::{BuildInType, ResolvedType, ResolvedType_};

fn at(start: u32, end: u32) -> Loc {
    Loc { file_hash: Loc::unknown().file_hash, start, end }
}

fn sp<T>(value: T) -> Spanned<T> {
    Spanned { loc: Loc::unknown(), value }
}

fn name(text: &str) -> Name {
    sp(Symbol::from(text))
}

fn chain(text: &str) -> NameAccessChain {
    sp(NameAccessChain_::One(name(text)))
}

fn written(text: &str) -> Type {
    sp(Type_::Apply(Box::new(chain(text)), vec![]))
}

fn build_in(kind: BuildInType) -> ResolvedType {
    ResolvedType::new_build_in(kind)
}

fn unknown() -> ResolvedType {
    ResolvedType::new_unknown(Loc::unknown())
}

fn num(text: &str) -> Exp {
    sp(Exp_::Value(sp(Value_::Num(Symbol::from(text)))))
}

fn boolean(b: bool) -> Exp {
    sp(Exp_::Value(sp(Value_::Bool(b))))
}

fn named(text: &str) -> Exp {
    sp(Exp_::Name(chain(text), None))
}

fn moved(text: &str) -> Exp {
    sp(Exp_::Move(name(text)))
}

fn tparam(text: &str) -> ResolvedType {
    ResolvedType(sp(ResolvedType_::TParam(name(text), vec![])))
}

fn scopes() -> Scopes {
    let mut s = Scopes::new();
    s.enter_build_in();
    s.enter_scope();
    s.enter_item(Symbol::from("x"), Item::Parameter(name("x"), build_in(BuildInType::U64)));
    s.enter_item(
        Symbol::from("v"),
        Item::Parameter(
            name("v"),
            ResolvedType(sp(ResolvedType_::Vec(Box::new(build_in(BuildInType::U8))))),
        ),
    );
    s.enter_item(
        Symbol::from("p"),
        Item::Parameter(
            name("p"),
            ResolvedType(sp(ResolvedType_::Struct(
                name("P"),
                vec![],
                vec![(name("a"), build_in(BuildInType::Bool)), (name("b"), build_in(BuildInType::U8))],
            ))),
        ),
    );
    s.enter_item(
        Symbol::from("S"),
        Item::Struct(
            Spanned { loc: at(40, 41), value: Symbol::from("S") },
            vec![StructTypeParameter { is_phantom: false, name: name("T"), constraints: vec![] }],
            vec![(name("f"), tparam("T"))],
        ),
    );
    s
}

fn type_of(e: &Exp) -> ResolvedType {
    Modules::new().get_expr_type(e, &scopes())
}

#[test]
fn literals_have_their_primitive_types() {
    let address = sp(Exp_::Value(sp(Value_::Address(sp(LeadingNameAccess_::AnonymousAddress(
        NumericalAddress { value: 1 },
    ))))));
    assert_eq!(type_of(&address), build_in(BuildInType::Address));
    assert_eq!(type_of(&num("7")), build_in(BuildInType::NumType));
    assert_eq!(type_of(&boolean(true)), build_in(BuildInType::Bool));
    let hex = sp(Exp_::Value(sp(Value_::HexString(Symbol::from("ff")))));
    assert_eq!(type_of(&hex), build_in(BuildInType::String));
    let bytes = sp(Exp_::Value(sp(Value_::ByteString(Symbol::from("ab")))));
    assert_eq!(type_of(&bytes), build_in(BuildInType::String));
}

#[test]
fn a_moved_or_copied_variable_has_the_type_of_its_parameter() {
    assert_eq!(type_of(&moved("x")), build_in(BuildInType::U64));
    assert_eq!(type_of(&sp(Exp_::Copy(name("x")))), build_in(BuildInType::U64));
    assert_eq!(type_of(&moved("nothing")), unknown());
    assert_eq!(type_of(&named("x")), unknown());
}

#[test]
fn a_macro_call_is_unit_at_the_place_of_its_name() {
    let callee = Spanned { loc: at(3, 9), value: NameAccessChain_::One(name("assert")) };
    let call = sp(Exp_::Call(callee, true, None, sp(vec![boolean(true)])));
    assert_eq!(type_of(&call), ResolvedType::new_unit(at(3, 9)));
    let other = sp(Exp_::Call(chain("other"), true, None, sp(vec![])));
    assert_eq!(type_of(&other), unknown());
    let function = sp(Exp_::Call(chain("assert"), false, None, sp(vec![])));
    assert_eq!(type_of(&function), unknown());
}

#[test]
fn a_call_returns_the_return_type_after_substitution() {
    let identity = ResolvedType(sp(ResolvedType_::Fun(
        vec![(name("T"), vec![])],
        vec![tparam("T")],
        Box::new(ResolvedType::new_ref(at(1, 2), false, tparam("T"))),
    )));
    let inferred = get_call_type(&identity, None, &vec![build_in(BuildInType::U64)]);
    assert_eq!(inferred, ResolvedType::new_ref(at(1, 2), false, build_in(BuildInType::U64)));
    let explicit = get_call_type(
        &identity,
        Some(&vec![build_in(BuildInType::Bool)]),
        &vec![build_in(BuildInType::U64)],
    );
    assert_eq!(explicit, ResolvedType::new_ref(at(1, 2), false, build_in(BuildInType::Bool)));
    let nothing_to_go_by = get_call_type(&identity, None, &vec![]);
    assert_eq!(nothing_to_go_by, ResolvedType::new_ref(at(1, 2), false, tparam("T")));
    assert_eq!(get_call_type(&build_in(BuildInType::U8), None, &vec![]), unknown());
}

#[test]
fn a_call_of_a_function_type_that_was_applied_before_is_unknown() {
    let applied = ResolvedType(sp(ResolvedType_::ApplyTParam(
        Box::new(build_in(BuildInType::U8)),
        name("T"),
        vec![],
    )));
    let fun = ResolvedType(sp(ResolvedType_::Fun(vec![], vec![], Box::new(applied))));
    assert_eq!(get_call_type(&fun, None, &vec![]), unknown());
}

#[test]
fn a_struct_literal_has_the_struct_type_with_its_arguments() {
    let pack = sp(Exp_::Pack(chain("S"), Some(vec![written("u64")]), vec![(name("f"), num("1"))]));
    let expected = ResolvedType(Spanned {
        loc: at(40, 41),
        value: ResolvedType_::Struct(
            Spanned { loc: at(40, 41), value: Symbol::from("S") },
            vec![StructTypeParameter { is_phantom: false, name: name("T"), constraints: vec![] }],
            vec![(name("f"), build_in(BuildInType::U64))],
        ),
    });
    assert_eq!(type_of(&pack), expected);
    let plain = sp(Exp_::Pack(chain("S"), None, vec![]));
    let unchanged = ResolvedType(Spanned {
        loc: at(40, 41),
        value: ResolvedType_::Struct(
            Spanned { loc: at(40, 41), value: Symbol::from("S") },
            vec![StructTypeParameter { is_phantom: false, name: name("T"), constraints: vec![] }],
            vec![(name("f"), tparam("T"))],
        ),
    });
    assert_eq!(type_of(&plain), unchanged);
    let missing = sp(Exp_::Pack(chain("Missing"), None, vec![]));
    assert_eq!(type_of(&missing), unknown());
    assert_eq!(get_pack_type(&build_in(BuildInType::U8), None), unknown());
}

#[test]
fn a_vector_literal_takes_its_annotation_or_its_first_known_element() {
    let annotated = sp(Exp_::Vector(at(0, 6), Some(vec![written("u8")]), sp(vec![boolean(true)])));
    assert_eq!(type_of(&annotated), build_in(BuildInType::U8));
    let by_element =
        sp(Exp_::Vector(at(0, 6), None, sp(vec![named("x"), boolean(true), num("1")])));
    assert_eq!(type_of(&by_element), build_in(BuildInType::Bool));
    let empty = sp(Exp_::Vector(at(0, 6), None, sp(vec![])));
    assert_eq!(type_of(&empty), ResolvedType::new_unknown(at(0, 6)));
    let bad = sp(Exp_::Vector(at(0, 6), Some(vec![written("Missing")]), sp(vec![num("1")])));
    assert_eq!(type_of(&bad), build_in(BuildInType::NumType));
    let bad_and_empty = sp(Exp_::Vector(at(0, 6), Some(vec![written("Missing")]), sp(vec![])));
    let failure = ResolvedType(sp(ResolvedType_::ResolvedFailed(Type_::Apply(
        Box::new(chain("Missing")),
        vec![],
    ))));
    assert_eq!(type_of(&bad_and_empty), failure);
}

#[test]
fn a_conditional_falls_back_to_its_second_branch() {
    let first = sp(Exp_::IfElse(
        Box::new(boolean(true)),
        Box::new(num("1")),
        Some(Box::new(boolean(false))),
    ));
    assert_eq!(type_of(&first), build_in(BuildInType::NumType));
    let second = sp(Exp_::IfElse(
        Box::new(boolean(true)),
        Box::new(named("x")),
        Some(Box::new(boolean(false))),
    ));
    assert_eq!(type_of(&second), build_in(BuildInType::Bool));
    let alone = sp(Exp_::IfElse(Box::new(boolean(true)), Box::new(named("x")), None));
    assert_eq!(type_of(&alone), unknown());
}

#[test]
fn control_flow_is_unit_at_its_own_place() {
    let place = at(10, 20);
    let forms = vec![
        Exp_::While(Box::new(boolean(true)), Box::new(num("1"))),
        Exp_::Loop(Box::new(num("1"))),
        Exp_::Unit,
        Exp_::Assign(Box::new(named("x")), Box::new(num("1"))),
        Exp_::Return(None),
        Exp_::Abort(Box::new(num("1"))),
        Exp_::Break,
        Exp_::Continue,
    ];
    for value in forms {
        assert_eq!(type_of(&Spanned { loc: place, value }), ResolvedType::new_unit(place));
    }
}

#[test]
fn forms_without_a_rule_are_unknown_at_their_own_place() {
    let place = at(10, 20);
    let block = Sequence { uses: vec![], items: vec![], semicolon: None, tail: Some(Box::new(num("1"))) };
    let forms = vec![
        Exp_::Block(block),
        Exp_::Lambda(ExternalNode { id: 0 }),
        Exp_::Quant(ExternalNode { id: 1 }),
        Exp_::ExpList(vec![num("1")]),
        Exp_::Spec(ExternalNode { id: 2 }),
        Exp_::UnresolvedError,
        Exp_::BinopExp(Box::new(boolean(true)), sp(BinOp_::And), Box::new(boolean(true))),
        Exp_::BinopExp(Box::new(boolean(true)), sp(BinOp_::Or), Box::new(boolean(true))),
        Exp_::BinopExp(Box::new(num("1")), sp(BinOp_::Range), Box::new(num("2"))),
        Exp_::BinopExp(Box::new(boolean(true)), sp(BinOp_::Implies), Box::new(boolean(true))),
        Exp_::BinopExp(Box::new(boolean(true)), sp(BinOp_::Iff), Box::new(boolean(true))),
    ];
    for value in forms {
        assert_eq!(type_of(&Spanned { loc: place, value }), ResolvedType::new_unknown(place));
    }
}

#[test]
fn references_are_added_and_taken_off() {
    let place = at(2, 5);
    let borrow = Spanned { loc: place, value: Exp_::Borrow(true, Box::new(moved("x"))) };
    assert_eq!(type_of(&borrow), ResolvedType::new_ref(place, true, build_in(BuildInType::U64)));
    let back = sp(Exp_::Dereference(Box::new(Spanned {
        loc: place,
        value: Exp_::Borrow(false, Box::new(moved("x"))),
    })));
    assert_eq!(type_of(&back), build_in(BuildInType::U64));
    let plain = sp(Exp_::Dereference(Box::new(moved("x"))));
    assert_eq!(type_of(&plain), build_in(BuildInType::U64));
    let not = sp(Exp_::UnaryExp(sp(UnaryOp_::Not), Box::new(boolean(true))));
    assert_eq!(type_of(&not), build_in(BuildInType::Bool));
}

#[test]
fn arithmetic_takes_the_left_type_unless_it_is_erroneous() {
    let ops = [
        BinOp_::Add,
        BinOp_::Sub,
        BinOp_::Mul,
        BinOp_::Mod,
        BinOp_::Div,
        BinOp_::BitOr,
        BinOp_::BitAnd,
        BinOp_::Xor,
        BinOp_::Shl,
        BinOp_::Shr,
    ];
    for op in ops {
        let left = sp(Exp_::BinopExp(Box::new(moved("x")), sp(op), Box::new(num("1"))));
        assert_eq!(type_of(&left), build_in(BuildInType::U64));
        let right = sp(Exp_::BinopExp(Box::new(named("x")), sp(op), Box::new(num("1"))));
        assert_eq!(type_of(&right), build_in(BuildInType::NumType));
    }
}

#[test]
fn comparisons_are_bool() {
    for op in [BinOp_::Eq, BinOp_::Neq, BinOp_::Lt, BinOp_::Gt, BinOp_::Le, BinOp_::Ge] {
        let e = sp(Exp_::BinopExp(Box::new(named("a")), sp(op), Box::new(named("b"))));
        assert_eq!(type_of(&e), build_in(BuildInType::Bool));
    }
}

#[test]
fn field_access_and_indexing_look_into_the_operand_type() {
    let field = sp(Exp_::Dot(Box::new(moved("p")), name("b")));
    assert_eq!(type_of(&field), build_in(BuildInType::U8));
    let no_such_field = sp(Exp_::Dot(Box::new(moved("x")), name("b")));
    assert_eq!(type_of(&no_such_field), build_in(BuildInType::U64));
    let element = sp(Exp_::Index(Box::new(moved("v")), Box::new(num("0"))));
    assert_eq!(type_of(&element), build_in(BuildInType::U8));
    let no_vector = sp(Exp_::Index(Box::new(moved("x")), Box::new(num("0"))));
    assert_eq!(type_of(&no_vector), build_in(BuildInType::U64));
}

#[test]
fn cast_and_annotation_have_the_written_type() {
    let cast = sp(Exp_::Cast(Box::new(num("1")), written("u128")));
    assert_eq!(type_of(&cast), build_in(BuildInType::U128));
    let annotate = sp(Exp_::Annotate(Box::new(num("1")), written("u8")));
    assert_eq!(type_of(&annotate), build_in(BuildInType::U8));
}
