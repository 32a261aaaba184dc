use move_analyzer::generate::{
    generate_fun_spec, genrate_struct_spec, indent, FunSpecGenerator, FunctionText,
    StructSpecGenerator,
};
use move_analyzer::syntax::{
    BinOp_, Bind_, Exp, Exp_, ExternalNode, Function, FunctionBody_, FunctionSignature, Loc, Name,
    NameAccessChain, NameAccessChain_, Sequence, SequenceItem, SequenceItem_, Spanned,
    StructDefinition, StructFields, Symbol, Type, Type_, UnaryOp_, Value_,
};

fn at(start: u32, end: u32) -> Loc {
    Loc { file_hash: Loc::unknown().file_hash, start, end }
}

fn sp<T>(value: T) -> Spanned<T> {
    Spanned { loc: Loc::unknown(), value }
}

fn name(text: &str) -> Name {
    sp(Symbol::from(text))
}

fn chain(text: &str) -> NameAccessChain {
    sp(NameAccessChain_::One(name(text)))
}

fn named(text: &str) -> Exp {
    sp(Exp_::Name(chain(text), None))
}

fn num(text: &str) -> Exp {
    sp(Exp_::Value(sp(Value_::Num(Symbol::from(text)))))
}

fn binop(l: Exp, op: BinOp_, r: Exp) -> Exp {
    sp(Exp_::BinopExp(Box::new(l), sp(op), Box::new(r)))
}

fn assertion(args: Vec<Exp>) -> Exp {
    sp(Exp_::Call(chain("assert"), true, None, sp(args)))
}

fn statement(e: Exp) -> SequenceItem {
    sp(SequenceItem_::Expr(Box::new(e)))
}

fn written(text: &str) -> Type {
    sp(Type_::Apply(Box::new(chain(text)), vec![]))
}

fn function(parameters: Vec<(Name, Type)>, return_type: Type, body: FunctionBody_) -> Function {
    Function {
        loc: Loc::unknown(),
        signature: FunctionSignature { type_parameters: vec![], parameters, return_type },
        name: name("f"),
        body: sp(body),
    }
}

fn with_body(items: Vec<SequenceItem>, tail: Option<Exp>) -> Function {
    function(
        vec![],
        sp(Type_::Unit),
        FunctionBody_::Defined(Sequence {
            uses: vec![],
            items,
            semicolon: None,
            tail: tail.map(Box::new),
        }),
    )
}

fn text(parameter_types: &[&str], return_type: &str, conditions: &[&str]) -> FunctionText {
    FunctionText {
        parameter_types: parameter_types.iter().map(|s| s.to_string()).collect(),
        return_type: return_type.to_string(),
        conditions: conditions.iter().map(|s| s.to_string()).collect(),
    }
}

#[test]
fn equality_and_inequality_invert_to_each_other() {
    let pairs = [
        (BinOp_::Eq, BinOp_::Neq),
        (BinOp_::Neq, BinOp_::Eq),
        (BinOp_::Lt, BinOp_::Ge),
        (BinOp_::Ge, BinOp_::Lt),
        (BinOp_::Gt, BinOp_::Le),
        (BinOp_::Le, BinOp_::Gt),
    ];
    for (op, complement) in pairs {
        let e = binop(named("a"), op, named("b"));
        assert_eq!(FunSpecGenerator::inverse_expression(&e), Ok(binop(named("a"), complement, named("b"))));
    }
}

#[test]
fn a_comparison_keeps_its_places_when_inverted() {
    let e = Spanned {
        loc: at(1, 9),
        value: Exp_::BinopExp(
            Box::new(named("a")),
            Spanned { loc: at(3, 5), value: BinOp_::Lt },
            Box::new(named("b")),
        ),
    };
    let expected = Spanned {
        loc: at(1, 9),
        value: Exp_::BinopExp(
            Box::new(named("a")),
            Spanned { loc: at(3, 5), value: BinOp_::Ge },
            Box::new(named("b")),
        ),
    };
    assert_eq!(FunSpecGenerator::inverse_expression(&e), Ok(expected));
}

#[test]
fn a_negation_inverts_to_its_operand() {
    let e = sp(Exp_::UnaryExp(sp(UnaryOp_::Not), Box::new(named("e"))));
    assert_eq!(FunSpecGenerator::inverse_expression(&e), Ok(named("e")));
}

#[test]
fn names_calls_and_accesses_are_negated_at_their_own_place() {
    let place = at(4, 8);
    let forms = vec![
        Exp_::Name(chain("c"), None),
        Exp_::Call(chain("f"), false, None, sp(vec![])),
        Exp_::Dereference(Box::new(named("r"))),
        Exp_::Dot(Box::new(named("s")), name("flag")),
        Exp_::Index(Box::new(named("v")), Box::new(num("0"))),
    ];
    for value in forms {
        let placed = |value| Spanned { loc: place, value };
        let copy = match &value {
            Exp_::Name(_, _) => Exp_::Name(chain("c"), None),
            Exp_::Call(_, _, _, _) => Exp_::Call(chain("f"), false, None, sp(vec![])),
            Exp_::Dereference(_) => Exp_::Dereference(Box::new(named("r"))),
            Exp_::Dot(_, _) => Exp_::Dot(Box::new(named("s")), name("flag")),
            _ => Exp_::Index(Box::new(named("v")), Box::new(num("0"))),
        };
        let expected = Spanned {
            loc: place,
            value: Exp_::UnaryExp(
                Spanned { loc: place, value: UnaryOp_::Not },
                Box::new(placed(copy)),
            ),
        };
        assert_eq!(FunSpecGenerator::inverse_expression(&placed(value)), Ok(expected));
    }
}

#[test]
fn a_struct_literal_and_other_forms_have_no_complement() {
    let forms = vec![
        Exp_::Pack(chain("S"), None, vec![]),
        Exp_::Vector(Loc::unknown(), None, sp(vec![])),
        Exp_::Value(sp(Value_::Bool(true))),
        Exp_::Move(name("x")),
        Exp_::Copy(name("x")),
        Exp_::Name(chain("x"), Some(vec![])),
        Exp_::IfElse(Box::new(named("c")), Box::new(named("a")), None),
        Exp_::While(Box::new(named("c")), Box::new(named("a"))),
        Exp_::Loop(Box::new(named("a"))),
        Exp_::Block(Sequence { uses: vec![], items: vec![], semicolon: None, tail: None }),
        Exp_::Lambda(ExternalNode { id: 0 }),
        Exp_::Quant(ExternalNode { id: 0 }),
        Exp_::ExpList(vec![]),
        Exp_::Unit,
        Exp_::Assign(Box::new(named("a")), Box::new(named("b"))),
        Exp_::Return(None),
        Exp_::Abort(Box::new(num("1"))),
        Exp_::Break,
        Exp_::Continue,
        Exp_::Borrow(false, Box::new(named("a"))),
        Exp_::Cast(Box::new(named("a")), written("u8")),
        Exp_::Annotate(Box::new(named("a")), written("u8")),
        Exp_::Spec(ExternalNode { id: 0 }),
        Exp_::UnresolvedError,
        Exp_::BinopExp(Box::new(named("a")), sp(BinOp_::Add), Box::new(named("b"))),
        Exp_::BinopExp(Box::new(named("a")), sp(BinOp_::And), Box::new(named("b"))),
    ];
    for value in forms {
        assert_eq!(FunSpecGenerator::inverse_expression(&sp(value)), Err(()));
    }
}

#[test]
fn one_assertion_gives_one_clause() {
    let f = with_body(vec![statement(assertion(vec![binop(named("x"), BinOp_::Gt, num("0"))]))], None);
    let conditions = FunSpecGenerator::abort_conditions(&f);
    assert_eq!(conditions, vec![binop(named("x"), BinOp_::Le, num("0"))]);
    let rendered = generate_fun_spec(&f, &text(&[], "", &["x <= 0"]));
    assert_eq!(rendered, Some("    spec f(){\n\n        aborts_if x <= 0;\n    }\n".to_string()));
}

#[test]
fn two_assertions_give_two_clauses_in_order() {
    let f = with_body(
        vec![
            statement(assertion(vec![binop(named("a"), BinOp_::Eq, named("b"))])),
            statement(assertion(vec![named("c")])),
        ],
        None,
    );
    let conditions = FunSpecGenerator::abort_conditions(&f);
    let not_c = sp(Exp_::UnaryExp(sp(UnaryOp_::Not), Box::new(named("c"))));
    assert_eq!(conditions, vec![binop(named("a"), BinOp_::Neq, named("b")), not_c]);
    let clauses = FunSpecGenerator::generate_assert(&vec!["a != b".to_string(), "!c".to_string()]);
    assert_eq!(clauses, "        aborts_if a != b;\n        aborts_if !c;\n");
}

#[test]
fn only_assertions_with_a_complement_count() {
    let skipped = vec![
        statement(assertion(vec![])),
        statement(assertion(vec![named("a"), num("1")])),
        statement(assertion(vec![sp(Exp_::Pack(chain("S"), None, vec![]))])),
        statement(sp(Exp_::Call(chain("assert"), false, None, sp(vec![named("a")])))),
        statement(sp(Exp_::Call(chain("assert"), true, Some(vec![]), sp(vec![named("a")])))),
        statement(sp(Exp_::Call(chain("ensure"), true, None, sp(vec![named("a")])))),
        statement(binop(named("a"), BinOp_::Eq, named("b"))),
        sp(SequenceItem_::Bind(
            sp(vec![sp(Bind_::Var(name("y")))]),
            None,
            Box::new(assertion(vec![named("a")])),
        )),
    ];
    let f = with_body(skipped, Some(assertion(vec![binop(named("t"), BinOp_::Lt, num("9"))])));
    let conditions = FunSpecGenerator::abort_conditions(&f);
    assert_eq!(conditions, vec![binop(named("t"), BinOp_::Ge, num("9"))]);
    let native = function(vec![], sp(Type_::Unit), FunctionBody_::Native);
    assert_eq!(FunSpecGenerator::abort_conditions(&native), Vec::<Exp>::new());
}

#[test]
fn a_function_block_lists_parameters_and_return_type() {
    let f = function(
        vec![(name("x"), written("u64")), (name("r"), sp(Type_::Ref(false, Box::new(written("S")))))],
        written("bool"),
        FunctionBody_::Native,
    );
    let rendered = generate_fun_spec(&f, &text(&["u64", "&S"], "bool", &[]));
    assert_eq!(rendered, Some("    spec f(x: u64, r: &S): bool{\n\n    }\n".to_string()));
    assert_eq!(generate_fun_spec(&f, &text(&["u64"], "bool", &[])), None);
    assert_eq!(generate_fun_spec(&f, &text(&["u64", "&S", "u8"], "bool", &[])), None);
}

#[test]
fn a_generator_writes_one_block_after_the_other() {
    let f = function(vec![(name("x"), written("u64"))], sp(Type_::Unit), FunctionBody_::Native);
    let mut g = FunSpecGenerator::new();
    assert!(g.generate(&f, &text(&["u64"], "()", &["x == 0"])));
    assert!(!g.generate(&f, &text(&[], "()", &[])));
    assert!(g.generate(&f, &text(&["u64"], "()", &[])));
    let expected = "    spec f(x: u64){\n\n        aborts_if x == 0;\n    }\n    spec f(x: u64){\n\n    }\n";
    assert_eq!(g.to_string(), expected);
}

#[test]
fn a_struct_block_is_empty() {
    let s = StructDefinition {
        loc: Loc::unknown(),
        name: name("Coin"),
        type_parameters: vec![],
        fields: StructFields::Defined(vec![(name("value"), written("u64"))]),
    };
    assert_eq!(genrate_struct_spec(&s), "    spec Coin{\n\n    }\n");
    let mut g = StructSpecGenerator::new();
    g.generate(&s);
    g.generate(&s);
    assert_eq!(g.to_string(), "    spec Coin{\n\n    }\n    spec Coin{\n\n    }\n");
}

#[test]
fn indentation_is_four_spaces_a_level() {
    assert_eq!(indent(0), "");
    assert_eq!(indent(1), "    ");
    assert_eq!(indent(3), "            ");
}

#[test]
fn declared_names_are_listed_in_order_without_underscore() {
    let unpack = sp(Bind_::Unpack(
        Box::new(chain("S")),
        None,
        vec![(name("f"), sp(Bind_::Var(name("inner")))), (name("g"), sp(Bind_::Var(name("_"))))],
    ));
    let f = with_body(
        vec![
            sp(SequenceItem_::Declare(sp(vec![sp(Bind_::Var(name("a"))), sp(Bind_::Var(name("_")))]), None)),
            statement(named("a")),
            sp(SequenceItem_::Bind(sp(vec![unpack, sp(Bind_::Var(name("a")))]), None, Box::new(num("1")))),
        ],
        None,
    );
    let names: Vec<String> = FunSpecGenerator::declared_names(&f)
        .iter()
        .map(|s| s.as_str().to_string())
        .collect();
    assert_eq!(names, vec!["a", "inner", "a"]);
}
