use move_analyzer::names::{expr_name_in_expr, handle_ty, NameSet};
use move_analyzer::syntax::{
    BinOp_, Exp, Exp_, ExternalNode, LeadingNameAccess_, Loc, Name, NameAccessChain,
    NameAccessChain_, NumericalAddress, Sequence, Spanned, Symbol, Type, Type_, UnaryOp_, Value_,
};

fn sp<T>(value: T) -> Spanned<T> {
    Spanned { loc: Loc::unknown(), value }
}

fn name(text: &str) -> Name {
    sp(Symbol::from(text))
}

fn moved(text: &str) -> Exp {
    sp(Exp_::Move(name(text)))
}

fn in_module(module: &str, member: &str) -> NameAccessChain {
    sp(NameAccessChain_::Two(sp(LeadingNameAccess_::Name(name(module))), name(member)))
}

fn at_number(member: &str) -> NameAccessChain {
    sp(NameAccessChain_::Two(
        sp(LeadingNameAccess_::AnonymousAddress(NumericalAddress { value: 1 })),
        name(member),
    ))
}

fn full(member: &str) -> NameAccessChain {
    sp(NameAccessChain_::Three(sp((sp(LeadingNameAccess_::Name(name("a"))), name("m"))), name(member)))
}

fn applied(chain: NameAccessChain, arguments: Vec<Type>) -> Type {
    sp(Type_::Apply(Box::new(chain), arguments))
}

struct Outcome {
    result: Result<(), ()>,
    names: Vec<&'static str>,
    modules: Vec<&'static str>,
}

fn run(e: &Exp, candidates: &[&'static str]) -> Outcome {
    let mut names = NameSet::new();
    let mut modules = NameSet::new();
    let result = expr_name_in_expr(&mut names, &mut modules, e);
    let held = |set: &NameSet| -> Vec<&'static str> {
        candidates.iter().copied().filter(|c| set.contains(&Symbol::from(c))).collect()
    };
    Outcome { result, names: held(&names), modules: held(&modules) }
}

const ALL: [&str; 8] = ["a", "b", "c", "d", "m", "n", "f", "x"];

#[test]
fn moved_and_copied_variables_are_names() {
    let e = sp(Exp_::BinopExp(
        Box::new(moved("a")),
        sp(BinOp_::Add),
        Box::new(sp(Exp_::UnaryExp(sp(UnaryOp_::Not), Box::new(sp(Exp_::Copy(name("b"))))))),
    ));
    let o = run(&e, &ALL);
    assert_eq!(o.result, Ok(()));
    assert_eq!(o.names, vec!["a", "b"]);
    assert_eq!(o.modules, Vec::<&str>::new());
}

#[test]
fn the_first_part_of_a_two_part_name_is_a_module() {
    let call = sp(Exp_::Call(
        in_module("m", "f"),
        false,
        Some(vec![applied(in_module("n", "T"), vec![applied(at_number("U"), vec![])])]),
        sp(vec![moved("a"), sp(Exp_::Name(full("x"), None)), sp(Exp_::Value(sp(Value_::Bool(true))))]),
    ));
    let o = run(&call, &ALL);
    assert_eq!(o.result, Ok(()));
    assert_eq!(o.names, vec!["a"]);
    assert_eq!(o.modules, vec!["m", "n"]);
}

#[test]
fn the_search_stops_at_the_first_part_without_a_rule() {
    let bare = sp(Exp_::Name(sp(NameAccessChain_::One(name("x"))), None));
    let block = sp(Exp_::Block(Sequence { uses: vec![], items: vec![], semicolon: None, tail: None }));
    for stop in [bare, block, sp(Exp_::Spec(ExternalNode { id: 0 })), sp(Exp_::UnresolvedError)] {
        let e = sp(Exp_::IfElse(Box::new(moved("a")), Box::new(stop), Some(Box::new(moved("b")))));
        let o = run(&e, &ALL);
        assert_eq!(o.result, Err(()));
        assert_eq!(o.names, vec!["a"]);
    }
    let pack = sp(Exp_::Pack(
        in_module("m", "S"),
        Some(vec![sp(Type_::Fun(vec![], Box::new(sp(Type_::Unit))))]),
        vec![(name("f"), moved("a"))],
    ));
    let o = run(&pack, &ALL);
    assert_eq!(o.result, Err(()));
    assert_eq!(o.names, Vec::<&str>::new());
    assert_eq!(o.modules, vec!["m"]);
}

#[test]
fn loops_and_statements_add_nothing() {
    let forms = vec![
        Exp_::While(Box::new(moved("a")), Box::new(moved("b"))),
        Exp_::Loop(Box::new(moved("a"))),
        Exp_::Lambda(ExternalNode { id: 0 }),
        Exp_::Quant(ExternalNode { id: 0 }),
        Exp_::ExpList(vec![moved("a")]),
        Exp_::Unit,
        Exp_::Assign(Box::new(moved("a")), Box::new(moved("b"))),
        Exp_::Return(Some(Box::new(moved("a")))),
        Exp_::Abort(Box::new(moved("a"))),
        Exp_::Break,
        Exp_::Continue,
    ];
    for value in forms {
        let o = run(&sp(value), &ALL);
        assert_eq!(o.result, Ok(()));
        assert_eq!(o.names, Vec::<&str>::new());
    }
}

#[test]
fn the_parts_of_compound_forms_are_searched() {
    let e = sp(Exp_::Vector(
        Loc::unknown(),
        Some(vec![sp(Type_::Multiple(vec![sp(Type_::Ref(true, Box::new(applied(in_module("m", "T"), vec![]))))]))]),
        sp(vec![
            sp(Exp_::Index(Box::new(moved("a")), Box::new(moved("b")))),
            sp(Exp_::Dot(Box::new(sp(Exp_::Borrow(false, Box::new(moved("c"))))), name("f"))),
            sp(Exp_::Cast(Box::new(sp(Exp_::Dereference(Box::new(moved("d"))))), applied(in_module("n", "T"), vec![]))),
            sp(Exp_::Pack(full("S"), None, vec![(name("f"), moved("x"))])),
        ]),
    ));
    let o = run(&e, &ALL);
    assert_eq!(o.result, Ok(()));
    assert_eq!(o.names, vec!["a", "b", "c", "d", "x"]);
    assert_eq!(o.modules, vec!["m"]);
}

#[test]
fn a_type_adds_the_modules_it_names() {
    let mut names = NameSet::new();
    let mut modules = NameSet::new();
    let t = applied(in_module("m", "T"), vec![applied(in_module("n", "U"), vec![]), sp(Type_::Unit)]);
    assert_eq!(handle_ty(&mut names, &mut modules, &t), Ok(()));
    assert!(modules.contains(&Symbol::from("m")) && modules.contains(&Symbol::from("n")));
    assert!(!names.contains(&Symbol::from("m")));
    let bare = applied(sp(NameAccessChain_::One(name("u64"))), vec![applied(in_module("c", "V"), vec![])]);
    assert_eq!(handle_ty(&mut names, &mut modules, &bare), Err(()));
    assert!(modules.contains(&Symbol::from("c")));
}
