use move_analyzer::collect::Collector;
use move_analyzer::item::{Item, MacroCall};
use move_analyzer::modules::{IDEModule, Modules};
use move_analyzer::scopes::{Scopes, Wanted};
use move_analyzer::syntax::{
    Ability_, BinOp_, Bind_, Definition, Exp, Exp_, ExternalNode, FileHash, Function,
    FunctionBody_, FunctionSignature, LeadingNameAccess_, Loc, ModuleDefinition, ModuleIdent_,
    ModuleMember, Name, NameAccessChain, NameAccessChain_, NumericalAddress, Script, Sequence,
    SequenceItem, SequenceItem_, Spanned, StructDefinition, StructFields, StructTypeParameter,
    Symbol, Type, Type_, Use, UseDecl, Value_,
};
use move_analyzer::table::Table;
use move_analyzer::types::{BuildInType, ResolvedType, ResolvedType_};
use move_analyzer::visitor::ScopeVisitor;

fn sp<T>(value: T) -> Spanned<T> {
    Spanned { loc: Loc::unknown(), value }
}

fn name(text: &str) -> Name {
    sp(Symbol::from(text))
}

fn chain(text: &str) -> NameAccessChain {
    sp(NameAccessChain_::One(name(text)))
}

fn named(text: &str) -> Exp {
    sp(Exp_::Name(chain(text), None))
}

fn num(text: &str) -> Exp {
    sp(Exp_::Value(sp(Value_::Num(Symbol::from(text)))))
}

fn written(text: &str) -> Type {
    sp(Type_::Apply(Box::new(chain(text)), vec![]))
}

fn statement(e: Exp) -> SequenceItem {
    sp(SequenceItem_::Expr(Box::new(e)))
}

fn binding(text: &str, e: Exp) -> SequenceItem {
    sp(SequenceItem_::Bind(sp(vec![sp(Bind_::Var(name(text)))]), None, Box::new(e)))
}

fn block(items: Vec<SequenceItem>, tail: Option<Exp>) -> Sequence {
    Sequence { uses: vec![], items, semicolon: None, tail: tail.map(Box::new) }
}

fn function(
    text: &str,
    type_parameters: Vec<(Name, Vec<Spanned<Ability_>>)>,
    parameters: Vec<(Name, Type)>,
    body: FunctionBody_,
) -> Function {
    Function {
        loc: Loc::unknown(),
        signature: FunctionSignature { type_parameters, parameters, return_type: sp(Type_::Unit) },
        name: name(text),
        body: sp(body),
    }
}

fn global() -> Scopes {
    let mut s = Scopes::new();
    s.enter_build_in();
    s
}

fn u64_type() -> ResolvedType {
    ResolvedType::new_build_in(BuildInType::U64)
}

fn nested(depth: usize, innermost: Exp) -> Exp {
    let mut e = innermost;
    for _ in 0..depth {
        e = sp(Exp_::Block(block(vec![], Some(e))));
    }
    e
}

#[test]
fn a_function_is_reported_in_source_order() {
    let body = block(
        vec![
            binding("y", named("ignored")),
            statement(sp(Exp_::Call(
                chain("assert"),
                true,
                None,
                sp(vec![sp(Exp_::BinopExp(Box::new(named("x")), sp(BinOp_::Gt), Box::new(num("0"))))]),
            ))),
        ],
        Some(sp(Exp_::Move(name("y")))),
    );
    let f = function(
        "f",
        vec![(name("T"), vec![sp(Ability_::Drop)])],
        vec![(name("x"), written("u64")), (name("t"), written("T"))],
        FunctionBody_::Defined(body),
    );
    let mut scopes = global();
    let mut visitor = Collector::new(None);
    Modules::new().visit_function(&f, &mut scopes, &mut visitor);
    let t_param = ResolvedType(sp(ResolvedType_::TParam(name("T"), vec![sp(Ability_::Drop)])));
    let expected = vec![
        Item::TParam(name("T"), vec![sp(Ability_::Drop)]),
        Item::ApplyType(written("u64")),
        Item::Parameter(name("x"), u64_type()),
        Item::ApplyType(written("T")),
        Item::Parameter(name("t"), t_param),
        Item::ExprVar(name("y")),
        Item::MacroCall(MacroCall::Assert),
        Item::NameAccessChain(chain("x")),
        Item::ExprVar(name("y")),
    ];
    assert_eq!(visitor.items(), &expected);
    assert_eq!(scopes.len(), 1);
    assert_eq!(scopes.innermost(&Symbol::from("x"), Wanted::Any), None);
}

#[test]
fn a_visitor_that_stops_after_its_first_report_gets_exactly_one() {
    for depth in [0, 1, 2, 7] {
        let f = function(
            "f",
            vec![],
            vec![],
            FunctionBody_::Defined(block(
                vec![statement(nested(depth, sp(Exp_::Break))), statement(sp(Exp_::Continue))],
                Some(named("x")),
            )),
        );
        let mut scopes = global();
        scopes.enter_scope();
        let mut visitor = Collector::new(Some(1));
        Modules::new().visit_function(&f, &mut scopes, &mut visitor);
        assert_eq!(visitor.items(), &vec![Item::KeyWords("break")]);
        assert_eq!(scopes.len(), 2);
    }
}

#[test]
fn stopping_in_the_header_leaves_the_body_alone() {
    let f = function(
        "f",
        vec![(name("T"), vec![])],
        vec![(name("x"), written("u64"))],
        FunctionBody_::Defined(block(vec![], Some(sp(Exp_::Break)))),
    );
    for (limit, count) in [(1, 1), (2, 2), (3, 3), (4, 4), (5, 4)] {
        let mut scopes = global();
        let mut visitor = Collector::new(Some(limit));
        Modules::new().visit_function(&f, &mut scopes, &mut visitor);
        assert_eq!(visitor.items().len(), count);
        assert_eq!(scopes.len(), 1);
    }
}

#[test]
fn the_arguments_of_a_call_are_walked_one_by_one() {
    let call = sp(Exp_::Call(
        chain("f"),
        false,
        Some(vec![written("u8"), written("bool")]),
        sp(vec![named("a"), sp(Exp_::Move(name("b"))), num("1"), named("c")]),
    ));
    let mut scopes = global();
    let mut visitor = Collector::new(None);
    Modules::new().visit_expr(&call, &mut scopes, &mut visitor);
    let expected = vec![
        Item::NameAccessChain(chain("f")),
        Item::ApplyType(written("u8")),
        Item::ApplyType(written("bool")),
        Item::NameAccessChain(chain("a")),
        Item::ExprVar(name("b")),
        Item::NameAccessChain(chain("c")),
    ];
    assert_eq!(visitor.items(), &expected);
    let mut stopped = Collector::new(Some(4));
    Modules::new().visit_expr(&call, &mut scopes, &mut stopped);
    assert_eq!(stopped.items().len(), 4);
    let mut early = Collector::new(Some(1));
    Modules::new().visit_expr(&call, &mut scopes, &mut early);
    assert_eq!(early.items(), &vec![Item::NameAccessChain(chain("f"))]);
}

#[test]
fn a_struct_literal_reports_the_fields_that_the_struct_has() {
    let mut scopes = global();
    scopes.enter_item(
        Symbol::from("S"),
        Item::Struct(name("S"), vec![], vec![(name("f"), u64_type())]),
    );
    let pack = sp(Exp_::Pack(
        chain("S"),
        Some(vec![written("u8")]),
        vec![(name("f"), named("a")), (name("g"), named("b"))],
    ));
    let mut visitor = Collector::new(None);
    Modules::new().visit_expr(&pack, &mut scopes, &mut visitor);
    let expected = vec![
        Item::NameAccessChain(chain("S")),
        Item::ApplyType(written("u8")),
        Item::FieldInitialization(name("f"), u64_type()),
        Item::NameAccessChain(chain("a")),
        Item::NameAccessChain(chain("b")),
    ];
    assert_eq!(visitor.items(), &expected);
}

#[test]
fn field_access_cast_and_vector_report_their_parts() {
    let mut scopes = global();
    scopes.enter_item(
        Symbol::from("p"),
        Item::Parameter(
            name("p"),
            ResolvedType(sp(ResolvedType_::Struct(name("P"), vec![], vec![(name("a"), u64_type())]))),
        ),
    );
    let e = sp(Exp_::ExpList(vec![
        sp(Exp_::Dot(Box::new(sp(Exp_::Move(name("p")))), name("a"))),
        sp(Exp_::Dot(Box::new(sp(Exp_::Move(name("p")))), name("b"))),
        sp(Exp_::Cast(Box::new(named("x")), written("u8"))),
        sp(Exp_::Annotate(Box::new(named("y")), written("u64"))),
        sp(Exp_::Vector(Loc::unknown(), Some(vec![written("bool")]), sp(vec![named("z")]))),
        sp(Exp_::Value(sp(Value_::Address(sp(LeadingNameAccess_::Name(name("std"))))))),
        sp(Exp_::Index(Box::new(named("v")), Box::new(named("i")))),
        sp(Exp_::Lambda(ExternalNode { id: 0 })),
        sp(Exp_::Quant(ExternalNode { id: 1 })),
        sp(Exp_::Spec(ExternalNode { id: 2 })),
        sp(Exp_::Unit),
        sp(Exp_::Return(Some(Box::new(named("r"))))),
    ]));
    let mut visitor = Collector::new(None);
    Modules::new().visit_expr(&e, &mut scopes, &mut visitor);
    let expected = vec![
        Item::ExprVar(name("p")),
        Item::AccessFiled(name("a"), u64_type()),
        Item::ExprVar(name("p")),
        Item::NameAccessChain(chain("x")),
        Item::ApplyType(written("u8")),
        Item::NameAccessChain(chain("y")),
        Item::ApplyType(written("u64")),
        Item::ApplyType(written("bool")),
        Item::NameAccessChain(chain("z")),
        Item::ExprAddressName(name("std")),
        Item::NameAccessChain(chain("r")),
    ];
    assert_eq!(visitor.items(), &expected);
}

struct Looker {
    seen: Vec<(String, usize, bool)>,
    stop_at: Option<String>,
    file: Option<FileHash>,
}

impl ScopeVisitor for Looker {
    type State = ();

    fn handle_item(&mut self, scopes: &Scopes, item: &Item) {
        if let Item::NameAccessChain(c) = item {
            if let NameAccessChain_::One(n) = &c.value {
                let bound = scopes.innermost(&n.value, Wanted::Any).is_some();
                self.seen.push((n.value.as_str().to_string(), scopes.len(), bound));
            }
        }
    }

    fn file_should_visit(&self, p: FileHash) -> bool {
        match self.file {
            Some(f) => f == p,
            None => true,
        }
    }

    fn finished(&self) -> bool {
        match (&self.stop_at, self.seen.last()) {
            (Some(stop), Some(last)) => stop == &last.0,
            _ => false,
        }
    }
}

#[test]
fn a_binding_is_seen_by_what_follows_it_and_gone_after_its_block() {
    let inner = block(vec![binding("y", num("1")), statement(named("y"))], Some(named("x")));
    let body = block(
        vec![statement(named("y")), statement(sp(Exp_::Block(inner))), statement(named("y"))],
        None,
    );
    let f = function("f", vec![], vec![(name("x"), written("u64"))], FunctionBody_::Defined(body));
    let mut scopes = global();
    let mut visitor = Looker { seen: vec![], stop_at: None, file: None };
    Modules::new().visit_function(&f, &mut scopes, &mut visitor);
    let expected = vec![
        ("y".to_string(), 3, false),
        ("y".to_string(), 4, true),
        ("x".to_string(), 4, true),
        ("y".to_string(), 3, false),
    ];
    assert_eq!(visitor.seen, expected);
    assert_eq!(scopes.len(), 1);
}

#[test]
fn the_stack_is_as_deep_after_a_stopped_walk_as_before() {
    let inner = block(vec![binding("y", num("1")), statement(named("stop"))], Some(named("x")));
    let body = block(vec![statement(nested(5, sp(Exp_::Block(inner)))), statement(named("z"))], None);
    let f = function("f", vec![], vec![], FunctionBody_::Defined(body));
    let mut scopes = global();
    scopes.enter_scope();
    scopes.enter_scope();
    let mut visitor = Looker { seen: vec![], stop_at: Some("stop".to_string()), file: None };
    Modules::new().visit_function(&f, &mut scopes, &mut visitor);
    assert_eq!(visitor.seen, vec![("stop".to_string(), 11, false)]);
    assert_eq!(scopes.len(), 3);
}

fn use_of(address: u128, module: &str) -> UseDecl {
    UseDecl {
        use_: Use::Members(
            sp(ModuleIdent_ {
                address: sp(LeadingNameAccess_::AnonymousAddress(NumericalAddress { value: address })),
                module: name(module),
            }),
            vec![(name("S"), None), (name("Missing"), None), (name("S"), Some(name("T")))],
        ),
    }
}

fn file(high: u128) -> Loc {
    Loc { file_hash: FileHash { high, low: 0 }, start: 0, end: 0 }
}

fn declaring_file() -> Definition {
    Definition::Module(ModuleDefinition {
        loc: file(1),
        address: Some(sp(LeadingNameAccess_::AnonymousAddress(NumericalAddress { value: 1 }))),
        name: name("M"),
        members: vec![ModuleMember::Struct(StructDefinition {
            loc: file(1),
            name: name("S"),
            type_parameters: vec![StructTypeParameter {
                is_phantom: false,
                name: name("E"),
                constraints: vec![],
            }],
            fields: StructFields::Defined(vec![(name("f"), written("E")), (name("n"), written("u64"))]),
        })],
    })
}

fn referring_file() -> Definition {
    let body = Sequence {
        uses: vec![use_of(1, "M")],
        items: vec![statement(named("S")), statement(named("T")), statement(named("Missing"))],
        semicolon: None,
        tail: None,
    };
    Definition::Module(ModuleDefinition {
        loc: file(2),
        address: Some(sp(LeadingNameAccess_::Name(name("me")))),
        name: name("N"),
        members: vec![ModuleMember::Function(function("f", vec![], vec![], FunctionBody_::Defined(body)))],
    })
}

fn repository(first: Definition, second: Definition) -> Modules {
    let mut package = IDEModule::new();
    package.insert(&Symbol::from("first.move"), FileHash { high: 1, low: 0 }, first);
    package.insert(&Symbol::from("second.move"), FileHash { high: 2, low: 0 }, second);
    let mut modules = Modules::new();
    modules.insert_named_address(Symbol::from("me"), NumericalAddress { value: 2 });
    modules.insert_package(Symbol::from("Move.toml"), package);
    modules
}

#[test]
fn a_module_is_known_whichever_file_is_walked_first() {
    let expected = vec![
        ("S".to_string(), 3, true),
        ("T".to_string(), 3, true),
        ("Missing".to_string(), 3, false),
    ];
    let mut visitor = Looker { seen: vec![], stop_at: None, file: None };
    repository(declaring_file(), referring_file()).run_visitor(&mut visitor);
    assert_eq!(visitor.seen, expected);
    let mut visitor = Looker { seen: vec![], stop_at: None, file: None };
    repository(referring_file(), declaring_file()).run_visitor(&mut visitor);
    assert_eq!(visitor.seen, expected);
}

#[test]
fn the_first_pass_makes_structs_known_with_resolved_fields() {
    let modules = repository(referring_file(), declaring_file());
    let mut scopes = global();
    modules.enter_all_top(&mut scopes);
    let named: Table<NumericalAddress> = Table::new();
    let three = sp(NameAccessChain_::Three(
        sp((sp(LeadingNameAccess_::AnonymousAddress(NumericalAddress { value: 1 })), name("M"))),
        name("S"),
    ));
    let parameter = StructTypeParameter { is_phantom: false, name: name("E"), constraints: vec![] };
    let expected = ResolvedType(sp(ResolvedType_::Struct(
        name("S"),
        vec![parameter],
        vec![
            (name("f"), ResolvedType(sp(ResolvedType_::TParam(name("E"), vec![])))),
            (name("n"), u64_type()),
        ],
    )));
    assert_eq!(scopes.find_name_access_chain_type(&three, &named), expected);
    assert_eq!(scopes.len(), 1);
    let other = sp(NameAccessChain_::Three(
        sp((sp(LeadingNameAccess_::AnonymousAddress(NumericalAddress { value: 2 })), name("N"))),
        name("S"),
    ));
    assert_eq!(
        scopes.find_name_access_chain_type(&other, &named),
        ResolvedType::new_unknown(Loc::unknown())
    );
}

#[test]
fn a_run_starts_from_one_empty_frame() {
    let modules = repository(referring_file(), declaring_file());
    let scopes = modules.global_scope();
    assert_eq!(scopes.len(), 1);
    assert_eq!(scopes.innermost(&Symbol::from("u64"), Wanted::Any), None);
    let named: Table<NumericalAddress> = Table::new();
    let three = sp(NameAccessChain_::Three(
        sp((sp(LeadingNameAccess_::AnonymousAddress(NumericalAddress { value: 1 })), name("M"))),
        name("S"),
    ));
    let parameter = StructTypeParameter { is_phantom: false, name: name("E"), constraints: vec![] };
    let unresolved = ResolvedType(sp(ResolvedType_::ResolvedFailed(Type_::Apply(
        Box::new(chain("u64")),
        vec![],
    ))));
    let expected = ResolvedType(sp(ResolvedType_::Struct(
        name("S"),
        vec![parameter],
        vec![
            (name("f"), ResolvedType(sp(ResolvedType_::TParam(name("E"), vec![])))),
            (name("n"), unresolved),
        ],
    )));
    assert_eq!(scopes.find_name_access_chain_type(&three, &named), expected);
}

#[test]
fn the_two_passes_run_in_scopes_that_the_caller_made() {
    let modules = repository(declaring_file(), referring_file());
    let mut scopes = global();
    scopes.enter_scope();
    modules.enter_all_top(&mut scopes);
    let mut visitor = Looker { seen: vec![], stop_at: Some("T".to_string()), file: None };
    assert!(modules.visit_all(&mut scopes, &mut visitor));
    let expected = vec![("S".to_string(), 4, true), ("T".to_string(), 4, true)];
    assert_eq!(visitor.seen, expected);
    assert_eq!(scopes.len(), 2);
    let mut all = Looker { seen: vec![], stop_at: None, file: None };
    assert!(!modules.visit_all(&mut scopes, &mut all));
    assert_eq!(all.seen.len(), 3);
}

#[test]
fn a_file_that_the_visitor_does_not_want_is_passed_over() {
    let wanted = FileHash { high: 1, low: 0 };
    let mut visitor = Looker { seen: vec![], stop_at: None, file: Some(wanted) };
    repository(declaring_file(), referring_file()).run_visitor(&mut visitor);
    assert_eq!(visitor.seen, vec![]);
    let wanted = FileHash { high: 2, low: 0 };
    let mut visitor = Looker { seen: vec![], stop_at: None, file: Some(wanted) };
    repository(declaring_file(), referring_file()).run_visitor(&mut visitor);
    assert_eq!(visitor.seen.len(), 3);
}

#[test]
fn a_run_stops_when_the_visitor_is_finished() {
    let script = |text: &str| {
        Definition::Script(Script {
            loc: file(3),
            function: function(
                "main",
                vec![],
                vec![],
                FunctionBody_::Defined(block(vec![statement(named(text))], Some(named("end")))),
            ),
        })
    };
    let mut visitor = Looker { seen: vec![], stop_at: Some("b".to_string()), file: None };
    repository(script("a"), script("b")).run_visitor(&mut visitor);
    let names: Vec<&str> = visitor.seen.iter().map(|s| s.0.as_str()).collect();
    assert_eq!(names, vec!["a", "end", "b"]);
    let mut all = Collector::new(None);
    repository(script("a"), script("b")).run_visitor(&mut all);
    assert_eq!(all.items().len(), 4);
}

#[test]
fn an_imported_module_is_bound_under_its_alias() {
    let mut scopes = global();
    let a = NumericalAddress { value: 1 };
    scopes.enter_top_module(a, &Symbol::from("M"));
    let ident = sp(ModuleIdent_ {
        address: sp(LeadingNameAccess_::AnonymousAddress(a)),
        module: name("M"),
    });
    let other = sp(ModuleIdent_ {
        address: sp(LeadingNameAccess_::AnonymousAddress(a)),
        module: name("Other"),
    });
    let uses = vec![
        UseDecl { use_: Use::Module(ident.clone_for_test(), Some(name("Alias"))) },
        UseDecl { use_: Use::Module(ident, None) },
        UseDecl { use_: Use::Module(other, None) },
    ];
    let modules = Modules::new();
    let mut visitor = Collector::new(None);
    scopes.enter_scope();
    for u in uses.iter() {
        modules.visit_use_decl(u, &mut scopes, &mut visitor);
    }
    assert_eq!(visitor.items().len(), 3);
    assert!(matches!(
        scopes.innermost(&Symbol::from("Alias"), Wanted::Any),
        Some(Item::ImportedUseModule(_, _))
    ));
    assert!(matches!(
        scopes.innermost(&Symbol::from("M"), Wanted::Any),
        Some(Item::ImportedUseModule(_, _))
    ));
    assert_eq!(scopes.innermost(&Symbol::from("Other"), Wanted::Any), None);
}

trait CloneForTest {
    fn clone_for_test(&self) -> Self;
}

impl CloneForTest for Spanned<ModuleIdent_> {
    fn clone_for_test(&self) -> Self {
        Spanned { loc: self.loc, value: self.value.clone() }
    }
}
