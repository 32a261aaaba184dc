use move_analyzer::collect::Collector;
use move_analyzer::item::Item;
use move_analyzer::modules::{IDEModule, Modules};
use move_analyzer::scopes::Scopes;
use move_analyzer::syntax::{
    AddressDefinition, Definition, Exp_, FileHash, Function, FunctionBody_, FunctionSignature,
    LeadingNameAccess_, Loc, ModuleDefinition, ModuleMember, Name, NameAccessChain_,
    NumericalAddress, Script, Sequence, Spanned, StructDefinition, StructFields, Symbol, Type_,
};
use move_analyzer::table::Table;
use move_analyzer::types::{ResolvedType, ResolvedType_};

fn sp<T>(value: T) -> Spanned<T> {
    Spanned { loc: Loc::unknown(), value }
}

fn name(text: &str) -> Name {
    sp(Symbol::from(text))
}

fn empty_struct(text: &str) -> ModuleMember {
    ModuleMember::Struct(StructDefinition {
        loc: Loc::unknown(),
        name: name(text),
        type_parameters: vec![],
        fields: StructFields::Native(Loc::unknown()),
    })
}

fn function(text: &str) -> ModuleMember {
    ModuleMember::Function(Function {
        loc: Loc::unknown(),
        signature: FunctionSignature {
            type_parameters: vec![],
            parameters: vec![],
            return_type: sp(Type_::Unit),
        },
        name: name(text),
        body: sp(FunctionBody_::Defined(Sequence {
            uses: vec![],
            items: vec![],
            semicolon: None,
            tail: Some(Box::new(sp(Exp_::Break))),
        })),
    })
}

fn module(text: &str, address: Option<LeadingNameAccess_>, members: Vec<ModuleMember>) -> ModuleDefinition {
    ModuleDefinition { loc: Loc::unknown(), address: address.map(sp), name: name(text), members }
}

fn member_type(scopes: &Scopes, address: u128, module: &str, member: &str) -> ResolvedType {
    let chain = sp(NameAccessChain_::Three(
        sp((sp(LeadingNameAccess_::AnonymousAddress(NumericalAddress { value: address })), name(module))),
        name(member),
    ));
    let named: Table<NumericalAddress> = Table::new();
    scopes.find_name_access_chain_type(&chain, &named)
}

fn known(text: &str) -> ResolvedType {
    ResolvedType(sp(ResolvedType_::Struct(name(text), vec![], vec![])))
}

fn unknown() -> ResolvedType {
    ResolvedType::new_unknown(Loc::unknown())
}

#[test]
fn xxx() {
    let x = Modules::new();
    println!("xxxxxxxx:{:?}", x);
}

#[test]
fn an_address_block_gives_its_modules_their_address() {
    let mut modules = Modules::new();
    modules.insert_named_address(Symbol::from("std"), NumericalAddress { value: 1 });
    let block = AddressDefinition {
        loc: Loc::unknown(),
        addr: sp(LeadingNameAccess_::Name(name("std"))),
        modules: vec![
            module("a", None, vec![empty_struct("A")]),
            module("b", Some(LeadingNameAccess_::AnonymousAddress(NumericalAddress { value: 2 })), vec![
                empty_struct("B"),
            ]),
        ],
    };
    let mut scopes = Scopes::new();
    modules.enter_address_top(&mut scopes, &block);
    assert_eq!(member_type(&scopes, 1, "a", "A"), known("A"));
    assert_eq!(member_type(&scopes, 2, "b", "B"), known("B"));
    assert_eq!(member_type(&scopes, 1, "b", "B"), unknown());
}

#[test]
fn a_module_without_an_address_becomes_known_nowhere() {
    let modules = Modules::new();
    let mut scopes = Scopes::new();
    modules.enter_module_top(&mut scopes, &module("a", None, vec![empty_struct("A")]), None);
    assert_eq!(member_type(&scopes, 0, "a", "A"), unknown());
    let named = Some(LeadingNameAccess_::Name(name("nowhere")));
    modules.enter_module_top(&mut scopes, &module("a", named, vec![empty_struct("A")]), None);
    assert_eq!(member_type(&scopes, 0, "a", "A"), unknown());
    let around = Some(NumericalAddress { value: 5 });
    modules.enter_module_top(&mut scopes, &module("a", None, vec![empty_struct("A")]), around);
    assert_eq!(member_type(&scopes, 5, "a", "A"), known("A"));
}

#[test]
fn a_script_declares_nothing_and_is_walked() {
    let script = Script {
        loc: Loc::unknown(),
        function: match function("main") {
            ModuleMember::Function(f) => f,
            ModuleMember::Struct(_) => unreachable!(),
        },
    };
    let modules = Modules::new();
    let mut scopes = Scopes::new();
    modules.enter_script_top(&mut scopes, &script);
    assert_eq!(scopes.len(), 1);
    let mut visitor = Collector::new(None);
    let stopped = modules.visit_definition(&Definition::Script(script), &mut scopes, &mut visitor);
    assert!(!stopped);
    assert_eq!(visitor.items(), &vec![Item::KeyWords("break")]);
}

#[test]
fn the_functions_of_a_module_are_walked_in_order_until_the_visitor_stops() {
    let m = module("m", None, vec![function("f"), empty_struct("S"), function("g"), function("h")]);
    let modules = Modules::new();
    let mut scopes = Scopes::new();
    let mut all = Collector::new(None);
    assert!(!modules.visit_module(&m, &mut scopes, &mut all));
    assert_eq!(all.items().len(), 3);
    let mut two = Collector::new(Some(2));
    assert!(modules.visit_module(&m, &mut scopes, &mut two));
    assert_eq!(two.items().len(), 2);
    assert_eq!(scopes.len(), 1);
}

#[test]
fn a_file_that_comes_again_takes_the_place_of_the_earlier_one() {
    let mut package = IDEModule::new();
    let hash = FileHash { high: 0, low: 9 };
    let first = Definition::Module(module("m", None, vec![function("f")]));
    let second = Definition::Module(module("m", None, vec![function("f"), function("g")]));
    package.insert(&Symbol::from("a.move"), hash, first);
    package.insert(&Symbol::from("a.move"), hash, second);
    let mut modules = Modules::new();
    modules.insert_package(Symbol::from("Move.toml"), package);
    let mut visitor = Collector::new(None);
    modules.run_visitor(&mut visitor);
    assert_eq!(visitor.items().len(), 2);
}
