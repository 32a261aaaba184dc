//! The symbol table: a stack of scopes that mirrors the nesting of blocks
//! and functions, and beside its bottom scope the table of all modules by
//! address and name.
use crate::algebra::unknown_at;
use crate::item::{item_type, Item, ItemModel};
use crate::syntax::{
    clone_chain, opt_view, LeadingNameAccessModel, LeadingNameAccess_, Loc, NameAccessChain,
    NameAccessChainModel, NameAccessChain_, NumericalAddress, Spanned, Symbol, TypeModel, Type_,
};
use crate::table::{AddressTable, Table};
use crate::types::{BuildInType, Resolved, ResolvedType, ResolvedTypeModel, ResolvedType_};
use vstd::map_lib::*;
use vstd::prelude::*;

verus! {

broadcast use {crate::syntax::syntax_views, crate::types::resolved_view_unfolds};

/// One frame of the symbol table: names and what they are bound to, and
/// whether the frame is the body of a function or a specification block.
#[derive(Debug)]
pub struct Scope {
    pub(crate) items: Table<Item>,
    pub(crate) is_function: bool,
    pub(crate) is_spec: bool,
}

pub struct ScopeModel {
    pub items: Map<Seq<char>, ItemModel>,
    pub is_function: bool,
    pub is_spec: bool,
}

impl ScopeModel {
    /// A frame without bindings.
    pub open spec fn empty() -> ScopeModel {
        ScopeModel { items: Map::empty(), is_function: false, is_spec: false }
    }

    /// The frame with one more binding.
    pub open spec fn bind(self, name: Seq<char>, item: ItemModel) -> ScopeModel {
        ScopeModel { items: self.items.insert(name, item), ..self }
    }
}

impl View for Scope {
    type V = ScopeModel;

    open(crate) spec fn view(&self) -> ScopeModel {
        ScopeModel {
            items: self.items.views(),
            is_function: self.is_function,
            is_spec: self.is_spec,
        }
    }
}

/// The bindings of the primitive type names.
pub open spec fn with_build_in(s: ScopeModel) -> ScopeModel {
    s.bind("bool"@, ItemModel::BuildInType(BuildInType::Bool)).bind(
        "u8"@,
        ItemModel::BuildInType(BuildInType::U8),
    ).bind("u64"@, ItemModel::BuildInType(BuildInType::U64)).bind(
        "u128"@,
        ItemModel::BuildInType(BuildInType::U128),
    ).bind("address"@, ItemModel::BuildInType(BuildInType::Address))
}

impl Scope {
    /// The frame's table is in order.
    pub open(crate) spec fn wf(&self) -> bool {
        self.items.wf()
    }

    /// A frame without bindings, to stand at the bottom of a stack.
    pub fn new_top() -> (s: Self)
        ensures
            s.wf(),
            s@ == ScopeModel::empty(),
    {
        let s = Scope { items: Table::new(), is_function: false, is_spec: false };
        assert(s@.items =~= Map::empty());
        s
    }

    /// Binds the names of the primitive types: `bool`, `u8`, `u64`, `u128`
    /// and `address`.
    pub fn enter_build_in(&mut self)
        requires
            old(self).wf(),
        ensures
            final(self).wf(),
            final(self)@ == with_build_in(old(self)@),
    {
        self.enter_item(Symbol::from("bool"), Item::BuildInType(BuildInType::Bool));
        self.enter_item(Symbol::from("u8"), Item::BuildInType(BuildInType::U8));
        self.enter_item(Symbol::from("u64"), Item::BuildInType(BuildInType::U64));
        self.enter_item(Symbol::from("u128"), Item::BuildInType(BuildInType::U128));
        self.enter_item(Symbol::from("address"), Item::BuildInType(BuildInType::Address));
    }

    /// Binds a name, in place of what it was bound to before, if anything.
    pub fn enter_item(&mut self, s: Symbol, item: Item)
        requires
            old(self).wf(),
        ensures
            final(self).wf(),
            final(self)@ == old(self)@.bind(s@, item@),
    {
        self.items.insert(s, item);
        assert(self@.items =~= old(self)@.items.insert(s@, item@));
    }
}

impl Default for Scope {
    fn default() -> (s: Self)
        ensures
            s.wf(),
            s@ == ScopeModel::empty(),
    {
        Scope::new_top()
    }
}

/// The modules at one address, by name.
#[derive(Debug)]
pub struct Address {
    pub(crate) modules: Table<Scope>,
}

impl View for Address {
    type V = Map<Seq<char>, ScopeModel>;

    open(crate) spec fn view(&self) -> Map<Seq<char>, ScopeModel> {
        self.modules.views()
    }
}

impl Address {
    /// The table of modules and every module's table are in order.
    pub open(crate) spec fn wf(&self) -> bool {
        &&& self.modules.wf()
        &&& forall|k: Seq<char>| #[trigger]
            self.modules.map().contains_key(k) ==> self.modules.map()[k].wf()
    }
}

impl Default for Address {
    fn default() -> (a: Self)
        ensures
            a.wf(),
            a@ == Map::<Seq<char>, ScopeModel>::empty(),
    {
        let a = Address { modules: Table::new() };
        assert(a@ =~= Map::<Seq<char>, ScopeModel>::empty());
        a
    }
}

/// All modules, by address and name.
#[derive(Debug)]
pub struct Addresses {
    pub(crate) address: AddressTable<Address>,
}

/// All modules, by address and name, each as its frame.
pub type AddressesModel = Map<NumericalAddress, Map<Seq<char>, ScopeModel>>;

impl View for Addresses {
    type V = AddressesModel;

    open(crate) spec fn view(&self) -> AddressesModel {
        self.address.map().map_values(|a: Address| a@)
    }
}

impl Addresses {
    /// The table of addresses and everything below it are in order.
    pub open(crate) spec fn wf(&self) -> bool {
        &&& self.address.wf()
        &&& forall|k: NumericalAddress| #[trigger]
            self.address.map().contains_key(k) ==> self.address.map()[k].wf()
    }

    /// No module at all.
    pub fn new() -> (a: Self)
        ensures
            a.wf(),
            a@ == Map::<NumericalAddress, Map<Seq<char>, ScopeModel>>::empty(),
    {
        let a = Addresses { address: AddressTable::new() };
        assert(a@ =~= Map::<NumericalAddress, Map<Seq<char>, ScopeModel>>::empty());
        a
    }
}

/// The stack of scopes, outermost first, with the table of all modules.
#[derive(Debug)]
pub struct Scopes {
    pub(crate) scopes: Vec<Scope>,
    pub(crate) addresses: Addresses,
}

pub struct ScopesModel {
    /// The frames, outermost first.
    pub frames: Seq<ScopeModel>,
    pub addresses: AddressesModel,
}

impl View for Scopes {
    type V = ScopesModel;

    open(crate) spec fn view(&self) -> ScopesModel {
        ScopesModel {
            frames: self.scopes@.map_values(|s: Scope| s@),
            addresses: self.addresses@,
        }
    }
}

/// The modules at an address; none where the address is not known.
pub open spec fn modules_at(a: AddressesModel, address: NumericalAddress) -> Map<
    Seq<char>,
    ScopeModel,
> {
    if a.contains_key(address) {
        a[address]
    } else {
        Map::empty()
    }
}

/// The frame of a module; an empty one where the module is not known.
pub open spec fn module_at(a: AddressesModel, address: NumericalAddress, module: Seq<char>) -> ScopeModel {
    if modules_at(a, address).contains_key(module) {
        modules_at(a, address)[module]
    } else {
        ScopeModel::empty()
    }
}

impl ScopesModel {
    /// The stack with an empty frame on top.
    pub open spec fn push(self) -> ScopesModel {
        ScopesModel { frames: self.frames.push(ScopeModel::empty()), ..self }
    }

    /// The stack without its top frame.
    pub open spec fn pop(self) -> ScopesModel {
        ScopesModel { frames: self.frames.drop_last(), ..self }
    }

    /// The stack with one more binding in its top frame.
    pub open spec fn bind(self, name: Seq<char>, item: ItemModel) -> ScopesModel {
        ScopesModel {
            frames: self.frames.update(self.frames.len() - 1, self.frames.last().bind(name, item)),
            ..self
        }
    }

    /// The stack with the primitive type names bound in its bottom frame.
    pub open spec fn bind_build_in(self) -> ScopesModel {
        ScopesModel { frames: self.frames.update(0, with_build_in(self.frames[0])), ..self }
    }

    /// The stack with the flags of its top frame set.
    pub open spec fn mark(self, is_function: bool, is_spec: bool) -> ScopesModel {
        ScopesModel {
            frames: self.frames.update(
                self.frames.len() - 1,
                ScopeModel { is_function, is_spec, ..self.frames.last() },
            ),
            ..self
        }
    }

    /// The stack with a module known at an address, as it was if it was
    /// known before and empty otherwise.
    pub open spec fn with_module(self, address: NumericalAddress, module: Seq<char>) -> ScopesModel {
        ScopesModel {
            addresses: self.addresses.insert(
                address,
                modules_at(self.addresses, address).insert(
                    module,
                    module_at(self.addresses, address, module),
                ),
            ),
            ..self
        }
    }

    /// The stack with one more binding in a module, which becomes known if
    /// it was not.
    pub open spec fn bind_top(
        self,
        address: NumericalAddress,
        module: Seq<char>,
        name: Seq<char>,
        item: ItemModel,
    ) -> ScopesModel {
        ScopesModel {
            addresses: self.addresses.insert(
                address,
                modules_at(self.addresses, address).insert(
                    module,
                    module_at(self.addresses, address, module).bind(name, item),
                ),
            ),
            ..self
        }
    }

    /// Whether some frame is the body of a function.
    pub open spec fn in_function(self) -> bool {
        exists|i: int| 0 <= i < self.frames.len() && (#[trigger] self.frames[i]).is_function
    }

    /// Whether some frame is a specification block.
    pub open spec fn in_spec(self) -> bool {
        exists|i: int| 0 <= i < self.frames.len() && (#[trigger] self.frames[i]).is_spec
    }
}

impl Scopes {
    /// There is a bottom frame, and every table is in order.
    pub open(crate) spec fn wf(&self) -> bool {
        &&& self.scopes.len() >= 1
        &&& forall|i: int| 0 <= i < self.scopes.len() ==> (#[trigger] self.scopes[i]).wf()
        &&& self.addresses.wf()
    }

    /// The number of frames.
    pub open spec fn depth(&self) -> nat {
        self@.frames.len()
    }

    /// A stack of one empty frame, and no module.
    pub fn new() -> (s: Self)
        ensures
            s.wf(),
            s@.frames == seq![ScopeModel::empty()],
            s@.addresses == Map::<NumericalAddress, Map<Seq<char>, ScopeModel>>::empty(),
    {
        let mut scopes: Vec<Scope> = Vec::new();
        scopes.push(Scope::new_top());
        let s = Scopes { scopes, addresses: Addresses::new() };
        assert(s@.frames =~= seq![ScopeModel::empty()]);
        s
    }

    /// The number of frames.
    pub fn len(&self) -> (n: usize)
        ensures
            n == self.depth(),
    {
        self.scopes.len()
    }

    /// Binds the names of the primitive types in the bottom frame.
    pub fn enter_build_in(&mut self)
        requires
            old(self).wf(),
        ensures
            final(self).wf(),
            final(self)@ == old(self)@.bind_build_in(),
    {
        self.scopes[0].enter_build_in();
        assert(self@.frames =~= old(self)@.bind_build_in().frames);
    }

    /// Enters a nested region: puts an empty frame on top. Whoever enters
    /// leaves again with [`Scopes::leave_scope`], on every path.
    pub fn enter_scope(&mut self)
        requires
            old(self).wf(),
        ensures
            final(self).wf(),
            final(self)@ == old(self)@.push(),
    {
        self.scopes.push(Scope::default());
        assert(self@.frames =~= old(self)@.push().frames);
    }

    /// Leaves a nested region: takes the top frame off. The bottom frame
    /// stays.
    pub fn leave_scope(&mut self)
        requires
            old(self).wf(),
        ensures
            final(self).wf(),
            final(self)@ == (if old(self)@.frames.len() > 1 {
                old(self)@.pop()
            } else {
                old(self)@
            }),
    {
        if self.scopes.len() > 1 {
            self.scopes.pop();
            assert(self@.frames =~= old(self)@.pop().frames);
        }
    }

    /// Binds a name in the top frame.
    pub fn enter_item(&mut self, name: Symbol, item: Item)
        requires
            old(self).wf(),
        ensures
            final(self).wf(),
            final(self)@ == old(self)@.bind(name@, item@),
    {
        let last = self.scopes.len() - 1;
        self.scopes[last].enter_item(name, item);
        assert(self@.frames =~= old(self)@.bind(name@, item@).frames);
    }

    /// Sets the flags of the top frame.
    pub fn setup_scope(&mut self, is_function: bool, is_spec: bool)
        requires
            old(self).wf(),
        ensures
            final(self).wf(),
            final(self)@ == old(self)@.mark(is_function, is_spec),
    {
        let last = self.scopes.len() - 1;
        self.scopes[last].is_function = is_function;
        self.scopes[last].is_spec = is_spec;
        assert(self@.frames =~= old(self)@.mark(is_function, is_spec).frames);
    }

    /// Whether the walk is inside the body of a function.
    pub fn under_function(&self) -> (r: Option<()>)
        requires
            self.wf(),
        ensures
            r is Some <==> self@.in_function(),
    {
        let mut i: usize = self.scopes.len();
        while i > 0
            invariant
                i <= self.scopes.len(),
                forall|j: int| i <= j < self.scopes.len() ==> !(#[trigger] self@.frames[j]).is_function,
            decreases i,
        {
            i -= 1;
            if self.scopes[i].is_function {
                assert(self@.frames[i as int].is_function);
                return Some(());
            }
        }
        None
    }

    /// Whether the walk is inside a specification block.
    pub fn under_spec(&self) -> (r: Option<()>)
        requires
            self.wf(),
        ensures
            r is Some <==> self@.in_spec(),
    {
        let mut i: usize = self.scopes.len();
        while i > 0
            invariant
                i <= self.scopes.len(),
                forall|j: int| i <= j < self.scopes.len() ==> !(#[trigger] self@.frames[j]).is_spec,
            decreases i,
        {
            i -= 1;
            if self.scopes[i].is_spec {
                assert(self@.frames[i as int].is_spec);
                return Some(());
            }
        }
        None
    }
}

impl Addresses {
    /// Makes a module known at an address, empty if it was not known.
    pub fn enter_module(&mut self, address: NumericalAddress, module: &Symbol)
        requires
            old(self).wf(),
        ensures
            final(self).wf(),
            final(self)@ == old(self)@.insert(
                address,
                modules_at(old(self)@, address).insert(
                    module@,
                    module_at(old(self)@, address, module@),
                ),
            ),
    {
        if !self.address.contains_key(address) {
            self.address.insert(address, Address::default());
        }
        let ghost mid = self.address.map();
        assert(self@ =~= old(self)@.insert(address, modules_at(old(self)@, address)));
        match self.address.get_mut(address) {
            Some(a) => {
                if !a.modules.contains_key(module) {
                    a.modules.insert(module.clone(), Scope::default());
                }
                assert(a.modules.views() =~= mid[address]@.insert(
                    module@,
                    module_at(old(self)@, address, module@),
                ));
            },
            None => {},
        }
        assert(self@ =~= old(self)@.insert(
            address,
            modules_at(old(self)@, address).insert(
                module@,
                module_at(old(self)@, address, module@),
            ),
        ));
    }

    /// Binds a name in a module, which becomes known if it was not.
    pub fn enter_item(
        &mut self,
        address: NumericalAddress,
        module: &Symbol,
        item_name: Symbol,
        item: Item,
    )
        requires
            old(self).wf(),
        ensures
            final(self).wf(),
            final(self)@ == old(self)@.insert(
                address,
                modules_at(old(self)@, address).insert(
                    module@,
                    module_at(old(self)@, address, module@).bind(item_name@, item@),
                ),
            ),
    {
        self.enter_module(address, module);
        let ghost mid = self.address.map();
        let ghost mid_view = self@;
        proof {
            assert(mid_view.contains_key(address));
            assert(mid.contains_key(address));
            assert(mid_view[address] == mid[address]@);
            assert(mid[address]@.contains_key(module@));
            assert(mid[address].modules.map().contains_key(module@));
            assert(mid[address]@[module@] == module_at(old(self)@, address, module@));
        }
        match self.address.get_mut(address) {
            Some(a) => {
                let ghost modules = a.modules.map();
                match a.modules.get_mut(module) {
                    Some(s) => {
                        s.enter_item(item_name, item);
                    },
                    None => {},
                }
                assert(a.modules.views() =~= mid[address]@.insert(
                    module@,
                    modules[module@]@.bind(item_name@, item@),
                ));
                assert(a.modules.views() =~= modules_at(old(self)@, address).insert(
                    module@,
                    module_at(old(self)@, address, module@).bind(item_name@, item@),
                ));
            },
            None => {},
        }
        assert(self@ =~= mid_view.insert(
            address,
            modules_at(old(self)@, address).insert(
                module@,
                module_at(old(self)@, address, module@).bind(item_name@, item@),
            ),
        ));
        assert(self@ =~= old(self)@.insert(
            address,
            modules_at(old(self)@, address).insert(
                module@,
                module_at(old(self)@, address, module@).bind(item_name@, item@),
            ),
        ));
    }

    /// The frame of a module, if the module is known.
    pub fn module(&self, address: NumericalAddress, module: &Symbol) -> (r: Option<&Scope>)
        requires
            self.wf(),
        ensures
            match r {
                Some(s) => s.wf() && modules_at(self@, address).contains_key(module@) && s@
                    == module_at(self@, address, module@),
                None => !modules_at(self@, address).contains_key(module@),
            },
    {
        match self.address.get(address) {
            Some(a) => a.modules.get(module),
            None => None,
        }
    }
}

impl Scopes {
    /// Makes a module known at an address, empty if it was not known.
    pub fn enter_top_module(&mut self, address: NumericalAddress, module: &Symbol)
        requires
            old(self).wf(),
        ensures
            final(self).wf(),
            final(self)@ == old(self)@.with_module(address, module@),
    {
        self.addresses.enter_module(address, module);
    }

    /// Binds a name in a module of the table of all modules. The address
    /// and the module become known if they were not.
    pub fn enter_top_item(
        &mut self,
        address: NumericalAddress,
        module: Symbol,
        item_name: Symbol,
        item: Item,
    )
        requires
            old(self).wf(),
        ensures
            final(self).wf(),
            final(self)@ == old(self)@.bind_top(address, module@, item_name@, item@),
    {
        self.addresses.enter_item(address, &module, item_name, item);
    }
}

/// Which bindings a lookup takes.
#[derive(Clone, Copy, Debug, PartialEq, Eq)]
pub enum Wanted {
    /// Every binding.
    Any,
    /// A binding that denotes a type.
    Type,
    /// A function parameter.
    Parameter,
}

impl Wanted {
    /// Whether the lookup takes an item.
    pub open spec fn takes(self, i: ItemModel) -> bool {
        match self {
            Wanted::Any => true,
            Wanted::Type => item_type(i) is Some,
            Wanted::Parameter => i is Parameter,
        }
    }

    /// Whether the lookup takes an item.
    pub fn accepts(self, i: &Item) -> (b: bool)
        ensures
            b == self.takes(i@),
    {
        match self {
            Wanted::Any => true,
            Wanted::Type => match i {
                Item::TParam(_, _) => true,
                Item::Struct(_, _, _) => true,
                Item::BuildInType(_) => true,
                _ => false,
            },
            Wanted::Parameter => match i {
                Item::Parameter(_, _) => true,
                _ => false,
            },
        }
    }
}

/// The binding of a name in the innermost frame that binds it to something
/// the lookup takes.
pub open spec fn innermost(frames: Seq<ScopeModel>, name: Seq<char>, wanted: Wanted) -> Option<
    ItemModel,
>
    decreases frames.len(),
{
    if frames.len() == 0 {
        None
    } else if frames.last().items.contains_key(name) && wanted.takes(frames.last().items[name]) {
        Some(frames.last().items[name])
    } else {
        innermost(frames.drop_last(), name, wanted)
    }
}

/// The type of a variable: the type of the parameter that the innermost
/// frame with a parameter of that name declares, and unknown if there is
/// none.
pub open spec fn var_type(s: ScopesModel, name: Seq<char>) -> Resolved {
    match innermost(s.frames, name, Wanted::Parameter) {
        Some(ItemModel::Parameter(_, t)) => t,
        _ => unknown_at(Loc::unknown()),
    }
}

/// The type that a member of a module denotes; `failed` where the module or
/// the member is not known or the member denotes no type.
pub open spec fn member_type(
    a: AddressesModel,
    address: NumericalAddress,
    module: Seq<char>,
    member: Seq<char>,
    failed: Resolved,
) -> Resolved {
    if modules_at(a, address).contains_key(module) && module_at(
        a,
        address,
        module,
    ).items.contains_key(member) {
        match item_type(module_at(a, address, module).items[member]) {
            Some(t) => t,
            None => failed,
        }
    } else {
        failed
    }
}

/// The numeric address that the first part of a qualified name stands for.
pub open spec fn address_of(
    lead: LeadingNameAccessModel,
    named: Map<Seq<char>, NumericalAddress>,
) -> Option<NumericalAddress> {
    match lead {
        LeadingNameAccessModel::AnonymousAddress(a) => Some(a),
        LeadingNameAccessModel::Name(n) => if named.contains_key(n.value) {
            Some(named[n.value])
        } else {
            None
        },
    }
}

/// The type that a qualified name denotes, and unknown at the name's place
/// where it denotes none.
///
/// A bare name denotes what the innermost frame binds it to that denotes a
/// type. For `m::x` the member name `x` is looked up in the frames; if the
/// innermost binding is an imported module, `x` is looked up again among that
/// module's members. For `a::m::x` the member is looked up in the table of
/// all modules, a named address being turned into its number by `named`.
pub open spec fn chain_type(
    s: ScopesModel,
    named: Map<Seq<char>, NumericalAddress>,
    chain: Spanned<NameAccessChainModel>,
) -> Resolved {
    let failed = unknown_at(chain.loc);
    match chain.value {
        NameAccessChainModel::One(name) => match innermost(s.frames, name.value, Wanted::Type) {
            Some(i) => match item_type(i) {
                Some(t) => t,
                None => failed,
            },
            None => failed,
        },
        NameAccessChainModel::Two(_, member) => match innermost(
            s.frames,
            member.value,
            Wanted::Any,
        ) {
            Some(ItemModel::ImportedUseModule(ident, address)) => member_type(
                s.addresses,
                address,
                ident.value.module.value,
                member.value,
                failed,
            ),
            _ => failed,
        },
        NameAccessChainModel::Three(pair, member) => match address_of(pair.value.0.value, named) {
            Some(address) => member_type(
                s.addresses,
                address,
                pair.value.1.value,
                member.value,
                failed,
            ),
            None => failed,
        },
    }
}

/// The type that the name of a type expression denotes. A bare name denotes
/// what the innermost frame that binds it binds it to, or unknown if that
/// denotes no type. A name that no frame binds, and every name of two or
/// three parts, gives the failure that keeps the name.
pub open spec fn resolve_chain(s: ScopesModel, chain: Spanned<NameAccessChainModel>) -> Resolved {
    let failure = Spanned {
        loc: chain.loc,
        value: ResolvedTypeModel::ResolvedFailed(TypeModel::Apply(Box::new(chain), Seq::empty())),
    };
    match chain.value {
        NameAccessChainModel::One(x) => match innermost(s.frames, x.value, Wanted::Any) {
            Some(i) => match item_type(i) {
                Some(t) => t,
                None => unknown_at(chain.loc),
            },
            None => failure,
        },
        _ => failure,
    }
}

impl Scopes {
    /// The binding of a name in the innermost frame that binds it to
    /// something the lookup takes.
    pub fn innermost(&self, name: &Symbol, wanted: Wanted) -> (r: Option<&Item>)
        requires
            self.wf(),
        ensures
            opt_view(r) == innermost(self@.frames, name@, wanted),
    {
        let mut i: usize = self.scopes.len();
        assert(self@.frames.take(i as int) =~= self@.frames);
        while i > 0
            invariant
                i <= self.scopes.len(),
                self.wf(),
                innermost(self@.frames, name@, wanted) == innermost(
                    self@.frames.take(i as int),
                    name@,
                    wanted,
                ),
            decreases i,
        {
            i -= 1;
            assert(self@.frames.take(i + 1).drop_last() =~= self@.frames.take(i as int));
            assert(self@.frames.take(i + 1).last() == self.scopes[i as int]@);
            match self.scopes[i].items.get(name) {
                Some(item) => {
                    if wanted.accepts(item) {
                        return Some(item);
                    }
                },
                None => {},
            }
        }
        assert(self@.frames.take(0).len() == 0);
        None
    }

    /// The type of a variable: the type of the parameter that the innermost
    /// frame with a parameter of that name declares, and unknown if there is
    /// none.
    pub fn find_var_type(&self, name: &Symbol) -> (r: ResolvedType)
        requires
            self.wf(),
        ensures
            r@ == var_type(self@, name@),
    {
        match self.innermost(name, Wanted::Parameter) {
            Some(Item::Parameter(_, t)) => t.clone(),
            _ => ResolvedType::new_unknown(Loc::unknown()),
        }
    }

    /// The type that a member of a module denotes; `failed` where the module
    /// or the member is not known or the member denotes no type.
    pub fn find_member_type(
        &self,
        address: NumericalAddress,
        module: &Symbol,
        member: &Symbol,
        failed: ResolvedType,
    ) -> (r: ResolvedType)
        requires
            self.wf(),
        ensures
            r@ == member_type(self@.addresses, address, module@, member@, failed@),
    {
        match self.addresses.module(address, module) {
            Some(scope) => match scope.items.get(member) {
                Some(item) => match item.to_type() {
                    Some(t) => t,
                    None => failed,
                },
                None => failed,
            },
            None => failed,
        }
    }

    /// The type that a qualified name denotes, and unknown at the name's
    /// place where it denotes none. `name_to_addr` gives the number of each
    /// named address.
    pub fn find_name_access_chain_type(
        &self,
        chain: &NameAccessChain,
        name_to_addr: &Table<NumericalAddress>,
    ) -> (r: ResolvedType)
        requires
            self.wf(),
            name_to_addr.wf(),
        ensures
            r@ == chain_type(self@, name_to_addr.map(), chain@),
    {
        let failed = ResolvedType::new_unknown(chain.loc);
        match &chain.value {
            NameAccessChain_::One(name) => match self.innermost(&name.value, Wanted::Type) {
                Some(item) => match item.to_type() {
                    Some(t) => t,
                    None => failed,
                },
                None => failed,
            },
            NameAccessChain_::Two(_, member) => match self.innermost(&member.value, Wanted::Any) {
                Some(Item::ImportedUseModule(ident, address)) => self.find_member_type(
                    *address,
                    &ident.value.module.value,
                    &member.value,
                    failed,
                ),
                _ => failed,
            },
            NameAccessChain_::Three(chain_two, member) => {
                let address = match &chain_two.value.0.value {
                    LeadingNameAccess_::AnonymousAddress(x) => Some(*x),
                    LeadingNameAccess_::Name(name) => match name_to_addr.get(&name.value) {
                        Some(a) => Some(*a),
                        None => None,
                    },
                };
                match address {
                    Some(a) => self.find_member_type(
                        a,
                        &chain_two.value.1.value,
                        &member.value,
                        failed,
                    ),
                    None => failed,
                }
            },
        }
    }

    /// The type that the name of a type expression denotes.
    pub fn resolve_name_access_chain_type(&self, chain: &NameAccessChain) -> (r: ResolvedType)
        requires
            self.wf(),
        ensures
            r@ == resolve_chain(self@, chain@),
    {
        match &chain.value {
            NameAccessChain_::One(x) => {
                match self.innermost(&x.value, Wanted::Any) {
                    Some(item) => {
                        return match item.to_type() {
                            Some(t) => t,
                            None => ResolvedType::new_unknown(chain.loc),
                        };
                    },
                    None => {},
                }
            },
            NameAccessChain_::Two(_, _) => {},
            NameAccessChain_::Three(_, _) => {},
        }
        let no_arguments: Vec<crate::syntax::Type> = Vec::new();
        assert(crate::syntax::views(no_arguments@) =~= Seq::empty());
        ResolvedType(
            Spanned {
                loc: chain.loc,
                value: ResolvedType_::ResolvedFailed(
                    Type_::Apply(Box::new(clone_chain(chain)), no_arguments),
                ),
            },
        )
    }
}

} // verus!
