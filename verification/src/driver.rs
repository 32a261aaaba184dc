//! Running a visitor over a whole repository, in two passes: the first makes
//! every module and its structs known in the table of all modules, so that a
//! file can refer to what a later file declares; the second walks the
//! functions of every file that the visitor wants.
use crate::item::{Item, ItemModel};
use crate::modules::{IDEModule, Modules};
use crate::resolve::resolve;
use crate::scopes::{address_of, ScopeModel, Scopes, ScopesModel};
use crate::syntax::{
    clone_abilities, clone_name, clone_struct_type_parameters, views, AddressDefinition, Definition,
    DefinitionModel, Field, ModuleDefinition, ModuleDefinitionModel, ModuleMember,
    ModuleMemberModel, NameModel, NumericalAddress, Script, StructDefinition, StructDefinitionModel,
    StructFields, StructFieldsModel, StructTypeParameterModel,
};
use crate::types::{Resolved, ResolvedType};
use crate::visitor::{walk_function, Named, ScopeVisitor};
use crate::walk::{bind_keeps_the_rest, push_then_pop, same_but_top};
use vstd::prelude::*;

verus! {

/// The scopes after binding the first `n` type parameters of a struct.
pub open spec fn bind_struct_parameters(
    sc: ScopesModel,
    ps: Seq<StructTypeParameterModel>,
    n: int,
) -> ScopesModel
    decreases n,
{
    if n <= 0 || n > ps.len() {
        sc
    } else {
        bind_struct_parameters(sc, ps, n - 1).bind(
            ps[n - 1].name.value,
            ItemModel::TParam(ps[n - 1].name, ps[n - 1].constraints),
        )
    }
}

/// The fields of a struct with their types resolved in the given scopes. A
/// native struct has none.
pub open spec fn resolved_fields(sc: ScopesModel, fields: StructFieldsModel) -> Seq<
    (NameModel, Resolved),
> {
    match fields {
        StructFieldsModel::Defined(fs) => Seq::new(
            fs.len(),
            |i: int| (fs[i].0, resolve(sc, fs[i].1)),
        ),
        StructFieldsModel::Native(_) => Seq::empty(),
    }
}

/// What a struct declaration is known as: its name, its type parameters,
/// and its fields with their types resolved where the type parameters are
/// bound in a scope of their own.
pub open spec fn struct_item(sc: ScopesModel, d: StructDefinitionModel) -> ItemModel {
    ItemModel::Struct(
        d.name,
        d.type_parameters,
        resolved_fields(
            bind_struct_parameters(sc.push(), d.type_parameters, d.type_parameters.len() as int),
            d.fields,
        ),
    )
}

/// The scopes after making the structs among the first `n` members of a
/// module known.
pub open spec fn register_members(
    sc: ScopesModel,
    address: NumericalAddress,
    module: Seq<char>,
    members: Seq<ModuleMemberModel>,
    n: int,
) -> ScopesModel
    decreases n,
{
    if n <= 0 || n > members.len() {
        sc
    } else {
        let before = register_members(sc, address, module, members, n - 1);
        match members[n - 1] {
            ModuleMemberModel::Struct(d) => before.bind_top(
                address,
                module,
                d.name.value,
                struct_item(before, d),
            ),
            ModuleMemberModel::Function(_) => before,
        }
    }
}

/// The scopes after making a module known, with its structs. The module is
/// known at its own address or, where it has none, at the address of the
/// block around it; where neither gives a number, nothing becomes known.
pub open spec fn register_module(
    named: Named,
    sc: ScopesModel,
    m: ModuleDefinitionModel,
    around: Option<NumericalAddress>,
) -> ScopesModel {
    let address = match m.address {
        Some(l) => address_of(l.value, named),
        None => around,
    };
    match address {
        Some(a) => register_members(
            sc.with_module(a, m.name.value),
            a,
            m.name.value,
            m.members,
            m.members.len() as int,
        ),
        None => sc,
    }
}

/// The scopes after making the first `n` modules of an address block known.
pub open spec fn register_modules(
    named: Named,
    sc: ScopesModel,
    ms: Seq<ModuleDefinitionModel>,
    around: Option<NumericalAddress>,
    n: int,
) -> ScopesModel
    decreases n,
{
    if n <= 0 || n > ms.len() {
        sc
    } else {
        register_module(named, register_modules(named, sc, ms, around, n - 1), ms[n - 1], around)
    }
}

/// The scopes after making known what a file declares. A script declares
/// nothing that can be referred to.
pub open spec fn register_definition(named: Named, sc: ScopesModel, d: DefinitionModel) -> ScopesModel {
    match d {
        DefinitionModel::Module(m) => register_module(named, sc, m, None),
        DefinitionModel::Address(a) => register_modules(
            named,
            sc,
            a.modules,
            address_of(a.addr.value, named),
            a.modules.len() as int,
        ),
        DefinitionModel::Script(_) => sc,
    }
}

/// The scopes after making known what the first `n` files of a package
/// declare.
pub open spec fn register_package(named: Named, sc: ScopesModel, p: IDEModule, n: int) -> ScopesModel
    decreases n,
{
    if n <= 0 || n > p.files().len() {
        sc
    } else {
        register_definition(
            named,
            register_package(named, sc, p, n - 1),
            p.definitions()[p.files()[n - 1]]@,
        )
    }
}

/// The scopes after making known what the first `n` packages declare.
pub open spec fn register_packages(m: Modules, sc: ScopesModel, n: int) -> ScopesModel
    decreases n,
{
    if n <= 0 || n > m.manifests().len() {
        sc
    } else {
        let p = m.packages()[m.manifests()[n - 1]];
        register_package(m.named(), register_packages(m, sc, n - 1), p, p.files().len() as int)
    }
}

/// The scopes after the first pass over a repository, from the given
/// scopes: every module of the repository is known.
pub open spec fn registered_from(m: Modules, sc: ScopesModel) -> ScopesModel {
    register_packages(m, sc, m.manifests().len() as int)
}

/// The scopes that a run starts from: one empty frame, and no module.
pub open spec fn fresh() -> ScopesModel {
    ScopesModel { frames: seq![ScopeModel::empty()], addresses: Map::empty() }
}

/// The scopes that the second pass of a run starts from: one empty frame,
/// and every module of the repository known.
pub open spec fn registered(m: Modules) -> ScopesModel {
    registered_from(m, fresh())
}

/// Walks the functions among the members of a module, from position `from`
/// on, and asks after each function.
pub open spec fn walk_members<V: ScopeVisitor>(
    named: Named,
    members: Seq<ModuleMemberModel>,
    from: int,
    sc: ScopesModel,
    st: V::State,
) -> (V::State, bool)
    decreases members.len() - from,
{
    if from < 0 || from >= members.len() {
        (st, false)
    } else {
        match members[from] {
            ModuleMemberModel::Function(f) => {
                let s1 = walk_function::<V>(named, f, sc, st);
                if V::done(s1) {
                    (s1, true)
                } else {
                    walk_members::<V>(named, members, from + 1, sc, s1)
                }
            },
            ModuleMemberModel::Struct(_) => walk_members::<V>(named, members, from + 1, sc, st),
        }
    }
}

/// Walks a module, if the visitor wants its file.
pub open spec fn walk_module<V: ScopeVisitor>(
    named: Named,
    m: ModuleDefinitionModel,
    sc: ScopesModel,
    st: V::State,
) -> (V::State, bool) {
    if V::visits(st, m.loc.file_hash) {
        walk_members::<V>(named, m.members, 0, sc, st)
    } else {
        (st, false)
    }
}

/// Walks the modules of an address block, from position `from` on.
pub open spec fn walk_modules<V: ScopeVisitor>(
    named: Named,
    ms: Seq<ModuleDefinitionModel>,
    from: int,
    sc: ScopesModel,
    st: V::State,
) -> (V::State, bool)
    decreases ms.len() - from,
{
    if from < 0 || from >= ms.len() {
        (st, false)
    } else {
        let (s1, stopped) = walk_module::<V>(named, ms[from], sc, st);
        if stopped {
            (s1, true)
        } else {
            walk_modules::<V>(named, ms, from + 1, sc, s1)
        }
    }
}

/// Walks what a file declares: a module, the modules of an address block,
/// or the function of a script, each if the visitor wants its file.
pub open spec fn walk_definition<V: ScopeVisitor>(
    named: Named,
    d: DefinitionModel,
    sc: ScopesModel,
    st: V::State,
) -> (V::State, bool) {
    match d {
        DefinitionModel::Module(m) => walk_module::<V>(named, m, sc, st),
        DefinitionModel::Address(a) => walk_modules::<V>(named, a.modules, 0, sc, st),
        DefinitionModel::Script(s) => if V::visits(st, s.loc.file_hash) {
            let s1 = walk_function::<V>(named, s.function, sc, st);
            (s1, V::done(s1))
        } else {
            (st, false)
        },
    }
}

/// Walks the files of a package, from position `from` on, in the order in
/// which they were added.
pub open spec fn walk_package<V: ScopeVisitor>(
    named: Named,
    p: IDEModule,
    from: int,
    sc: ScopesModel,
    st: V::State,
) -> (V::State, bool)
    decreases p.files().len() - from,
{
    if from < 0 || from >= p.files().len() {
        (st, false)
    } else {
        let (s1, stopped) = walk_definition::<V>(named, p.definitions()[p.files()[from]]@, sc, st);
        if stopped {
            (s1, true)
        } else {
            walk_package::<V>(named, p, from + 1, sc, s1)
        }
    }
}

/// Walks the packages of a repository, from position `from` on, in the
/// order in which they were added.
pub open spec fn walk_packages<V: ScopeVisitor>(
    m: Modules,
    from: int,
    sc: ScopesModel,
    st: V::State,
) -> (V::State, bool)
    decreases m.manifests().len() - from,
{
    if from < 0 || from >= m.manifests().len() {
        (st, false)
    } else {
        let (s1, stopped) = walk_package::<V>(
            m.named(),
            m.packages()[m.manifests()[from]],
            0,
            sc,
            st,
        );
        if stopped {
            (s1, true)
        } else {
            walk_packages::<V>(m, from + 1, sc, s1)
        }
    }
}

/// What a run over a repository does to a visitor: every module is made
/// known first, then every file that the visitor wants is walked, function
/// by function, until the visitor is finished.
pub open spec fn run<V: ScopeVisitor>(m: Modules, st: V::State) -> V::State {
    walk_packages::<V>(m, 0, registered(m), st).0
}

impl Modules {
    /// What a struct declaration is known as.
    pub fn struct_item(&self, scopes: &mut Scopes, d: &StructDefinition) -> (r: Item)
        requires
            old(scopes).wf(),
        ensures
            final(scopes).wf(),
            final(scopes)@ == old(scopes)@,
            r@ == struct_item(old(scopes)@, d@),
    {
        scopes.enter_scope();
        let mut i: usize = 0;
        while i < d.type_parameters.len()
            invariant
                i <= d.type_parameters.len(),
                scopes.wf(),
                same_but_top(scopes@, old(scopes)@.push()),
                scopes@ == bind_struct_parameters(
                    old(scopes)@.push(),
                    views(d.type_parameters@),
                    i as int,
                ),
            decreases d.type_parameters.len() - i,
        {
            let p = &d.type_parameters[i];
            let item = Item::TParam(clone_name(&p.name), clone_abilities(&p.constraints));
            proof {
                bind_keeps_the_rest(scopes@, p.name.value@, item@);
            }
            scopes.enter_item(p.name.value.clone(), item);
            i += 1;
        }
        let mut fields: Vec<(Field, ResolvedType)> = Vec::new();
        match &d.fields {
            StructFields::Defined(fs) => {
                let mut j: usize = 0;
                while j < fs.len()
                    invariant
                        j <= fs.len(),
                        fields.len() == j,
                        scopes.wf(),
                        forall|k: int|
                            0 <= k < j ==> fields[k]@ == (
                                fs[k].0@,
                                resolve(scopes@, fs[k].1@),
                            ),
                    decreases fs.len() - j,
                {
                    fields.push((clone_name(&fs[j].0), scopes.resolve_type(&fs[j].1)));
                    j += 1;
                }
                assert(views(fields@) =~= resolved_fields(scopes@, d.fields@));
            },
            StructFields::Native(_) => {
                assert(views(fields@) =~= resolved_fields(scopes@, d.fields@));
            },
        }
        let item = Item::Struct(
            clone_name(&d.name),
            clone_struct_type_parameters(&d.type_parameters),
            fields,
        );
        proof {
            push_then_pop(old(scopes)@, scopes@);
        }
        scopes.leave_scope();
        item
    }

    /// Makes a module known, with its structs.
    pub fn enter_module_top(
        &self,
        s: &mut Scopes,
        module: &ModuleDefinition,
        around: Option<NumericalAddress>,
    )
        requires
            self.wf(),
            old(s).wf(),
        ensures
            final(s).wf(),
            final(s)@ == register_module(self.named(), old(s)@, module@, around),
    {
        let address = match &module.address {
            Some(l) => self.lead_address(&l.value),
            None => around,
        };
        match address {
            Some(a) => {
                s.enter_top_module(a, &module.name.value);
                let ghost start = s@;
                let mut i: usize = 0;
                while i < module.members.len()
                    invariant
                        i <= module.members.len(),
                        s.wf(),
                        s@ == register_members(
                            start,
                            a,
                            module.name.value@,
                            views(module.members@),
                            i as int,
                        ),
                    decreases module.members.len() - i,
                {
                    match &module.members[i] {
                        ModuleMember::Struct(d) => {
                            let item = self.struct_item(s, d);
                            s.enter_top_item(
                                a,
                                module.name.value.clone(),
                                d.name.value.clone(),
                                item,
                            );
                        },
                        ModuleMember::Function(_) => {},
                    }
                    i += 1;
                }
            },
            None => {},
        }
    }

    /// Makes the modules of an address block known.
    pub fn enter_address_top(&self, s: &mut Scopes, address: &AddressDefinition)
        requires
            self.wf(),
            old(s).wf(),
        ensures
            final(s).wf(),
            final(s)@ == register_modules(
                self.named(),
                old(s)@,
                views(address.modules@),
                address_of(address.addr@.value, self.named()),
                address.modules.len() as int,
            ),
    {
        let around = self.lead_address(&address.addr.value);
        let mut i: usize = 0;
        while i < address.modules.len()
            invariant
                i <= address.modules.len(),
                self.wf(),
                s.wf(),
                around == address_of(address.addr@.value, self.named()),
                s@ == register_modules(
                    self.named(),
                    old(s)@,
                    views(address.modules@),
                    around,
                    i as int,
                ),
            decreases address.modules.len() - i,
        {
            self.enter_module_top(s, &address.modules[i], around);
            i += 1;
        }
    }

    /// A script declares nothing that can be referred to: the scopes stay
    /// as they are.
    pub fn enter_script_top(&self, s: &mut Scopes, script: &Script)
        ensures
            *final(s) == *old(s),
    {
    }

    /// Makes known what a file declares.
    pub fn enter_definition_top(&self, s: &mut Scopes, d: &Definition)
        requires
            self.wf(),
            old(s).wf(),
        ensures
            final(s).wf(),
            final(s)@ == register_definition(self.named(), old(s)@, d@),
    {
        match d {
            Definition::Module(m) => self.enter_module_top(s, m, None),
            Definition::Address(a) => self.enter_address_top(s, a),
            Definition::Script(x) => self.enter_script_top(s, x),
        }
    }

    /// The first pass: makes every module of the repository known in the
    /// given scopes.
    pub fn enter_all_top(&self, s: &mut Scopes)
        requires
            self.wf(),
            old(s).wf(),
        ensures
            final(s).wf(),
            final(s)@ == registered_from(*self, old(s)@),
    {
        let mut i: usize = 0;
        while i < self.modules.len()
            invariant
                i <= self.manifests().len(),
                self.wf(),
                s.wf(),
                s@ == register_packages(*self, old(s)@, i as int),
            decreases self.manifests().len() - i,
        {
            let package = self.modules.value_at(i);
            let ghost start = s@;
            let mut j: usize = 0;
            while j < package.defs.len()
                invariant
                    j <= package.files().len(),
                    self.wf(),
                    package.wf(),
                    s.wf(),
                    s@ == register_package(self.named(), start, *package, j as int),
                decreases package.files().len() - j,
            {
                self.enter_definition_top(s, package.defs.value_at(j));
                j += 1;
            }
            i += 1;
        }
    }

    /// The scopes that the second pass of a run starts from.
    pub fn global_scope(&self) -> (s: Scopes)
        requires
            self.wf(),
        ensures
            s.wf(),
            s@ == registered(*self),
    {
        let mut s = Scopes::new();
        self.enter_all_top(&mut s);
        s
    }

    /// Walks the functions of a module, if the visitor wants its file. The
    /// result says whether the visitor stopped the walk.
    pub fn visit_module<V: ScopeVisitor>(
        &self,
        module: &ModuleDefinition,
        scopes: &mut Scopes,
        visitor: &mut V,
    ) -> (stopped: bool)
        requires
            self.wf(),
            old(scopes).wf(),
        ensures
            final(scopes).wf(),
            final(scopes)@ == old(scopes)@,
            (final(visitor).state(), stopped) == walk_module::<V>(
                self.named(),
                module@,
                old(scopes)@,
                old(visitor).state(),
            ),
    {
        if !visitor.file_should_visit(module.loc.file_hash()) {
            return false;
        }
        let mut i: usize = 0;
        while i < module.members.len()
            invariant
                i <= module.members.len(),
                self.wf(),
                scopes.wf(),
                scopes@ == old(scopes)@,
                V::visits(old(visitor).state(), module.loc.file_hash),
                walk_members::<V>(
                    self.named(),
                    views(module.members@),
                    0,
                    old(scopes)@,
                    old(visitor).state(),
                ) == walk_members::<V>(
                    self.named(),
                    views(module.members@),
                    i as int,
                    scopes@,
                    visitor.state(),
                ),
            decreases module.members.len() - i,
        {
            match &module.members[i] {
                ModuleMember::Function(f) => {
                    self.visit_function(f, scopes, visitor);
                    if visitor.finished() {
                        return true;
                    }
                },
                ModuleMember::Struct(_) => {},
            }
            i += 1;
        }
        false
    }

    /// Walks what a file declares. The result says whether the visitor
    /// stopped the walk.
    pub fn visit_definition<V: ScopeVisitor>(
        &self,
        d: &Definition,
        scopes: &mut Scopes,
        visitor: &mut V,
    ) -> (stopped: bool)
        requires
            self.wf(),
            old(scopes).wf(),
        ensures
            final(scopes).wf(),
            final(scopes)@ == old(scopes)@,
            (final(visitor).state(), stopped) == walk_definition::<V>(
                self.named(),
                d@,
                old(scopes)@,
                old(visitor).state(),
            ),
    {
        match d {
            Definition::Module(m) => self.visit_module(m, scopes, visitor),
            Definition::Address(a) => {
                let mut i: usize = 0;
                while i < a.modules.len()
                    invariant
                        i <= a.modules.len(),
                        self.wf(),
                        scopes.wf(),
                        scopes@ == old(scopes)@,
                        d is Address,
                        d->Address_0 == *a,
                        walk_modules::<V>(
                            self.named(),
                            views(a.modules@),
                            0,
                            old(scopes)@,
                            old(visitor).state(),
                        ) == walk_modules::<V>(
                            self.named(),
                            views(a.modules@),
                            i as int,
                            scopes@,
                            visitor.state(),
                        ),
                    decreases a.modules.len() - i,
                {
                    if self.visit_module(&a.modules[i], scopes, visitor) {
                        return true;
                    }
                    i += 1;
                }
                false
            },
            Definition::Script(s) => {
                if visitor.file_should_visit(s.loc.file_hash()) {
                    self.visit_function(&s.function, scopes, visitor);
                    visitor.finished()
                } else {
                    false
                }
            },
        }
    }

    /// The second pass: walks every file that the visitor wants, in the
    /// given scopes. The result says whether the visitor stopped the walk.
    pub fn visit_all<V: ScopeVisitor>(&self, scopes: &mut Scopes, visitor: &mut V) -> (stopped: bool)
        requires
            self.wf(),
            old(scopes).wf(),
        ensures
            final(scopes).wf(),
            final(scopes)@ == old(scopes)@,
            (final(visitor).state(), stopped) == walk_packages::<V>(
                *self,
                0,
                old(scopes)@,
                old(visitor).state(),
            ),
    {
        let mut i: usize = 0;
        while i < self.modules.len()
            invariant
                i <= self.manifests().len(),
                self.wf(),
                scopes.wf(),
                scopes@ == old(scopes)@,
                walk_packages::<V>(*self, 0, old(scopes)@, old(visitor).state())
                    == walk_packages::<V>(*self, i as int, scopes@, visitor.state()),
            decreases self.manifests().len() - i,
        {
            let package = self.modules.value_at(i);
            let ghost state_before = visitor.state();
            let mut j: usize = 0;
            while j < package.defs.len()
                invariant
                    j <= package.files().len(),
                    self.wf(),
                    package.wf(),
                    scopes.wf(),
                    scopes@ == old(scopes)@,
                    i < self.manifests().len(),
                    *package == self.packages()[self.manifests()[i as int]],
                    walk_packages::<V>(*self, 0, old(scopes)@, old(visitor).state())
                        == walk_packages::<V>(*self, i as int, scopes@, state_before),
                    walk_package::<V>(self.named(), *package, 0, scopes@, state_before)
                        == walk_package::<V>(
                        self.named(),
                        *package,
                        j as int,
                        scopes@,
                        visitor.state(),
                    ),
                decreases package.files().len() - j,
            {
                if self.visit_definition(package.defs.value_at(j), scopes, visitor) {
                    return true;
                }
                j += 1;
            }
            i += 1;
        }
        false
    }

    /// Runs a visitor over the whole repository, from one empty frame: the
    /// first pass, then the second. A caller that wants names bound before
    /// the run, such as those of the primitive types, makes the scopes and
    /// calls the two passes itself.
    pub fn run_visitor<V: ScopeVisitor>(&self, visitor: &mut V)
        requires
            self.wf(),
        ensures
            final(visitor).state() == run::<V>(*self, old(visitor).state()),
    {
        let mut global_scope = self.global_scope();
        self.visit_all(&mut global_scope, visitor);
    }
}

} // verus!
