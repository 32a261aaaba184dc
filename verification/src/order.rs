//! The order of the files does not matter to what the first pass makes
//! known, nor to what a visitor is told of a file.
use crate::driver::{
    bind_struct_parameters, fresh, register_definition, register_members, register_module,
    register_package, register_packages, registered, registered_from, resolved_fields, run,
    struct_item, walk_definition, walk_package, walk_packages,
};
use crate::known::module_address;
use crate::modules::{IDEModule, Modules};
use crate::resolve::{each_resolved, resolve, resolve_unfolds};
use crate::scopes::{module_at, modules_at, ScopeModel, ScopesModel};
use crate::syntax::{
    DefinitionModel, ModuleDefinitionModel, ModuleMemberModel, NumericalAddress, Spanned,
    StructDefinitionModel, StructFieldsModel, StructTypeParameterModel, TypeModel,
};
use crate::visitor::{Named, ScopeVisitor};
use vstd::prelude::*;

verus! {

/// What a written type denotes depends on the frames alone, not on the
/// table of modules.
pub proof fn resolution_looks_at_the_frames_alone(
    s1: ScopesModel,
    s2: ScopesModel,
    ty: Spanned<TypeModel>,
)
    requires
        s1.frames == s2.frames,
    ensures
        resolve(s1, ty) == resolve(s2, ty),
    decreases ty,
{
    resolve_unfolds(s1, ty);
    resolve_unfolds(s2, ty);
    match ty.value {
        TypeModel::Apply(chain, _) => {},
        TypeModel::Ref(_, b) => resolution_looks_at_the_frames_alone(s1, s2, *b),
        TypeModel::Fun(ps, ret) => {
            assert forall|i: int| 0 <= i < ps.len() implies resolve(s1, ps[i]) == resolve(
                s2,
                ps[i],
            ) by {
                resolution_looks_at_the_frames_alone(s1, s2, ps[i]);
            }
            assert(each_resolved(s1, ps) =~= each_resolved(s2, ps));
            resolution_looks_at_the_frames_alone(s1, s2, *ret);
        },
        TypeModel::Unit => {},
        TypeModel::Multiple(ts) => {
            assert forall|i: int| 0 <= i < ts.len() implies resolve(s1, ts[i]) == resolve(
                s2,
                ts[i],
            ) by {
                resolution_looks_at_the_frames_alone(s1, s2, ts[i]);
            }
            assert(each_resolved(s1, ts) =~= each_resolved(s2, ts));
        },
    }
}

proof fn parameters_bind_in_the_frames(
    s1: ScopesModel,
    s2: ScopesModel,
    ps: Seq<StructTypeParameterModel>,
    n: int,
)
    requires
        s1.frames == s2.frames,
    ensures
        bind_struct_parameters(s1, ps, n).frames == bind_struct_parameters(s2, ps, n).frames,
    decreases n,
{
    if 0 < n <= ps.len() {
        parameters_bind_in_the_frames(s1, s2, ps, n - 1);
    }
}

/// What a struct declaration is known as depends on the frames alone.
pub proof fn a_struct_item_looks_at_the_frames_alone(
    s1: ScopesModel,
    s2: ScopesModel,
    d: StructDefinitionModel,
)
    requires
        s1.frames == s2.frames,
    ensures
        struct_item(s1, d) == struct_item(s2, d),
{
    let n = d.type_parameters.len() as int;
    parameters_bind_in_the_frames(s1.push(), s2.push(), d.type_parameters, n);
    let i1 = bind_struct_parameters(s1.push(), d.type_parameters, n);
    let i2 = bind_struct_parameters(s2.push(), d.type_parameters, n);
    match d.fields {
        StructFieldsModel::Defined(fs) => {
            assert forall|i: int| 0 <= i < fs.len() implies resolve(i1, fs[i].1) == resolve(
                i2,
                fs[i].1,
            ) by {
                resolution_looks_at_the_frames_alone(i1, i2, fs[i].1);
            }
            assert(resolved_fields(i1, d.fields) =~= resolved_fields(i2, d.fields));
        },
        StructFieldsModel::Native(_) => {},
    }
}

/// The frame of a module after the structs among its first `n` members have
/// been bound in it, each as the scopes `sc` make it known.
pub open spec fn members_scope(
    sc: ScopesModel,
    start: ScopeModel,
    members: Seq<ModuleMemberModel>,
    n: int,
) -> ScopeModel
    decreases n,
{
    if n <= 0 || n > members.len() {
        start
    } else {
        let before = members_scope(sc, start, members, n - 1);
        match members[n - 1] {
            ModuleMemberModel::Struct(d) => before.bind(d.name.value, struct_item(sc, d)),
            ModuleMemberModel::Function(_) => before,
        }
    }
}

proof fn members_scope_looks_at_the_frames_alone(
    s1: ScopesModel,
    s2: ScopesModel,
    start: ScopeModel,
    members: Seq<ModuleMemberModel>,
    n: int,
)
    requires
        s1.frames == s2.frames,
    ensures
        members_scope(s1, start, members, n) == members_scope(s2, start, members, n),
    decreases n,
{
    if 0 < n <= members.len() {
        members_scope_looks_at_the_frames_alone(s1, s2, start, members, n - 1);
        match members[n - 1] {
            ModuleMemberModel::Struct(d) => a_struct_item_looks_at_the_frames_alone(s1, s2, d),
            ModuleMemberModel::Function(_) => {},
        }
    }
}

/// The scopes with the frame of one module put in its place in the table.
pub open spec fn placed(
    sc: ScopesModel,
    a: NumericalAddress,
    module: Seq<char>,
    scope: ScopeModel,
) -> ScopesModel {
    ScopesModel {
        addresses: sc.addresses.insert(a, modules_at(sc.addresses, a).insert(module, scope)),
        ..sc
    }
}

/// Making the structs of a module known changes the frame of that module
/// and nothing else.
proof fn registering_members_changes_one_module(
    sc: ScopesModel,
    a: NumericalAddress,
    module: Seq<char>,
    members: Seq<ModuleMemberModel>,
    n: int,
)
    requires
        modules_at(sc.addresses, a).contains_key(module),
        0 <= n <= members.len(),
    ensures
        register_members(sc, a, module, members, n) == placed(
            sc,
            a,
            module,
            members_scope(sc, module_at(sc.addresses, a, module), members, n),
        ),
    decreases n,
{
    let start = module_at(sc.addresses, a, module);
    if n == 0 {
        assert(placed(sc, a, module, start).addresses =~~= sc.addresses);
    } else {
        registering_members_changes_one_module(sc, a, module, members, n - 1);
        let before = register_members(sc, a, module, members, n - 1);
        let scope_before = members_scope(sc, start, members, n - 1);
        assert(before == placed(sc, a, module, scope_before));
        match members[n - 1] {
            ModuleMemberModel::Struct(d) => {
                a_struct_item_looks_at_the_frames_alone(before, sc, d);
                let item = struct_item(sc, d);
                assert(modules_at(before.addresses, a) == modules_at(sc.addresses, a).insert(
                    module,
                    scope_before,
                ));
                assert(module_at(before.addresses, a, module) == scope_before);
                assert(before.bind_top(a, module, d.name.value, item).addresses =~~= placed(
                    sc,
                    a,
                    module,
                    scope_before.bind(d.name.value, item),
                ).addresses);
            },
            ModuleMemberModel::Function(_) => {},
        }
    }
}

/// The scopes after a module at the top of a file has been made known, said
/// directly: the module's frame, with its structs bound, stands in its place
/// in the table; a module whose address has no number changes nothing.
pub open spec fn with_module_registered(
    named: Named,
    sc: ScopesModel,
    m: ModuleDefinitionModel,
) -> ScopesModel {
    match module_address(named, m, None) {
        Some(a) => placed(
            sc,
            a,
            m.name.value,
            members_scope(
                sc,
                module_at(sc.addresses, a, m.name.value),
                m.members,
                m.members.len() as int,
            ),
        ),
        None => sc,
    }
}

/// Making a module known changes the frame of that module and nothing else.
pub proof fn registering_a_module_changes_one_module(
    named: Named,
    sc: ScopesModel,
    m: ModuleDefinitionModel,
)
    ensures
        register_module(named, sc, m, None) == with_module_registered(named, sc, m),
{
    match module_address(named, m, None) {
        Some(a) => {
            let known = sc.with_module(a, m.name.value);
            let n = m.members.len() as int;
            registering_members_changes_one_module(known, a, m.name.value, m.members, n);
            let start = module_at(sc.addresses, a, m.name.value);
            assert(module_at(known.addresses, a, m.name.value) == start);
            members_scope_looks_at_the_frames_alone(known, sc, start, m.members, n);
            let scope = members_scope(sc, start, m.members, n);
            assert(placed(known, a, m.name.value, scope).addresses =~~= placed(
                sc,
                a,
                m.name.value,
                scope,
            ).addresses);
        },
        None => {},
    }
}

/// Two modules stand at different places of the table, or one of them at
/// none.
pub open spec fn at_different_places(
    named: Named,
    a: ModuleDefinitionModel,
    b: ModuleDefinitionModel,
) -> bool {
    module_address(named, a, None) is None || module_address(named, b, None) is None
        || module_address(named, a, None) != module_address(named, b, None) || a.name.value
        != b.name.value
}

/// Two modules at different places of the table are made known with the
/// same result in either order.
pub proof fn two_modules_register_the_same_in_either_order(
    named: Named,
    sc: ScopesModel,
    a: ModuleDefinitionModel,
    b: ModuleDefinitionModel,
)
    requires
        at_different_places(named, a, b),
    ensures
        register_module(named, register_module(named, sc, a, None), b, None) == register_module(
            named,
            register_module(named, sc, b, None),
            a,
            None,
        ),
{
    let after_a = register_module(named, sc, a, None);
    let after_b = register_module(named, sc, b, None);
    registering_a_module_changes_one_module(named, sc, a);
    registering_a_module_changes_one_module(named, sc, b);
    registering_a_module_changes_one_module(named, after_a, b);
    registering_a_module_changes_one_module(named, after_b, a);
    match (module_address(named, a, None), module_address(named, b, None)) {
        (Some(x), Some(y)) => {
            let start_a = module_at(sc.addresses, x, a.name.value);
            let start_b = module_at(sc.addresses, y, b.name.value);
            assert(module_at(after_a.addresses, y, b.name.value) == start_b);
            assert(module_at(after_b.addresses, x, a.name.value) == start_a);
            members_scope_looks_at_the_frames_alone(
                after_a,
                sc,
                start_b,
                b.members,
                b.members.len() as int,
            );
            members_scope_looks_at_the_frames_alone(
                after_b,
                sc,
                start_a,
                a.members,
                a.members.len() as int,
            );
            assert(with_module_registered(named, after_a, b).addresses =~~= with_module_registered(
                named,
                after_b,
                a,
            ).addresses);
        },
        _ => {},
    }
}

/// Two files can change places: one of them is a script, or both are
/// modules that stand at different places of the table.
pub open spec fn can_change_places(named: Named, a: DefinitionModel, b: DefinitionModel) -> bool {
    a is Script || b is Script || (a matches DefinitionModel::Module(x) && b
        matches DefinitionModel::Module(y) && at_different_places(named, x, y))
}

/// Two files that can change places are made known with the same result in
/// either order.
pub proof fn two_files_register_the_same_in_either_order(
    named: Named,
    sc: ScopesModel,
    a: DefinitionModel,
    b: DefinitionModel,
)
    requires
        can_change_places(named, a, b),
    ensures
        register_definition(named, register_definition(named, sc, a), b) == register_definition(
            named,
            register_definition(named, sc, b),
            a,
        ),
{
    match (a, b) {
        (DefinitionModel::Module(x), DefinitionModel::Module(y)) => {
            two_modules_register_the_same_in_either_order(named, sc, x, y);
        },
        _ => {},
    }
}

/// What the file at position `i` of a package declares.
pub open spec fn declared_at(p: IDEModule, i: int) -> DefinitionModel {
    p.definitions()[p.files()[i]]@
}

/// Two packages hold the same files in the same order, but for the files at
/// positions `k` and `k + 1`, which have changed places.
pub open spec fn changed_places(pa: IDEModule, pb: IDEModule, k: int) -> bool {
    &&& pa.files().len() == pb.files().len()
    &&& 0 <= k
    &&& k + 1 < pa.files().len()
    &&& declared_at(pa, k) == declared_at(pb, k + 1)
    &&& declared_at(pa, k + 1) == declared_at(pb, k)
    &&& forall|i: int|
        0 <= i < pa.files().len() && i != k && i != k + 1 ==> #[trigger] declared_at(pa, i)
            == declared_at(pb, i)
}

proof fn a_package_registers_the_same_before_the_change(
    named: Named,
    sc: ScopesModel,
    pa: IDEModule,
    pb: IDEModule,
    k: int,
    n: int,
)
    requires
        changed_places(pa, pb, k),
        0 <= n <= k,
    ensures
        register_package(named, sc, pa, n) == register_package(named, sc, pb, n),
    decreases n,
{
    if n > 0 {
        a_package_registers_the_same_before_the_change(named, sc, pa, pb, k, n - 1);
        assert(declared_at(pa, n - 1) == declared_at(pb, n - 1));
    }
}

proof fn a_package_registers_the_same_after_the_change(
    named: Named,
    sc: ScopesModel,
    pa: IDEModule,
    pb: IDEModule,
    k: int,
    n: int,
)
    requires
        changed_places(pa, pb, k),
        can_change_places(named, declared_at(pa, k), declared_at(pa, k + 1)),
        k + 2 <= n <= pa.files().len(),
    ensures
        register_package(named, sc, pa, n) == register_package(named, sc, pb, n),
    decreases n,
{
    if n == k + 2 {
        a_package_registers_the_same_before_the_change(named, sc, pa, pb, k, k);
        let before = register_package(named, sc, pa, k);
        assert(register_package(named, sc, pa, k + 1) == register_definition(
            named,
            before,
            declared_at(pa, k),
        ));
        assert(register_package(named, sc, pb, k + 1) == register_definition(
            named,
            before,
            declared_at(pb, k),
        ));
        two_files_register_the_same_in_either_order(
            named,
            before,
            declared_at(pa, k),
            declared_at(pa, k + 1),
        );
    } else {
        a_package_registers_the_same_after_the_change(named, sc, pa, pb, k, n - 1);
        assert(declared_at(pa, n - 1) == declared_at(pb, n - 1));
    }
}

/// Two repositories are the same, but for two neighbouring files of the
/// package at position `q`, which have changed places.
pub open spec fn files_changed_places(ma: Modules, mb: Modules, q: int, k: int) -> bool {
    &&& ma.named() == mb.named()
    &&& ma.manifests().len() == mb.manifests().len()
    &&& 0 <= q < ma.manifests().len()
    &&& changed_places(ma.packages()[ma.manifests()[q]], mb.packages()[mb.manifests()[q]], k)
    &&& forall|p: int|
        0 <= p < ma.manifests().len() && p != q ==> #[trigger] ma.packages()[ma.manifests()[p]]
            == mb.packages()[mb.manifests()[p]]
}

proof fn packages_register_the_same(ma: Modules, mb: Modules, q: int, k: int, sc: ScopesModel, n: int)
    requires
        files_changed_places(ma, mb, q, k),
        can_change_places(
            ma.named(),
            declared_at(ma.packages()[ma.manifests()[q]], k),
            declared_at(ma.packages()[ma.manifests()[q]], k + 1),
        ),
        0 <= n <= ma.manifests().len(),
    ensures
        register_packages(ma, sc, n) == register_packages(mb, sc, n),
    decreases n,
{
    if n > 0 {
        packages_register_the_same(ma, mb, q, k, sc, n - 1);
        let before = register_packages(ma, sc, n - 1);
        let pa = ma.packages()[ma.manifests()[n - 1]];
        let pb = mb.packages()[mb.manifests()[n - 1]];
        if n - 1 == q {
            a_package_registers_the_same_after_the_change(
                ma.named(),
                before,
                pa,
                pb,
                k,
                pa.files().len() as int,
            );
        } else {
            assert(pa == pb);
        }
    }
}

/// What the first pass makes known does not depend on which of two
/// neighbouring files comes first, where the two can change places.
pub proof fn the_first_pass_is_the_same_in_either_order(
    ma: Modules,
    mb: Modules,
    q: int,
    k: int,
    sc: ScopesModel,
)
    requires
        files_changed_places(ma, mb, q, k),
        can_change_places(
            ma.named(),
            declared_at(ma.packages()[ma.manifests()[q]], k),
            declared_at(ma.packages()[ma.manifests()[q]], k + 1),
        ),
    ensures
        registered_from(ma, sc) == registered_from(mb, sc),
{
    packages_register_the_same(ma, mb, q, k, sc, ma.manifests().len() as int);
}

/// The visitor never wants the file: in no state does it want the file of a
/// module or of a script. An address block is no such file.
pub open spec fn never_wanted<V: ScopeVisitor>(d: DefinitionModel) -> bool {
    match d {
        DefinitionModel::Module(m) => forall|s: V::State| !#[trigger] V::visits(s, m.loc.file_hash),
        DefinitionModel::Script(x) => forall|s: V::State| !#[trigger] V::visits(s, x.loc.file_hash),
        DefinitionModel::Address(_) => false,
    }
}

proof fn a_package_is_walked_the_same_after_the_change<V: ScopeVisitor>(
    named: Named,
    pa: IDEModule,
    pb: IDEModule,
    k: int,
    from: int,
    sc: ScopesModel,
    st: V::State,
)
    requires
        changed_places(pa, pb, k),
        k + 2 <= from,
    ensures
        walk_package::<V>(named, pa, from, sc, st) == walk_package::<V>(named, pb, from, sc, st),
    decreases pa.files().len() - from,
{
    if from < pa.files().len() {
        assert(declared_at(pa, from) == declared_at(pb, from));
        let (s1, stopped) = walk_definition::<V>(named, declared_at(pa, from), sc, st);
        if !stopped {
            a_package_is_walked_the_same_after_the_change::<V>(named, pa, pb, k, from + 1, sc, s1);
        }
    }
}

proof fn a_package_is_walked_the_same<V: ScopeVisitor>(
    named: Named,
    pa: IDEModule,
    pb: IDEModule,
    k: int,
    from: int,
    sc: ScopesModel,
    st: V::State,
)
    requires
        changed_places(pa, pb, k),
        never_wanted::<V>(declared_at(pa, k)) || never_wanted::<V>(declared_at(pa, k + 1)),
        0 <= from <= k,
    ensures
        walk_package::<V>(named, pa, from, sc, st) == walk_package::<V>(named, pb, from, sc, st),
    decreases pa.files().len() - from,
{
    if from < k {
        assert(declared_at(pa, from) == declared_at(pb, from));
        let (s1, stopped) = walk_definition::<V>(named, declared_at(pa, from), sc, st);
        if !stopped {
            a_package_is_walked_the_same::<V>(named, pa, pb, k, from + 1, sc, s1);
        }
    } else {
        let a = declared_at(pa, k);
        let b = declared_at(pa, k + 1);
        assert(declared_at(pb, k) == b);
        assert(declared_at(pb, k + 1) == a);
        if never_wanted::<V>(a) {
            assert(walk_definition::<V>(named, a, sc, st) == (st, false));
            let (s1, stopped) = walk_definition::<V>(named, b, sc, st);
            assert(walk_package::<V>(named, pa, k, sc, st) == walk_package::<V>(
                named,
                pa,
                k + 1,
                sc,
                st,
            ));
            assert(walk_package::<V>(named, pa, k + 1, sc, st) == (if stopped {
                (s1, true)
            } else {
                walk_package::<V>(named, pa, k + 2, sc, s1)
            }));
            assert(walk_package::<V>(named, pb, k, sc, st) == (if stopped {
                (s1, true)
            } else {
                walk_package::<V>(named, pb, k + 1, sc, s1)
            }));
            if !stopped {
                assert(walk_definition::<V>(named, a, sc, s1) == (s1, false));
                assert(walk_package::<V>(named, pb, k + 1, sc, s1) == walk_package::<V>(
                    named,
                    pb,
                    k + 2,
                    sc,
                    s1,
                ));
                a_package_is_walked_the_same_after_the_change::<V>(
                    named,
                    pa,
                    pb,
                    k,
                    k + 2,
                    sc,
                    s1,
                );
            }
        } else {
            assert(walk_definition::<V>(named, b, sc, st) == (st, false));
            let (s1, stopped) = walk_definition::<V>(named, a, sc, st);
            assert(walk_package::<V>(named, pb, k, sc, st) == walk_package::<V>(
                named,
                pb,
                k + 1,
                sc,
                st,
            ));
            assert(walk_package::<V>(named, pb, k + 1, sc, st) == (if stopped {
                (s1, true)
            } else {
                walk_package::<V>(named, pb, k + 2, sc, s1)
            }));
            assert(walk_package::<V>(named, pa, k, sc, st) == (if stopped {
                (s1, true)
            } else {
                walk_package::<V>(named, pa, k + 1, sc, s1)
            }));
            if !stopped {
                assert(walk_definition::<V>(named, b, sc, s1) == (s1, false));
                assert(walk_package::<V>(named, pa, k + 1, sc, s1) == walk_package::<V>(
                    named,
                    pa,
                    k + 2,
                    sc,
                    s1,
                ));
                a_package_is_walked_the_same_after_the_change::<V>(
                    named,
                    pa,
                    pb,
                    k,
                    k + 2,
                    sc,
                    s1,
                );
            }
        }
    }
}

proof fn packages_are_walked_the_same<V: ScopeVisitor>(
    ma: Modules,
    mb: Modules,
    q: int,
    k: int,
    from: int,
    sc: ScopesModel,
    st: V::State,
)
    requires
        files_changed_places(ma, mb, q, k),
        never_wanted::<V>(declared_at(ma.packages()[ma.manifests()[q]], k)) || never_wanted::<V>(
            declared_at(ma.packages()[ma.manifests()[q]], k + 1),
        ),
        0 <= from,
    ensures
        walk_packages::<V>(ma, from, sc, st) == walk_packages::<V>(mb, from, sc, st),
    decreases ma.manifests().len() - from,
{
    if from < ma.manifests().len() {
        let pa = ma.packages()[ma.manifests()[from]];
        let pb = mb.packages()[mb.manifests()[from]];
        if from == q {
            a_package_is_walked_the_same::<V>(ma.named(), pa, pb, k, 0, sc, st);
        } else {
            assert(pa == pb);
        }
        let (s1, stopped) = walk_package::<V>(ma.named(), pa, 0, sc, st);
        if !stopped {
            packages_are_walked_the_same::<V>(ma, mb, q, k, from + 1, sc, s1);
        }
    }
}

/// What a visitor is told of a file does not depend on whether the file
/// comes before or after its neighbour: where two neighbouring files can
/// change places and the visitor wants only one of them, a run ends in the
/// same state in either order.
pub proof fn a_run_is_the_same_in_either_order<V: ScopeVisitor>(
    ma: Modules,
    mb: Modules,
    q: int,
    k: int,
    st: V::State,
)
    requires
        files_changed_places(ma, mb, q, k),
        can_change_places(
            ma.named(),
            declared_at(ma.packages()[ma.manifests()[q]], k),
            declared_at(ma.packages()[ma.manifests()[q]], k + 1),
        ),
        never_wanted::<V>(declared_at(ma.packages()[ma.manifests()[q]], k)) || never_wanted::<V>(
            declared_at(ma.packages()[ma.manifests()[q]], k + 1),
        ),
    ensures
        run::<V>(ma, st) == run::<V>(mb, st),
{
    the_first_pass_is_the_same_in_either_order(ma, mb, q, k, fresh());
    packages_are_walked_the_same::<V>(ma, mb, q, k, 0, registered(ma), st);
}

} // verus!
