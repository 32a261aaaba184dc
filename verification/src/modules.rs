//! The repository of parsed packages that an analysis runs over.
use crate::syntax::{Definition, FileHash, NumericalAddress, Symbol};
use crate::table::Table;
use vstd::prelude::*;

verus! {

/// The parsed files of one package: what each file declares, by the file's
/// path, and the digest of each file.
#[derive(Debug)]
pub struct IDEModule {
    pub(crate) defs: Table<Definition>,
    pub(crate) filepath_to_filehash: Table<FileHash>,
}

impl IDEModule {
    /// Both tables are in order.
    pub open(crate) spec fn wf(&self) -> bool {
        self.defs.wf() && self.filepath_to_filehash.wf()
    }

    /// The paths of the files, in the order in which they were added.
    pub open(crate) spec fn files(&self) -> Seq<Seq<char>> {
        self.defs.order()
    }

    /// What each file declares.
    pub open(crate) spec fn definitions(&self) -> Map<Seq<char>, Definition> {
        self.defs.map()
    }

    /// The digest of each file.
    pub open(crate) spec fn hashes(&self) -> Map<Seq<char>, FileHash> {
        self.filepath_to_filehash.map()
    }

    /// A package without files.
    pub fn new() -> (m: Self)
        ensures
            m.wf(),
            m.files() == Seq::<Seq<char>>::empty(),
            m.definitions() == Map::<Seq<char>, Definition>::empty(),
            m.hashes() == Map::<Seq<char>, FileHash>::empty(),
    {
        IDEModule { defs: Table::new(), filepath_to_filehash: Table::new() }
    }

    /// Adds a file, or puts what it declares now in place of what it
    /// declared before.
    pub fn insert(&mut self, path: &Symbol, hash: FileHash, definition: Definition)
        requires
            old(self).wf(),
        ensures
            final(self).wf(),
            final(self).definitions() == old(self).definitions().insert(path@, definition),
            final(self).hashes() == old(self).hashes().insert(path@, hash),
            final(self).files() == (if old(self).definitions().contains_key(path@) {
                old(self).files()
            } else {
                old(self).files().push(path@)
            }),
    {
        self.defs.insert(path.clone(), definition);
        self.filepath_to_filehash.insert(path.clone(), hash);
    }
}

/// All packages, by the path of their manifest, and the number of each named
/// address.
#[derive(Debug)]
pub struct Modules {
    pub(crate) modules: Table<IDEModule>,
    pub(crate) named_to_addresses: Table<NumericalAddress>,
}

impl Modules {
    /// Every table is in order.
    pub open(crate) spec fn wf(&self) -> bool {
        &&& self.modules.wf()
        &&& self.named_to_addresses.wf()
        &&& forall|k: Seq<char>| #[trigger]
            self.modules.map().contains_key(k) ==> self.modules.map()[k].wf()
    }

    /// The paths of the manifests, in the order in which the packages were
    /// added.
    pub open(crate) spec fn manifests(&self) -> Seq<Seq<char>> {
        self.modules.order()
    }

    /// The package of each manifest.
    pub open(crate) spec fn packages(&self) -> Map<Seq<char>, IDEModule> {
        self.modules.map()
    }

    /// The number of each named address.
    pub open(crate) spec fn named(&self) -> Map<Seq<char>, NumericalAddress> {
        self.named_to_addresses.map()
    }

    /// A repository without packages and without named addresses.
    pub fn new() -> (m: Self)
        ensures
            m.wf(),
            m.manifests() == Seq::<Seq<char>>::empty(),
            m.packages() == Map::<Seq<char>, IDEModule>::empty(),
            m.named() == Map::<Seq<char>, NumericalAddress>::empty(),
    {
        Modules { modules: Table::new(), named_to_addresses: Table::new() }
    }

    /// Gives a named address its number, in place of the one it had, if any.
    pub fn insert_named_address(&mut self, name: Symbol, address: NumericalAddress)
        requires
            old(self).wf(),
        ensures
            final(self).wf(),
            final(self).named() == old(self).named().insert(name@, address),
            final(self).packages() == old(self).packages(),
            final(self).manifests() == old(self).manifests(),
    {
        self.named_to_addresses.insert(name, address);
    }

    /// Adds a package, or puts it in place of the one that the manifest had
    /// before.
    pub fn insert_package(&mut self, manifest: Symbol, package: IDEModule)
        requires
            old(self).wf(),
            package.wf(),
        ensures
            final(self).wf(),
            final(self).named() == old(self).named(),
            final(self).packages() == old(self).packages().insert(manifest@, package),
            final(self).manifests() == (if old(self).packages().contains_key(manifest@) {
                old(self).manifests()
            } else {
                old(self).manifests().push(manifest@)
            }),
    {
        self.modules.insert(manifest, package);
    }
}

} // verus!
