//! A visitor that keeps what it is told, and stops after a given number of
//! reports.
use crate::item::{Item, ItemModel};
use crate::scopes::{Scopes, ScopesModel};
use crate::syntax::{views, FileHash};
use crate::visitor::ScopeVisitor;
use vstd::prelude::*;

verus! {

/// The reports so far, and after how many of them the visitor is finished.
pub struct Collected {
    pub seen: Seq<ItemModel>,
    pub limit: Option<usize>,
}

/// A visitor that keeps every item it is told of, in order. With a limit it
/// is finished once it holds that many; without one it is never finished. It
/// wants every file.
#[derive(Debug)]
pub struct Collector {
    items: Vec<Item>,
    limit: Option<usize>,
}

impl Collector {
    /// A visitor that holds nothing yet.
    pub fn new(limit: Option<usize>) -> (c: Self)
        ensures
            c.state() == (Collected { seen: Seq::empty(), limit }),
    {
        let c = Collector { items: Vec::new(), limit };
        assert(views(c.items@) =~= Seq::empty());
        c
    }

    /// The items that the visitor was told of, in order.
    pub fn items(&self) -> (r: &Vec<Item>)
        ensures
            views(r@) == self.state().seen,
    {
        &self.items
    }
}

impl ScopeVisitor for Collector {
    type State = Collected;

    closed spec fn state(&self) -> Collected {
        Collected { seen: views(self.items@), limit: self.limit }
    }

    open spec fn handled(s: Collected, scopes: ScopesModel, item: ItemModel) -> Collected {
        Collected { seen: s.seen.push(item), limit: s.limit }
    }

    open spec fn done(s: Collected) -> bool {
        match s.limit {
            Some(n) => s.seen.len() >= n,
            None => false,
        }
    }

    open spec fn visits(s: Collected, file: FileHash) -> bool {
        true
    }

    fn handle_item(&mut self, scopes: &Scopes, item: &Item) {
        self.items.push(item.clone());
        assert(views(self.items@) =~= views(old(self).items@).push(item@));
    }

    fn file_should_visit(&self, p: FileHash) -> (b: bool) {
        true
    }

    fn finished(&self) -> (b: bool) {
        match self.limit {
            Some(n) => self.items.len() >= n,
            None => false,
        }
    }
}

} // verus!
