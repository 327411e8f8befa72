//! The two tables of the supervisor: the status of each server, and the
//! process tracked for each. Every operation is an in-memory change.

use crate::table::{entry_names, Table};
use crate::types::config::{McpServerStatus, StatusView};
use vstd::prelude::*;

verus! {

/// A tracked process: the handle that owns it and its retry count.
#[derive(Debug)]
pub struct ManagedProcess<H> {
    pub handle: H,
    pub retry_count: u32,
}

/// The status that a status map gives to `name`: its entry, or `Stopped`
/// where it has none.
pub open spec fn status_in(statuses: Map<Seq<char>, StatusView>, name: Seq<char>) -> StatusView {
    if statuses.contains_key(name) {
        statuses[name]
    } else {
        StatusView::Stopped
    }
}

/// The status recorded for each server name.
#[derive(Debug)]
pub struct StatusTable {
    entries: Table<McpServerStatus>,
}

impl View for StatusTable {
    type V = Map<Seq<char>, StatusView>;

    closed spec fn view(&self) -> Map<Seq<char>, StatusView> {
        self.entries@.map_values(|s: McpServerStatus| s@)
    }
}

impl StatusTable {
    /// A table that records nothing.
    pub fn new() -> (table: Self)
        ensures
            table@ == Map::<Seq<char>, StatusView>::empty(),
    {
        let table = StatusTable { entries: Table::new() };
        assert(table@ =~= Map::<Seq<char>, StatusView>::empty());
        table
    }

    /// The status of `name`: what is recorded for it, or `Stopped`.
    pub fn get_status(&self, name: &str) -> (status: McpServerStatus)
        ensures
            status@ == status_in(self@, name@),
    {
        match self.entries.get(name) {
            Some(s) => s.clone(),
            None => McpServerStatus::Stopped,
        }
    }

    /// Records `status` for `name`, over what was recorded before.
    pub fn set_status(&mut self, name: &str, status: McpServerStatus)
        ensures
            final(self)@ == old(self)@.insert(name@, status@),
    {
        self.entries.insert(name.to_owned(), status);
        assert(self@ =~= old(self)@.insert(name@, status@));
    }
}

/// The process tracked for each server name: at most one per name.
#[derive(Debug)]
pub struct ProcessTable<H> {
    entries: Table<ManagedProcess<H>>,
}

impl<H> View for ProcessTable<H> {
    type V = Map<Seq<char>, ManagedProcess<H>>;

    closed spec fn view(&self) -> Map<Seq<char>, ManagedProcess<H>> {
        self.entries@
    }
}

impl<H> ProcessTable<H> {
    /// A table that tracks nothing.
    pub fn new() -> (table: Self)
        ensures
            table@ == Map::<Seq<char>, ManagedProcess<H>>::empty(),
    {
        ProcessTable { entries: Table::new() }
    }

    /// Tracks `process` for `name` and returns the process that was tracked
    /// for it before.
    pub fn insert_process(&mut self, name: &str, process: ManagedProcess<H>) -> (displaced: Option<
        ManagedProcess<H>,
    >)
        ensures
            final(self)@ == old(self)@.insert(name@, process),
            displaced == if old(self)@.contains_key(name@) {
                Some(old(self)@[name@])
            } else {
                None::<ManagedProcess<H>>
            },
    {
        self.entries.insert(name.to_owned(), process)
    }

    /// Stops tracking `name` and returns the process that was tracked for it.
    pub fn remove_process(&mut self, name: &str) -> (removed: Option<ManagedProcess<H>>)
        ensures
            final(self)@ == old(self)@.remove(name@),
            removed == if old(self)@.contains_key(name@) {
                Some(old(self)@[name@])
            } else {
                None::<ManagedProcess<H>>
            },
    {
        self.entries.remove(name)
    }

    /// The process tracked for `name`.
    pub fn get_process(&self, name: &str) -> (r: Option<&ManagedProcess<H>>)
        ensures
            match r {
                Some(p) => self@.contains_key(name@) && *p == self@[name@],
                None => !self@.contains_key(name@),
            },
    {
        self.entries.get(name)
    }

    /// The number of tracked processes.
    pub fn len(&self) -> (n: usize)
        ensures
            self@.dom().finite(),
            n == self@.dom().len(),
    {
        self.entries.len()
    }

    /// Stops tracking every process and hands them out, each with its name.
    pub fn drain(&mut self) -> (drained: Vec<(String, ManagedProcess<H>)>)
        ensures
            final(self)@ == Map::<Seq<char>, ManagedProcess<H>>::empty(),
            entry_names(drained@).no_duplicates(),
            entry_names(drained@).to_set() == old(self)@.dom(),
            forall|i: int|
                0 <= i < drained@.len() ==> drained@[i].1 == old(self)@[#[trigger] entry_names(
                    drained@,
                )[i]],
    {
        self.entries.take_all()
    }
}

} // verus!
