//! The managers that the master knows.
use vstd::prelude::*;

use crate::manager::{is_online, ManagerEntry, ManagerView};

verus! {

/// The statuses that the master gives a manager.
pub open spec fn known_status(status: Seq<char>) -> bool {
    status == "provisioning"@ || status == "online"@
}

/// Every manager is registered under its own id, with a status that the master
/// gives.
pub open spec fn consistent(managers: Map<Seq<char>, ManagerView>) -> bool {
    &&& managers.dom().finite()
    &&& forall|id: Seq<char>| #[trigger]
        managers.contains_key(id) ==> managers[id].server_id == id && known_status(
            managers[id].status,
        )
}

/// The managers that are online.
pub open spec fn online_of(managers: Map<Seq<char>, ManagerView>) -> Map<Seq<char>, ManagerView> {
    Map::new(
        |id: Seq<char>| managers.contains_key(id) && is_online(managers[id]),
        |id: Seq<char>| managers[id],
    )
}

/// The entries are those of the registry, each once, in some order.
pub open spec fn enumerates(
    entries: Seq<ManagerView>,
    managers: Map<Seq<char>, ManagerView>,
) -> bool {
    &&& entries.len() == managers.len()
    &&& forall|i: int|
        0 <= i < entries.len() ==> managers.contains_key((#[trigger] entries[i]).server_id)
            && managers[entries[i].server_id] == entries[i]
    &&& forall|i: int, j: int|
        0 <= i < j < entries.len() ==> (#[trigger] entries[i]).server_id != (
        #[trigger] entries[j]).server_id
    &&& forall|id: Seq<char>| #[trigger]
        managers.contains_key(id) ==> exists|i: int|
            0 <= i < entries.len() && #[trigger] entries[i] == managers[id]
}

/// What the entries of a list say, in order.
pub open spec fn entry_views(entries: Seq<ManagerEntry>) -> Seq<ManagerView> {
    entries.map_values(|e: ManagerEntry| e@)
}

/// The managers that the master knows, by server id.
pub struct MasterState {
    entries: Vec<ManagerEntry>,
}

spec fn by_id(entries: Seq<ManagerEntry>) -> Map<Seq<char>, ManagerView>
    decreases entries.len(),
{
    if entries.len() == 0 {
        Map::empty()
    } else {
        by_id(entries.drop_last()).insert(entries.last().server_id@, entries.last()@)
    }
}

spec fn distinct(entries: Seq<ManagerEntry>) -> bool {
    forall|i: int, j: int|
        0 <= i < j < entries.len() ==> (#[trigger] entries[i]).server_id@ != (
        #[trigger] entries[j]).server_id@
}

spec fn all_known(entries: Seq<ManagerEntry>) -> bool {
    forall|i: int| 0 <= i < entries.len() ==> known_status((#[trigger] entries[i]).status@)
}

impl View for MasterState {
    type V = Map<Seq<char>, ManagerView>;

    closed spec fn view(&self) -> Map<Seq<char>, ManagerView> {
        by_id(self.entries@)
    }
}

proof fn lemma_by_id(entries: Seq<ManagerEntry>)
    requires
        distinct(entries),
    ensures
        by_id(entries).dom().finite(),
        by_id(entries).len() == entries.len(),
        forall|i: int|
            0 <= i < entries.len() ==> by_id(entries).contains_key(
                (#[trigger] entries[i]).server_id@,
            ) && by_id(entries)[entries[i].server_id@] == entries[i]@,
        forall|id: Seq<char>| #[trigger]
            by_id(entries).contains_key(id) ==> exists|i: int|
                0 <= i < entries.len() && (#[trigger] entries[i]).server_id@ == id,
    decreases entries.len(),
{
    if entries.len() > 0 {
        let shorter = entries.drop_last();
        let last = entries.last();
        lemma_by_id(shorter);
        assert(!by_id(shorter).contains_key(last.server_id@)) by {
            if by_id(shorter).contains_key(last.server_id@) {
                let i = choose|i: int|
                    0 <= i < shorter.len() && (#[trigger] shorter[i]).server_id@ == last.server_id@;
                assert(entries[i].server_id@ != entries[entries.len() - 1].server_id@);
            }
        }
        assert forall|i: int| 0 <= i < entries.len() implies by_id(entries).contains_key(
            (#[trigger] entries[i]).server_id@,
        ) && by_id(entries)[entries[i].server_id@] == entries[i]@ by {
            if i < shorter.len() {
                assert(shorter[i] == entries[i]);
            }
        }
        assert forall|id: Seq<char>| #[trigger] by_id(entries).contains_key(id) implies exists|i: int|
            0 <= i < entries.len() && (#[trigger] entries[i]).server_id@ == id by {
            if id == last.server_id@ {
                assert(entries[entries.len() - 1].server_id@ == id);
            } else {
                let i = choose|i: int|
                    0 <= i < shorter.len() && (#[trigger] shorter[i]).server_id@ == id;
                assert(entries[i].server_id@ == id);
            }
        }
    }
}

/// A list of entries with distinct ids enumerates them.
proof fn lemma_enumerates(entries: Seq<ManagerEntry>)
    requires
        distinct(entries),
    ensures
        enumerates(entry_views(entries), by_id(entries)),
{
    lemma_by_id(entries);
    let views = entry_views(entries);
    let managers = by_id(entries);
    assert forall|i: int, j: int| 0 <= i < j < views.len() implies (
    #[trigger] views[i]).server_id != (#[trigger] views[j]).server_id by {
        assert(entries[i].server_id@ != entries[j].server_id@);
    }
    assert forall|id: Seq<char>| #[trigger] managers.contains_key(id) implies exists|i: int|
        0 <= i < views.len() && #[trigger] views[i] == managers[id] by {
        let i = choose|i: int| 0 <= i < entries.len() && (#[trigger] entries[i]).server_id@ == id;
        assert(views[i] == managers[id]);
    }
}

/// Replacing an entry by one of the same id changes that id and no other.
proof fn lemma_replace(entries: Seq<ManagerEntry>, at: int, entry: ManagerEntry)
    requires
        distinct(entries),
        0 <= at < entries.len(),
        entries[at].server_id@ == entry.server_id@,
    ensures
        distinct(entries.update(at, entry)),
        by_id(entries.update(at, entry)) == by_id(entries).insert(entry.server_id@, entry@),
    decreases entries.len(),
{
    let changed = entries.update(at, entry);
    if at == entries.len() - 1 {
        assert(changed.drop_last() =~= entries.drop_last());
    } else {
        assert(entries[at].server_id@ != entries[entries.len() - 1].server_id@);
        lemma_replace(entries.drop_last(), at, entry);
        assert(changed.drop_last() =~= entries.drop_last().update(at, entry));
    }
    assert(by_id(changed) =~= by_id(entries).insert(entry.server_id@, entry@));
}

impl MasterState {
    #[verifier::type_invariant]
    closed spec fn well_formed(self) -> bool {
        distinct(self.entries@) && all_known(self.entries@)
    }

    fn position(&self, server_id: &String) -> (r: Option<usize>)
        ensures
            match r {
                Some(at) => at < self.entries@.len() && self.entries@[at as int].server_id@
                    == server_id@,
                None => forall|i: int|
                    0 <= i < self.entries@.len() ==> (#[trigger] self.entries@[i]).server_id@
                        != server_id@,
            },
    {
        for i in 0..self.entries.len()
            invariant
                forall|j: int|
                    0 <= j < i ==> (#[trigger] self.entries@[j]).server_id@ != server_id@,
        {
            if self.entries[i].server_id == *server_id {
                return Some(i);
            }
        }
        None
    }

    /// The manager registered under that id.
    pub fn get(&self, server_id: &String) -> (r: Option<&ManagerEntry>)
        ensures
            consistent(self@),
            match r {
                Some(entry) => self@.contains_key(server_id@) && entry@ == self@[server_id@],
                None => !self@.contains_key(server_id@),
            },
    {
        proof {
            use_type_invariant(self);
            lemma_by_id(self.entries@);
        }
        match self.position(server_id) {
            Some(at) => Some(&self.entries[at]),
            None => None,
        }
    }

    /// Every registered manager, each once. The order is not part of what is
    /// promised.
    pub fn managers(&self) -> (r: Vec<ManagerEntry>)
        ensures
            consistent(self@),
            enumerates(entry_views(r@), self@),
    {
        proof {
            use_type_invariant(self);
            lemma_by_id(self.entries@);
        }
        let mut r: Vec<ManagerEntry> = Vec::new();
        for i in 0..self.entries.len()
            invariant
                r@ =~= self.entries@.take(i as int),
        {
            r.push(self.entries[i].clone());
        }
        assert(r@ =~= self.entries@);
        proof {
            lemma_enumerates(r@);
        }
        r
    }

    /// Every manager that is online, each once. The order is not part of what
    /// is promised.
    pub fn online_managers(&self) -> (r: Vec<ManagerEntry>)
        ensures
            consistent(self@),
            enumerates(entry_views(r@), online_of(self@)),
    {
        proof {
            use_type_invariant(self);
            lemma_by_id(self.entries@);
        }
        let mut r: Vec<ManagerEntry> = Vec::new();
        assert(by_id(r@) =~= online_of(by_id(self.entries@.take(0))));
        for i in 0..self.entries.len()
            invariant
                distinct(self.entries@),
                distinct(r@),
                by_id(r@) == online_of(by_id(self.entries@.take(i as int))),
        {
            let ghost before = r@;
            let ghost seen = self.entries@.take(i as int);
            let ghost entry = self.entries@[i as int];
            proof {
                lemma_by_id(before);
                lemma_by_id(seen);
                assert(self.entries@.take(i + 1).drop_last() =~= seen);
                assert forall|j: int| 0 <= j < seen.len() implies (#[trigger] seen[j]).server_id@
                    != entry.server_id@ by {
                    assert(self.entries@[j].server_id@ != self.entries@[i as int].server_id@);
                }
                assert(!by_id(seen).contains_key(entry.server_id@));
                assert forall|j: int| 0 <= j < before.len() implies (
                #[trigger] before[j]).server_id@ != entry.server_id@ by {
                    assert(by_id(before).contains_key(before[j].server_id@));
                }
            }
            if self.entries[i].is_online() {
                r.push(self.entries[i].clone());
                assert(r@.drop_last() =~= before);
            }
            assert(by_id(r@) =~= online_of(by_id(self.entries@.take(i + 1))));
        }
        assert(self.entries@.take(self.entries@.len() as int) =~= self.entries@);
        proof {
            lemma_enumerates(r@);
        }
        r
    }

    /// Registers a manager under its id, in place of one that had it.
    pub(crate) fn insert(&mut self, entry: ManagerEntry)
        requires
            known_status(entry.status@),
        ensures
            final(self)@ == old(self)@.insert(entry.server_id@, entry@),
    {
        proof {
            use_type_invariant(&*self);
            lemma_by_id(self.entries@);
        }
        let found = self.position(&entry.server_id);
        let mut entries: Vec<ManagerEntry> = Vec::new();
        std::mem::swap(&mut self.entries, &mut entries);
        match found {
            Some(at) => {
                proof {
                    lemma_replace(entries@, at as int, entry);
                }
                entries[at] = entry;
            },
            None => {
                assert(entries@.push(entry).drop_last() =~= entries@);
                entries.push(entry);
            },
        }
        self.entries = entries;
    }
}

impl Default for MasterState {
    fn default() -> (r: MasterState)
        ensures
            r@ == Map::<Seq<char>, ManagerView>::empty(),
    {
        MasterState { entries: Vec::new() }
    }
}

} // verus!
