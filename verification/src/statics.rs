//! Model of the thread-scoped static-mock registration table.
//!
//! A mock for static (receiver-less) methods cannot be found through a
//! receiver, so its constructor registers every interface id it
//! implements into a thread-scoped table mapping the id to the backing
//! instance (in the running harness: the instance id and the engine
//! handle). At most one live static mock per interface id is allowed at
//! a time; a second registration of a live id must fail loudly rather
//! than overwrite. Destruction deregisters the ids again.

use vstd::prelude::*;

verus! {

pub struct TableEntry {
    /// the interface id under which the mock is registered
    pub iface_id: usize,
    /// the backing mock instance's id
    pub instance_id: usize,
}

/// The registration table of one thread scope.
pub struct StaticMockTable {
    pub entries: Vec<TableEntry>,
}

/// The meaning of the entry list: a map from interface id to instance.
pub open spec fn table_map(s: Seq<TableEntry>) -> Map<usize, usize>
    decreases s,
{
    if s.len() == 0 {
        Map::empty()
    } else {
        table_map(s.drop_last()).insert(s.last().iface_id, s.last().instance_id)
    }
}

impl View for StaticMockTable {
    type V = Map<usize, usize>;

    open spec fn view(&self) -> Map<usize, usize> {
        table_map(self.entries@)
    }
}

impl StaticMockTable {
    /// No id is registered twice; the live registrations are exactly
    /// the entries.
    pub open spec fn wf(&self) -> bool {
        forall|i: int, j: int|
            0 <= i < j < self.entries@.len() ==> self.entries@[i].iface_id
                != self.entries@[j].iface_id
    }
}

/// An id carried by no entry is not in the map of the list.
pub proof fn lemma_table_absent(s: Seq<TableEntry>, id: usize)
    requires
        forall|i: int| 0 <= i < s.len() ==> s[i].iface_id != id,
    ensures
        !table_map(s).contains_key(id),
    decreases s,
{
    if s.len() > 0 {
        assert(forall|i: int| 0 <= i < s.drop_last().len() ==> s.drop_last()[i].iface_id != id);
        lemma_table_absent(s.drop_last(), id);
    }
}

/// The map of the list sends an id to the instance of the last entry
/// that carries it.
pub proof fn lemma_table_at(s: Seq<TableEntry>, id: usize, i: int)
    requires
        0 <= i < s.len(),
        s[i].iface_id == id,
        forall|j: int| i < j < s.len() ==> s[j].iface_id != id,
    ensures
        table_map(s).contains_key(id),
        table_map(s)[id] == s[i].instance_id,
    decreases s,
{
    if i == s.len() - 1 {
    } else {
        assert(s.drop_last()[i] == s[i]);
        assert(forall|j: int| i < j < s.drop_last().len() ==> s.drop_last()[j].iface_id != id);
        lemma_table_at(s.drop_last(), id, i);
    }
}

/// Removing the single entry that carries an id removes that id from
/// the map of the list.
pub proof fn lemma_table_map_remove(s: Seq<TableEntry>, i: int)
    requires
        0 <= i < s.len(),
        forall|a: int, b: int| 0 <= a < b < s.len() ==> s[a].iface_id != s[b].iface_id,
    ensures
        table_map(s.remove(i)) == table_map(s).remove(s[i].iface_id),
    decreases s,
{
    let id = s[i].iface_id;
    if i == s.len() - 1 {
        assert(s.remove(i) =~= s.drop_last());
        assert(forall|j: int| 0 <= j < s.drop_last().len() ==> s.drop_last()[j].iface_id != id);
        lemma_table_absent(s.drop_last(), id);
        assert(table_map(s.drop_last()).remove(id) =~= table_map(s.drop_last()));
        assert(table_map(s).remove(id) =~= table_map(s.drop_last()).insert(
            id,
            s.last().instance_id,
        ).remove(id));
    } else {
        assert(s.remove(i).drop_last() =~= s.drop_last().remove(i));
        assert(forall|a: int, b: int|
            0 <= a < b < s.drop_last().len() ==> s.drop_last()[a].iface_id
                != s.drop_last()[b].iface_id);
        lemma_table_map_remove(s.drop_last(), i);
        assert(s.remove(i).last() == s.last());
        assert(s.last().iface_id != id);
        assert(table_map(s.remove(i)) == table_map(s.drop_last().remove(i)).insert(
            s.last().iface_id,
            s.last().instance_id,
        ));
        assert(table_map(s.drop_last()).remove(id).insert(
            s.last().iface_id,
            s.last().instance_id,
        ) =~= table_map(s.drop_last()).insert(s.last().iface_id, s.last().instance_id).remove(id));
    }
}

impl StaticMockTable {
    /// An empty table: no static mock is registered.
    pub fn new() -> (r: StaticMockTable)
        ensures
            r@ == Map::<usize, usize>::empty(),
            r.wf(),
    {
        StaticMockTable { entries: Vec::new() }
    }

    /// Whether a static mock is currently registered for this id.
    pub fn contains(&self, id: usize) -> (r: bool)
        requires
            self.wf(),
        ensures
            r == self@.contains_key(id),
    {
        let mut i: usize = 0;
        while i < self.entries.len()
            invariant
                i <= self.entries@.len(),
                forall|j: int| 0 <= j < i ==> self.entries@[j].iface_id != id,
                self.wf(),
            decreases self.entries@.len() - i,
        {
            if self.entries[i].iface_id == id {
                proof {
                    lemma_table_at(self.entries@, id, i as int);
                }
                return true;
            }
            i = i + 1;
        }
        proof {
            lemma_table_absent(self.entries@, id);
        }
        false
    }

    /// The registered instance for an id, if any.
    pub fn lookup(&self, id: usize) -> (r: Option<usize>)
        requires
            self.wf(),
        ensures
            match r {
                Option::Some(inst) => self@.contains_key(id) && inst == self@[id],
                Option::None => !self@.contains_key(id),
            },
    {
        let mut i: usize = 0;
        while i < self.entries.len()
            invariant
                i <= self.entries@.len(),
                forall|j: int| 0 <= j < i ==> self.entries@[j].iface_id != id,
                self.wf(),
            decreases self.entries@.len() - i,
        {
            if self.entries[i].iface_id == id {
                proof {
                    lemma_table_at(self.entries@, id, i as int);
                }
                return Option::Some(self.entries[i].instance_id);
            }
            i = i + 1;
        }
        proof {
            lemma_table_absent(self.entries@, id);
        }
        Option::None
    }

    /// Register a static mock for an id that has none. In the running
    /// harness a registration of an id that is already live aborts the
    /// process; this entry point excludes that input outright.
    pub fn register(&mut self, id: usize, instance_id: usize)
        requires
            old(self).wf(),
            !old(self)@.contains_key(id),
        ensures
            final(self).wf(),
            final(self)@ == old(self)@.insert(id, instance_id),
    {
        let _registered = self.try_register(id, instance_id);
    }

    /// Attempt a registration. A live registration for the same id is
    /// kept untouched and `false` comes back: the caller must treat
    /// that as fatal, never as an overwrite.
    pub fn try_register(&mut self, id: usize, instance_id: usize) -> (r: bool)
        requires
            old(self).wf(),
        ensures
            final(self).wf(),
            old(self)@.contains_key(id) ==> r == false && final(self)@ == old(self)@,
            !old(self)@.contains_key(id) ==> r == true && final(self)@ == old(self)@.insert(
                id,
                instance_id,
            ),
    {
        if self.contains(id) {
            return false;
        }
        let ghost before = self.entries@;
        proof {
            lemma_table_absent_converse(before, id);
        }
        self.entries.push(TableEntry { iface_id: id, instance_id });
        proof {
            assert(self.entries@.drop_last() =~= before);
        }
        true
    }

    /// Deregister an id; after this the id is free again. An id that is
    /// not registered is left as it is.
    pub fn deregister(&mut self, id: usize)
        requires
            old(self).wf(),
        ensures
            final(self).wf(),
            final(self)@ == old(self)@.remove(id),
    {
        let mut i: usize = 0;
        while i < self.entries.len()
            invariant
                i <= self.entries@.len(),
                forall|j: int| 0 <= j < i ==> self.entries@[j].iface_id != id,
                self.wf(),
                self.entries@ == old(self).entries@,
            decreases self.entries@.len() - i,
        {
            if self.entries[i].iface_id == id {
                proof {
                    lemma_table_map_remove(self.entries@, i as int);
                }
                self.entries.remove(i);
                return ;
            }
            i = i + 1;
        }
        proof {
            lemma_table_absent(self.entries@, id);
            assert(table_map(self.entries@).remove(id) =~= table_map(self.entries@));
        }
    }
}

/// An id in the map of the list is carried by some entry.
pub proof fn lemma_table_absent_converse(s: Seq<TableEntry>, id: usize)
    requires
        !table_map(s).contains_key(id),
    ensures
        forall|i: int| 0 <= i < s.len() ==> s[i].iface_id != id,
    decreases s,
{
    if s.len() > 0 {
        assert(!table_map(s.drop_last()).contains_key(id));
        lemma_table_absent_converse(s.drop_last(), id);
        assert(forall|i: int|
            0 <= i < s.len() - 1 ==> s[i].iface_id == s.drop_last()[i].iface_id);
    }
}

} // verus!
