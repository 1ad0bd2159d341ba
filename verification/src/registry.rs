//! The interface registry: the build-wide store of interface
//! declarations, keyed by fully-qualified name. A later registration of
//! the same name overrides the earlier one, so the registry's meaning is
//! a map from names to declarations. Callers serialize access behind
//! their own lock; within the library the registry is an explicit value.

use vstd::prelude::*;

use crate::ast::QualName;
use crate::decl::TraitDecl;

verus! {

pub struct RegEntry {
    pub key: QualName,
    pub decl: TraitDecl,
}

/// The registry: registrations in the order they were made.
pub struct Registry {
    pub entries: Vec<RegEntry>,
}

/// The meaning of a registration list: a map where a later registration
/// of the same name overrides an earlier one.
pub open spec fn entries_map(s: Seq<RegEntry>) -> Map<
    crate::ast::SpecQualName,
    crate::decl::SpecTraitDecl,
>
    decreases s,
{
    if s.len() == 0 {
        Map::empty()
    } else {
        entries_map(s.drop_last()).insert(s.last().key@, s.last().decl@)
    }
}

impl View for Registry {
    type V = Map<crate::ast::SpecQualName, crate::decl::SpecTraitDecl>;

    open spec fn view(&self) -> Map<crate::ast::SpecQualName, crate::decl::SpecTraitDecl> {
        entries_map(self.entries@)
    }
}

/// A name carried by no entry is not in the map of the list.
pub proof fn lemma_entries_map_absent(s: Seq<RegEntry>, q: crate::ast::SpecQualName)
    requires
        forall|i: int| 0 <= i < s.len() ==> s[i].key@ != q,
    ensures
        !entries_map(s).contains_key(q),
    decreases s,
{
    if s.len() > 0 {
        assert(forall|i: int| 0 <= i < s.drop_last().len() ==> s.drop_last()[i].key@ != q);
        lemma_entries_map_absent(s.drop_last(), q);
        assert(s.last().key@ != q);
    }
}

/// The map of the list sends a name to the declaration of the last
/// entry that carries it.
pub proof fn lemma_entries_map_at(s: Seq<RegEntry>, q: crate::ast::SpecQualName, i: int)
    requires
        0 <= i < s.len(),
        s[i].key@ == q,
        forall|j: int| i < j < s.len() ==> s[j].key@ != q,
    ensures
        entries_map(s).contains_key(q),
        entries_map(s)[q] == s[i].decl@,
    decreases s,
{
    if i == s.len() - 1 {
    } else {
        assert(s.drop_last()[i] == s[i]);
        assert(forall|j: int| i < j < s.drop_last().len() ==> s.drop_last()[j].key@ != q);
        lemma_entries_map_at(s.drop_last(), q, i);
        assert(s.last().key@ != q);
    }
}

impl Registry {
    /// An empty registry.
    pub fn new() -> (r: Registry)
        ensures
            r@ == Map::<crate::ast::SpecQualName, crate::decl::SpecTraitDecl>::empty(),
    {
        Registry { entries: Vec::new() }
    }

    /// Register a declaration under a fully-qualified name. Registering
    /// a name that is already present overrides the earlier
    /// registration; nothing is ever removed.
    pub fn register(&mut self, key: QualName, decl: TraitDecl)
        ensures
            final(self)@ == old(self)@.insert(key@, decl@),
    {
        let ghost before = self.entries@;
        self.entries.push(RegEntry { key, decl });
        proof {
            assert(self.entries@.drop_last() =~= before);
        }
    }

    /// Look up the declaration registered last under a name.
    pub fn lookup(&self, key: &QualName) -> (r: Option<TraitDecl>)
        ensures
            match r {
                Option::Some(d) => self@.contains_key(key@) && d@ == self@[key@],
                Option::None => !self@.contains_key(key@),
            },
    {
        let mut i: usize = self.entries.len();
        while i > 0
            invariant
                i <= self.entries@.len(),
                forall|j: int| i <= j < self.entries@.len() ==> self.entries@[j].key@ != key@,
            decreases i,
        {
            i = i - 1;
            if self.entries[i].key.eq_name(key) {
                proof {
                    lemma_entries_map_at(self.entries@, key@, i as int);
                }
                return Option::Some(self.entries[i].decl.deep_clone());
            }
        }
        proof {
            lemma_entries_map_absent(self.entries@, key@);
        }
        Option::None
    }
}

/// Registering the same name twice keeps one entry for it: the later
/// declaration is the one a lookup resolves to, and no other name is
/// affected.
pub proof fn lemma_register_overrides(
    m: Map<crate::ast::SpecQualName, crate::decl::SpecTraitDecl>,
    q: crate::ast::SpecQualName,
    d1: crate::decl::SpecTraitDecl,
    d2: crate::decl::SpecTraitDecl,
)
    ensures
        m.insert(q, d1).insert(q, d2) == m.insert(q, d2),
        m.insert(q, d1).insert(q, d2)[q] == d2,
        m.insert(q, d1).insert(q, d2).dom() == m.insert(q, d2).dom(),
{
    assert(m.insert(q, d1).insert(q, d2) =~= m.insert(q, d2));
}

} // verus!
