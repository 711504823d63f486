//! The table from function name to global function index, built from the
//! module's name metadata.

use vstd::prelude::*;
use crate::prologue::{lemma_take_all, lemma_take_succ};

verus! {

/// What a sequence of (name, global index) pairs resolves `name` to:
/// the index of the last pair carrying that name, so that later pairs
/// override earlier ones.
pub open spec fn spec_pairs_lookup(pairs: Seq<(String, u32)>, name: Seq<char>) -> Option<usize>
    decreases pairs.len(),
{
    if pairs.len() == 0 {
        None
    } else if pairs.last().0@ == name {
        Some(pairs.last().1 as usize)
    } else {
        spec_pairs_lookup(pairs.drop_last(), name)
    }
}

/// A mapping from function name to global function index. Built once from
/// the module's name metadata, read-only thereafter; a later entry for the
/// same name overrides an earlier one.
pub struct NameTable {
    entries: Vec<(String, usize)>,
}

impl NameTable {
    /// What this table resolves `name` to.
    pub closed spec fn spec_lookup(self, name: Seq<char>) -> Option<usize> {
        Self::lookup_entries(self.entries@, name)
    }

    /// Resolution over the underlying entry list, last match first.
    pub closed spec fn lookup_entries(s: Seq<(String, usize)>, name: Seq<char>) -> Option<usize>
        decreases s.len(),
    {
        if s.len() == 0 {
            None
        } else if s.last().0@ == name {
            Some(s.last().1)
        } else {
            Self::lookup_entries(s.drop_last(), name)
        }
    }

    /// An empty table, resolving no name at all.
    pub fn new() -> (r: Self)
        ensures
            forall|name: Seq<char>| r.spec_lookup(name) is None,
    {
        NameTable { entries: Vec::new() }
    }

    /// Binds `name` to `global_index`, overriding any earlier binding.
    pub fn insert(&mut self, name: String, global_index: usize)
        ensures
            forall|n: Seq<char>| #[trigger]
                final(self).spec_lookup(n) == if n == name@ {
                    Some(global_index)
                } else {
                    old(self).spec_lookup(n)
                },
    {
        let ghost name_view = name@;
        self.entries.push((name, global_index));
        proof {
            assert(self.entries@.drop_last() =~= old(self).entries@);
            assert(self.entries@.last().0@ == name_view);
        }
    }

    /// The global function index recorded for `name`, if any.
    pub fn get(&self, name: &String) -> (r: Option<usize>)
        ensures
            r == self.spec_lookup(name@),
    {
        let mut j: usize = self.entries.len();
        proof {
            lemma_take_all(self.entries@);
        }
        while j > 0
            invariant
                0 <= j <= self.entries@.len(),
                Self::lookup_entries(self.entries@.take(j as int), name@) == self.spec_lookup(
                    name@,
                ),
            decreases j,
        {
            proof {
                lemma_take_succ(self.entries@, j - 1);
            }
            j = j - 1;
            let entry = &self.entries[j];
            if entry.0 == *name {
                return Some(entry.1);
            }
        }
        None
    }
}

/// Builds the name table from the (name, global index) pairs of the
/// module's function-name metadata, in order, so that a duplicated name
/// resolves to the index of its last pair.
pub fn collect_func_names(pairs: &Vec<(String, u32)>) -> (r: NameTable)
    ensures
        forall|n: Seq<char>| #[trigger] r.spec_lookup(n) == spec_pairs_lookup(pairs@, n),
{
    let mut table = NameTable::new();
    let n = pairs.len();
    let mut j: usize = 0;
    while j < n
        invariant
            n == pairs@.len(),
            0 <= j <= n,
            forall|name: Seq<char>| #[trigger]
                table.spec_lookup(name) == spec_pairs_lookup(pairs@.take(j as int), name),
        decreases n - j,
    {
        proof {
            lemma_take_succ(pairs@, j as int);
        }
        let entry = &pairs[j];
        let name = entry.0.clone();
        let index_u32 = entry.1;
        table.insert(name, index_u32 as usize);
        j = j + 1;
    }
    proof {
        lemma_take_all(pairs@);
    }
    table
}

} // verus!
