//! The registry: which stored path belongs to which handle.
//!
//! An entry is made by `register` and leaves the registry the moment a run
//! looks it up: `consume` finds and removes in one step, so a handle can be
//! run at most once.

use vstd::hash_map::StringHashMap;
use vstd::prelude::*;
use vstd::string::StringExecFns;

verus! {

/// The entries of a registry: stored paths by handle.
pub type Entries = Map<Seq<char>, Seq<char>>;

/// Handles and their stored paths. A handle has at most one entry.
pub struct Registry {
    entries: StringHashMap<String>,
}

impl View for Registry {
    type V = Entries;

    closed spec fn view(&self) -> Entries {
        self.entries@.map_values(|stored_path: String| stored_path@)
    }
}

/// One change to a registry.
pub enum RegistryOp {
    /// Record `stored_path` for `handle`, in place of what was recorded.
    Register { handle: Seq<char>, stored_path: Seq<char> },
    /// Take the entry of `handle` out, if there is one.
    Consume { handle: Seq<char> },
}

impl RegistryOp {
    /// The handle that the change is about.
    pub open spec fn handle(self) -> Seq<char> {
        match self {
            RegistryOp::Register { handle, .. } => handle,
            RegistryOp::Consume { handle } => handle,
        }
    }

    /// The entries after the change.
    pub open spec fn apply(self, entries: Entries) -> Entries {
        match self {
            RegistryOp::Register { handle, stored_path } => entries.insert(handle, stored_path),
            RegistryOp::Consume { handle } => entries.remove(handle),
        }
    }
}

/// The entries after all of `ops`, first to last.
pub open spec fn apply_all(entries: Entries, ops: Seq<RegistryOp>) -> Entries
    decreases ops.len(),
{
    if ops.len() == 0 {
        entries
    } else {
        apply_all(ops[0].apply(entries), ops.drop_first())
    }
}

/// No change in `ops` registers `handle`.
pub open spec fn never_registers(ops: Seq<RegistryOp>, handle: Seq<char>) -> bool {
    forall|i: int| 0 <= i < ops.len() ==> !(#[trigger] ops[i] is Register && ops[i].handle() == handle)
}

/// No change in `ops` is about `handle`.
pub open spec fn never_touches(ops: Seq<RegistryOp>, handle: Seq<char>) -> bool {
    forall|i: int| 0 <= i < ops.len() ==> (#[trigger] ops[i]).handle() != handle
}

/// The entries that a list of pairs stands for: each pair records its path
/// for its handle, and of two pairs with one handle the later one stays.
pub open spec fn listed(pairs: Seq<(String, String)>) -> Entries
    decreases pairs.len(),
{
    if pairs.len() == 0 {
        Map::empty()
    } else {
        listed(pairs.drop_last()).insert(pairs.last().0@, pairs.last().1@)
    }
}

impl Registry {
    /// A registry without entries.
    pub fn new() -> (registry: Registry)
        ensures
            registry@ == Entries::empty(),
    {
        Registry { entries: StringHashMap::new() }
    }

    /// A registry that holds what `pairs` lists.
    pub fn from_pairs(pairs: &Vec<(String, String)>) -> (registry: Registry)
        ensures
            registry@ == listed(pairs@),
    {
        let mut registry = Registry::new();
        let mut next: usize = 0;
        while next < pairs.len()
            invariant
                next <= pairs.len(),
                registry@ == listed(pairs@.take(next as int)),
            decreases pairs.len() - next,
        {
            let stored_path = pairs[next].1.clone();
            registry.register(pairs[next].0.as_str(), stored_path);
            proof {
                assert(pairs@.take(next + 1).drop_last() =~= pairs@.take(next as int));
            }
            next += 1;
        }
        proof {
            assert(pairs@.take(next as int) =~= pairs@);
        }
        registry
    }

    /// Records `stored_path` for `handle`. An entry that `handle` already
    /// had is overwritten; every other entry stays as it was.
    pub fn register(&mut self, handle: &str, stored_path: String)
        ensures
            final(self)@ == old(self)@.insert(handle@, stored_path@),
    {
        self.entries.insert(String::from_str(handle), stored_path);
    }

    /// Takes the entry of `handle` out of the registry and returns its stored
    /// path, or `None` where `handle` has no entry. After the call `handle`
    /// has no entry in either case.
    pub fn consume(&mut self, handle: &str) -> (stored_path: Option<String>)
        ensures
            final(self)@ == old(self)@.remove(handle@),
            match stored_path {
                Some(path) => old(self)@.contains_key(handle@) && path@ == old(self)@[handle@],
                None => !old(self)@.contains_key(handle@),
            },
    {
        let stored_path = self.lookup(handle);
        self.entries.remove(handle);
        stored_path
    }

    /// The stored path recorded for `handle`, if any. The entry stays.
    pub fn lookup(&self, handle: &str) -> (stored_path: Option<String>)
        ensures
            match stored_path {
                Some(path) => self@.contains_key(handle@) && path@ == self@[handle@],
                None => !self@.contains_key(handle@),
            },
    {
        match self.entries.get(handle) {
            Some(path) => Some(path.clone()),
            None => None,
        }
    }

    /// Whether `handle` has an entry.
    pub fn contains(&self, handle: &str) -> (found: bool)
        ensures
            found == self@.contains_key(handle@),
    {
        self.entries.contains_key(handle)
    }
}

/// A handle in one of the pairs has an entry in what the pairs list, and a
/// handle in none of them has not.
pub proof fn lemma_listed_handles(pairs: Seq<(String, String)>, handle: Seq<char>)
    ensures
        listed(pairs).contains_key(handle) <==> exists|i: int|
            0 <= i < pairs.len() && (#[trigger] pairs[i]).0@ == handle,
    decreases pairs.len(),
{
    if pairs.len() > 0 {
        let front = pairs.drop_last();
        lemma_listed_handles(front, handle);
        if exists|i: int| 0 <= i < pairs.len() && (#[trigger] pairs[i]).0@ == handle {
            let i = choose|i: int| 0 <= i < pairs.len() && (#[trigger] pairs[i]).0@ == handle;
            if i < front.len() {
                assert(front[i].0@ == handle);
            }
        }
    }
}

/// The path listed for a handle is that of the last pair with that handle.
pub proof fn lemma_listed_last_wins(pairs: Seq<(String, String)>, i: int)
    requires
        0 <= i < pairs.len(),
        forall|j: int| i < j < pairs.len() ==> (#[trigger] pairs[j]).0@ != pairs[i].0@,
    ensures
        listed(pairs).contains_key(pairs[i].0@),
        listed(pairs)[pairs[i].0@] == pairs[i].1@,
    decreases pairs.len(),
{
    if i < pairs.len() - 1 {
        let front = pairs.drop_last();
        assert(forall|j: int| i < j < front.len() ==> (#[trigger] front[j]).0@ != front[i].0@);
        lemma_listed_last_wins(front, i);
    }
}

/// What is true of a handle's entry before changes that are all about other
/// handles is true of it after them: whether it is there, and its path.
pub proof fn lemma_other_handles_leave_entry(
    entries: Entries,
    ops: Seq<RegistryOp>,
    handle: Seq<char>,
)
    requires
        never_touches(ops, handle),
    ensures
        apply_all(entries, ops).contains_key(handle) == entries.contains_key(handle),
        entries.contains_key(handle) ==> apply_all(entries, ops)[handle] == entries[handle],
    decreases ops.len(),
{
    if ops.len() > 0 {
        let rest = ops.drop_first();
        assert(never_touches(rest, handle));
        lemma_other_handles_leave_entry(ops[0].apply(entries), rest, handle);
    }
}

/// A handle without an entry has none after any changes among which none
/// registers it.
pub proof fn lemma_absent_until_registered(
    entries: Entries,
    ops: Seq<RegistryOp>,
    handle: Seq<char>,
)
    requires
        !entries.contains_key(handle),
        never_registers(ops, handle),
    ensures
        !apply_all(entries, ops).contains_key(handle),
    decreases ops.len(),
{
    if ops.len() > 0 {
        let rest = ops.drop_first();
        assert(never_registers(rest, handle));
        lemma_absent_until_registered(ops[0].apply(entries), rest, handle);
    }
}

/// A handle that was never registered has no entry, whatever else was
/// registered and consumed since the registry was made.
pub proof fn lemma_never_registered_is_absent(ops: Seq<RegistryOp>, handle: Seq<char>)
    requires
        never_registers(ops, handle),
    ensures
        !apply_all(Entries::empty(), ops).contains_key(handle),
{
    lemma_absent_until_registered(Entries::empty(), ops, handle);
}

/// Once a handle is consumed, it has no entry until it is registered anew:
/// consuming it again finds nothing, whatever happened to other handles in
/// between.
pub proof fn lemma_consumed_is_absent(entries: Entries, ops: Seq<RegistryOp>, handle: Seq<char>)
    requires
        never_registers(ops, handle),
    ensures
        !apply_all((RegistryOp::Consume { handle }).apply(entries), ops).contains_key(handle),
{
    lemma_absent_until_registered(entries.remove(handle), ops, handle);
}

} // verus!
