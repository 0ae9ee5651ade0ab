//! A store that keeps its data in memory.

use crate::store::{Contents, KVStoreSync, StoreKey};
use vstd::prelude::*;
use vstd::string::*;

verus! {

/// Something that is stored, with its key.
struct Entry {
    primary_namespace: String,
    secondary_namespace: String,
    key: String,
    data: Vec<u8>,
}

impl Entry {
    /// Where the data is stored.
    spec fn at(self) -> StoreKey {
        (self.primary_namespace@, self.secondary_namespace@, self.key@)
    }

    /// Whether the data is stored under the key.
    fn is_at(&self, primary_namespace: &str, secondary_namespace: &str, key: &str) -> (r: bool)
        ensures
            r == (self.at() == (primary_namespace@, secondary_namespace@, key@)),
    {
        self.primary_namespace == primary_namespace.to_owned() && self.secondary_namespace
            == secondary_namespace.to_owned() && self.key == key.to_owned()
    }
}

/// What entries hold; the last entry for a key counts.
spec fn contents_of(entries: Seq<Entry>) -> Contents
    decreases entries.len(),
{
    if entries.len() == 0 {
        Map::empty()
    } else {
        contents_of(entries.drop_last()).insert(entries.last().at(), entries.last().data@)
    }
}

/// Nothing is stored under the key.
#[derive(Clone, Copy, Debug, PartialEq, Eq, Structural)]
pub struct NotFound;

/// A store that keeps its data in memory. It refuses nothing.
pub struct MemoryStore {
    entries: Vec<Entry>,
    deferred: Ghost<nat>,
}

/// A key under which there is no entry holds nothing.
proof fn lemma_absent(entries: Seq<Entry>, at: StoreKey)
    requires
        forall|i: int| 0 <= i < entries.len() ==> (#[trigger] entries[i]).at() != at,
    ensures
        !contents_of(entries).contains_key(at),
    decreases entries.len(),
{
    if entries.len() > 0 {
        lemma_absent(entries.drop_last(), at);
    }
}

/// A key holds what the last entry for it holds.
proof fn lemma_last(entries: Seq<Entry>, i: int)
    requires
        0 <= i < entries.len(),
        forall|j: int| i < j < entries.len() ==> (#[trigger] entries[j]).at() != entries[i].at(),
    ensures
        contents_of(entries).contains_key(entries[i].at()),
        contents_of(entries)[entries[i].at()] == entries[i].data@,
    decreases entries.len(),
{
    if i < entries.len() - 1 {
        assert(entries[entries.len() - 1].at() != entries[i].at());
        lemma_last(entries.drop_last(), i);
    }
}

impl MemoryStore {
    /// A store that holds nothing.
    pub fn new() -> (r: MemoryStore)
        ensures
            r.contents() == Map::<StoreKey, Seq<u8>>::empty(),
            r.refusals() == 0,
    {
        MemoryStore { entries: Vec::new(), deferred: Ghost(0) }
    }

    /// The place of the last entry for a key, if there is one.
    fn place(&self, primary_namespace: &str, secondary_namespace: &str, key: &str) -> (r: Option<
        usize,
    >)
        ensures
            ({
                let at = (primary_namespace@, secondary_namespace@, key@);
                match r {
                    Some(i) => {
                        &&& i < self.entries@.len()
                        &&& self.entries@[i as int].at() == at
                        &&& self.contents().contains_key(at)
                        &&& self.contents()[at] == self.entries@[i as int].data@
                    },
                    None => !self.contents().contains_key(at),
                }
            }),
    {
        let ghost at = (primary_namespace@, secondary_namespace@, key@);
        let mut i: usize = self.entries.len();
        while i > 0
            invariant
                i <= self.entries.len(),
                at == (primary_namespace@, secondary_namespace@, key@),
                forall|j: int|
                    i <= j < self.entries@.len() ==> (#[trigger] self.entries@[j]).at() != at,
            decreases i,
        {
            i -= 1;
            if self.entries[i].is_at(primary_namespace, secondary_namespace, key) {
                proof {
                    lemma_last(self.entries@, i as int);
                }
                return Some(i);
            }
        }
        proof {
            lemma_absent(self.entries@, at);
        }
        None
    }
}

/// Entries without those for a key hold the same without the key.
proof fn lemma_removed(entries: Seq<Entry>, kept: Seq<Entry>, entry: Entry, at: StoreKey)
    requires
        contents_of(kept) == contents_of(entries).remove(at),
    ensures
        contents_of(if entry.at() == at {
            kept
        } else {
            kept.push(entry)
        }) == contents_of(entries.push(entry)).remove(at),
{
    assert(entries.push(entry).drop_last() =~= entries);
    assert(kept.push(entry).drop_last() =~= kept);
    if entry.at() == at {
        assert(contents_of(entries.push(entry)).remove(at) =~= contents_of(entries).remove(at));
    } else {
        assert(contents_of(kept.push(entry)) =~= contents_of(entries.push(entry)).remove(at));
    }
}

impl KVStoreSync for MemoryStore {
    type Failure = NotFound;

    closed spec fn contents(&self) -> Contents {
        contents_of(self.entries@)
    }

    open spec fn read_failure(&self, at: StoreKey) -> NotFound {
        NotFound
    }

    open spec fn remove_failure(&self, at: StoreKey) -> NotFound {
        NotFound
    }

    open spec fn refusals(&self) -> nat {
        0
    }

    closed spec fn deferrals(&self) -> nat {
        self.deferred@
    }

    fn read(&self, primary_namespace: &str, secondary_namespace: &str, key: &str) -> (r: Result<
        Vec<u8>,
        NotFound,
    >) {
        match self.place(primary_namespace, secondary_namespace, key) {
            Some(i) => Ok(self.entries[i].data.clone()),
            None => Err(NotFound),
        }
    }

    fn write(
        &mut self,
        primary_namespace: &str,
        secondary_namespace: &str,
        key: &str,
        buf: Vec<u8>,
    ) -> (r: Result<(), NotFound>)
        ensures
            r is Ok,
    {
        let entry = Entry {
            primary_namespace: primary_namespace.to_owned(),
            secondary_namespace: secondary_namespace.to_owned(),
            key: key.to_owned(),
            data: buf,
        };
        let ghost entries = self.entries@;
        match self.place(primary_namespace, secondary_namespace, key) {
            Some(_) => {
                let removed = self.remove(primary_namespace, secondary_namespace, key, false);
            },
            None => {},
        }
        let ghost kept = self.entries@;
        self.entries.push(entry);
        proof {
            assert(kept.push(entry).drop_last() =~= kept);
            assert(self.contents() =~= contents_of(entries).insert(entry.at(), entry.data@));
        }
        Ok(())
    }

    fn remove(
        &mut self,
        primary_namespace: &str,
        secondary_namespace: &str,
        key: &str,
        lazy: bool,
    ) -> (r: Result<(), NotFound>)
        ensures
            r is Ok,
    {
        let ghost at = (primary_namespace@, secondary_namespace@, key@);
        let ghost entries = self.entries@;
        let mut kept: Vec<Entry> = Vec::new();
        let mut rest: Vec<Entry> = Vec::new();
        std::mem::swap(&mut rest, &mut self.entries);
        assert(contents_of(entries.take(0)) =~= Map::empty());
        assert(contents_of(kept@) =~= contents_of(entries.take(0)).remove(at));
        let n: usize = rest.len();
        let mut i: usize = 0;
        while i < n
            invariant
                i <= n,
                n == entries.len(),
                at == (primary_namespace@, secondary_namespace@, key@),
                rest@.len() == n - i,
                rest@ =~= entries.skip(i as int),
                contents_of(kept@) == contents_of(entries.take(i as int)).remove(at),
            decreases n - i,
        {
            let entry = rest.remove(0);
            proof {
                assert(entry == entries[i as int]);
                assert(entries.take(i as int).push(entry) =~= entries.take(i + 1));
                lemma_removed(entries.take(i as int), kept@, entry, at);
            }
            if !entry.is_at(primary_namespace, secondary_namespace, key) {
                kept.push(entry);
            }
            i += 1;
        }
        assert(entries.take(i as int) =~= entries);
        self.entries = kept;
        self.deferred = Ghost(
            self.deferred@ + if lazy {
                1nat
            } else {
                0nat
            },
        );
        Ok(())
    }
}

} // verus!
