use vstd::prelude::*;
use crate::types::H256;

verus! {

/// The protocol fee schedule: named per-operation gas prices.
///
/// Only the prices the operations implemented here draw on are listed;
/// further host operations bring their own named prices.
#[derive(Debug, Clone, Copy, PartialEq, Eq, Structural)]
pub struct Schedule {
    /// Price of one storage load.
    pub sload_gas: u64,
}

/// An environment-level failure: the world-state provider could not answer.
#[derive(Debug, Clone, Copy, PartialEq, Eq, Structural)]
pub struct EnvError;

/// The value the environment's storage holds for `key`: the recorded bytes,
/// or 32 zero bytes for a key never written.
pub open spec fn stored_value(storage: Map<Seq<u8>, Seq<u8>>, key: Seq<u8>) -> Seq<u8> {
    if storage.dom().contains(key) {
        storage[key]
    } else {
        Seq::new(32, |i: int| 0u8)
    }
}

/// The blockchain world-state provider this layer reads through: persistent
/// storage plus the active fee schedule. Implementations decide for
/// themselves when a read fails; what a successful read returns is fixed by
/// the storage model.
pub trait Ext {
    /// The storage mapping this environment answers reads from.
    spec fn storage_view(&self) -> Map<Seq<u8>, Seq<u8>>;

    /// The fee schedule in force.
    spec fn schedule_view(&self) -> Schedule;

    /// Reads the storage value recorded for `key`. A successful read
    /// answers exactly the modelled value; a failed read changes nothing.
    /// Success is never owed: the provider may fail on any read.
    fn storage_at(&mut self, key: &H256) -> (r: Result<H256, EnvError>)
        ensures
            final(self).storage_view() == old(self).storage_view(),
            final(self).schedule_view() == old(self).schedule_view(),
            r matches Ok(v) ==> v@ == stored_value(old(self).storage_view(), key@),
    ;

    /// The active fee schedule.
    fn schedule(&self) -> (r: Schedule)
        ensures
            r == self.schedule_view(),
    ;
}

/// The storage mapping described by a list of key/value pairs, where a later
/// pair for the same key supersedes an earlier one.
pub open spec fn entries_map(s: Seq<(H256, H256)>) -> Map<Seq<u8>, Seq<u8>>
    decreases s.len(),
{
    if s.len() == 0 {
        Map::empty()
    } else {
        entries_map(s.drop_last()).insert(s.last().0@, s.last().1@)
    }
}

/// If entry `i` holds key `k` and no later entry does, the mapping answers
/// entry `i`'s value for `k`.
proof fn lemma_entries_map_match(s: Seq<(H256, H256)>, i: int)
    requires
        0 <= i < s.len(),
        forall|j: int| i < j < s.len() ==> s[j].0@ != s[i].0@,
    ensures
        entries_map(s).dom().contains(s[i].0@),
        entries_map(s)[s[i].0@] == s[i].1@,
    decreases s.len(),
{
    if i == s.len() - 1 {
    } else {
        assert(s.drop_last()[i] == s[i]);
        lemma_entries_map_match(s.drop_last(), i);
    }
}

/// A key held by no entry is absent from the mapping.
proof fn lemma_entries_map_no_match(s: Seq<(H256, H256)>, k: Seq<u8>)
    requires
        forall|j: int| 0 <= j < s.len() ==> s[j].0@ != k,
    ensures
        !entries_map(s).dom().contains(k),
    decreases s.len(),
{
    if s.len() > 0 {
        lemma_entries_map_no_match(s.drop_last(), k);
    }
}

/// An in-memory environment: storage is a list of key/value pairs, the fee
/// schedule is fixed at construction, and reads can be forced to fail to
/// exercise the error path.
pub struct MapExt {
    entries: Vec<(H256, H256)>,
    schedule: Schedule,
    fail_reads: bool,
}

impl MapExt {
    /// An environment with empty storage under the given schedule. When
    /// `fail_reads` is set, every storage read fails.
    pub fn new(schedule: Schedule, fail_reads: bool) -> (r: MapExt)
        ensures
            r.storage_view() == Map::<Seq<u8>, Seq<u8>>::empty(),
            r.schedule_view() == schedule,
    {
        MapExt { entries: Vec::new(), schedule, fail_reads }
    }

    /// Records `value` under `key`, superseding any earlier value.
    pub fn insert(&mut self, key: H256, value: H256)
        ensures
            final(self).storage_view() == old(self).storage_view().insert(key@, value@),
            final(self).schedule_view() == old(self).schedule_view(),
    {
        let ghost pre = self.entries@;
        let ghost k = key@;
        let ghost v = value@;
        self.entries.push((key, value));
        proof {
            assert(self.entries@.drop_last() =~= pre);
            assert(self.entries@.last().0@ == k);
        }
    }
}

impl Ext for MapExt {
    closed spec fn storage_view(&self) -> Map<Seq<u8>, Seq<u8>> {
        entries_map(self.entries@)
    }

    closed spec fn schedule_view(&self) -> Schedule {
        self.schedule
    }

    fn storage_at(&mut self, key: &H256) -> (r: Result<H256, EnvError>) {
        if self.fail_reads {
            return Err(EnvError);
        }
        let mut i: usize = self.entries.len();
        while i > 0
            invariant
                *self == *old(self),
                i <= self.entries.len(),
                forall|j: int| i <= j < self.entries@.len() ==> self.entries@[j].0@ != key@,
            decreases i,
        {
            i = i - 1;
            if self.entries[i].0.equals(key) {
                let value = self.entries[i].1.duplicate();
                proof {
                    lemma_entries_map_match(self.entries@, i as int);
                }
                return Ok(value);
            }
        }
        proof {
            lemma_entries_map_no_match(self.entries@, key@);
        }
        Ok(H256::zero())
    }

    fn schedule(&self) -> Schedule {
        self.schedule
    }
}

} // verus!
