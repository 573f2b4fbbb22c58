//! The sync state: which comics have their metadata on record.

use vstd::prelude::*;
use std::collections::HashMap;
use vstd::std_specs::hash::spec_keys_iter;
use vstd::std_specs::iter::IteratorSpec;
use crate::catalog::Xkcd;

verus! {

broadcast use vstd::std_specs::hash::group_hash_axioms;

/// Why the sync state refused a write.
#[derive(Clone, Copy, Debug, PartialEq, Eq)]
pub enum StoreError {
    /// The number already has its metadata on record.
    AlreadyPresent,
}

/// Metadata by comic number. A number, once on record, keeps its metadata:
/// nothing is overwritten and nothing removed.
#[derive(Clone, Debug)]
pub struct SyncState {
    entries: HashMap<usize, Xkcd>,
}

impl View for SyncState {
    type V = Map<usize, Xkcd>;

    closed spec fn view(&self) -> Map<usize, Xkcd> {
        self.entries@
    }
}

impl SyncState {
    /// A sync state with nothing on record.
    pub fn new() -> (state: SyncState)
        ensures
            state@ == Map::<usize, Xkcd>::empty(),
    {
        SyncState { entries: HashMap::new() }
    }

    /// How many comics are on record.
    pub fn len(&self) -> (n: usize)
        ensures
            n == self@.len(),
            self@.dom().finite(),
    {
        self.entries.len()
    }

    /// Whether comic `num` is on record.
    pub fn contains(&self, num: usize) -> (found: bool)
        ensures
            found == self@.contains_key(num),
    {
        self.entries.contains_key(&num)
    }

    /// The metadata on record for comic `num`.
    pub fn get(&self, num: usize) -> (entry: Option<&Xkcd>)
        ensures
            match entry {
                Some(e) => self@.contains_key(num) && *e == self@[num],
                None => !self@.contains_key(num),
            },
    {
        self.entries.get(&num)
    }

    /// Puts comic `num` on record. A number that is on record already is
    /// refused, and the state stays as it was.
    pub fn insert(&mut self, num: usize, entry: Xkcd) -> (done: Result<(), StoreError>)
        ensures
            final(self)@ == written(old(self)@, num, entry),
            done == if old(self)@.contains_key(num) {
                Err::<(), StoreError>(StoreError::AlreadyPresent)
            } else {
                Ok::<(), StoreError>(())
            },
    {
        if self.entries.contains_key(&num) {
            Err(StoreError::AlreadyPresent)
        } else {
            self.entries.insert(num, entry);
            Ok(())
        }
    }

    /// The numbers on record, each once, in no particular order.
    pub fn nums(&self) -> (nums: Vec<usize>)
        ensures
            nums@.to_set() == self@.dom(),
            nums@.no_duplicates(),
            nums@.len() == self@.len(),
    {
        let mut nums: Vec<usize> = Vec::new();
        for k in it: self.entries.keys()
            invariant
                it.seq() == spec_keys_iter(&self.entries).remaining(),
                nums@.len() == it.index(),
                forall|i: int| 0 <= i < nums@.len() ==> nums@[i] == *it.seq()[i],
        {
            nums.push(*k);
        }
        proof {
            let keys = spec_keys_iter(&self.entries).remaining();
            assert(nums@ =~= keys.unref());
        }
        nums
    }
}

/// The record after an attempt to write `entry` for comic `num`: as it
/// was where the number is on record, else with the entry added.
pub open spec fn written(before: Map<usize, Xkcd>, num: usize, entry: Xkcd) -> Map<usize, Xkcd> {
    if before.contains_key(num) {
        before
    } else {
        before.insert(num, entry)
    }
}

/// A number is written at most once. Whatever an attempt to write
/// answers, every comic that was on record still is, with the metadata it
/// had, and the number is on record afterwards; so a second attempt for
/// the same number, with whatever metadata, changes nothing.
pub proof fn lemma_written_once(before: Map<usize, Xkcd>, num: usize, first: Xkcd, second: Xkcd)
    ensures
        before.submap_of(written(before, num, first)),
        written(before, num, first).contains_key(num),
        !before.contains_key(num) ==> written(before, num, first)[num] == first,
        written(written(before, num, first), num, second) == written(before, num, first),
{
}

} // verus!
