//! The window registry: window entries under the handles that were issued
//! for them.

use vstd::prelude::*;

verus! {

/// Window entries by handle. Handles are issued as 1, 2, 3, ... in the order
/// of insertion, and a handle is never issued twice: the count of handles
/// issued so far survives when the entries are discarded. The entries that
/// the registry holds are those of the handles issued last, in the order of
/// their insertion.
pub struct Registry<W> {
    entries: Vec<W>,
    discarded: u64,
}

impl<W> View for Registry<W> {
    type V = Seq<W>;

    /// The entries in the order in which they were inserted.
    closed spec fn view(&self) -> Seq<W> {
        self.entries@
    }
}

/// The largest handle that can be issued: handles are host integers.
pub open spec fn max_handle() -> int {
    i64::MAX as int
}

/// Whether no further handle can be issued once `issued` handles were.
pub open spec fn is_full(issued: int) -> bool {
    issued >= max_handle()
}

/// The handle of the first of `entries`, where `issued` handles were issued
/// in all and the entries are those of the last ones.
pub open spec fn first_handle<W>(issued: int, entries: Seq<W>) -> int {
    issued - entries.len() + 1
}

/// Whether `handle` leads to one of `entries`.
pub open spec fn is_live<W>(issued: int, entries: Seq<W>, handle: int) -> bool {
    first_handle(issued, entries) <= handle <= issued
}

/// The position among `entries` of the entry that `handle` leads to.
pub open spec fn position_of<W>(issued: int, entries: Seq<W>, handle: int) -> int
    recommends
        is_live(issued, entries, handle),
{
    handle - first_handle(issued, entries)
}

/// The entry that `handle` leads to.
pub open spec fn entry_of<W>(issued: int, entries: Seq<W>, handle: int) -> W
    recommends
        is_live(issued, entries, handle),
{
    entries[position_of(issued, entries, handle)]
}

/// The registry as a mapping from the live handles to their entries.
pub open spec fn handle_map<W>(issued: int, entries: Seq<W>) -> Map<int, W> {
    Map::new(|h: int| is_live(issued, entries, h), |h: int| entry_of(issued, entries, h))
}

impl<W> Registry<W> {
    #[verifier::type_invariant]
    spec fn within_limit(self) -> bool {
        self.discarded + self.entries@.len() <= i64::MAX
    }

    /// The number of handles issued so far, discarded entries included.
    pub closed spec fn issued(self) -> int {
        self.discarded + self.entries@.len()
    }

    /// Every entry has a handle of its own, and handles start at 1: at least
    /// as many handles were issued as there are entries.
    pub proof fn lemma_issued_covers_entries(self)
        ensures
            self@.len() <= self.issued(),
            first_handle(self.issued(), self@) >= 1,
    {
    }

    /// A registry without entries; the first handle it issues is 1.
    pub fn new() -> (registry: Self)
        ensures
            registry@ == Seq::<W>::empty(),
            registry.issued() == 0,
    {
        Registry { entries: Vec::new(), discarded: 0 }
    }

    /// The number of entries.
    pub fn len(&self) -> (n: usize)
        ensures
            n == self@.len(),
    {
        self.entries.len()
    }

    /// Drops all entries. The handles issued so far stay spent: none of them
    /// leads to an entry any more, and none is issued again.
    pub fn discard(&mut self)
        ensures
            final(self)@ == Seq::<W>::empty(),
            final(self).issued() == old(self).issued(),
    {
        proof {
            use_type_invariant(&*self);
        }
        let spent: u64 = self.discarded + self.entries.len() as u64;
        *self = Registry { entries: Vec::new(), discarded: spent };
    }

    /// Stores `entry` under the next handle and returns that handle. A full
    /// registry stays as it is and gives `None`.
    pub fn insert(&mut self, entry: W) -> (handle: Option<i64>)
        ensures
            is_full(old(self).issued()) ==> handle is None && final(self)@ == old(self)@
                && final(self).issued() == old(self).issued(),
            !is_full(old(self).issued()) ==> handle == Some((old(self).issued() + 1) as i64)
                && handle->Some_0 == old(self).issued() + 1
                && final(self)@ == old(self)@.push(entry)
                && final(self).issued() == old(self).issued() + 1,
    {
        proof {
            use_type_invariant(&*self);
        }
        let spent: u64 = self.discarded + self.entries.len() as u64;
        if spent >= 0x7fff_ffff_ffff_ffffu64 {
            return None;
        }
        // The entries are taken out for the push, so that the registry is
        // within its limit at every moment.
        let mut entries: Vec<W> = Vec::new();
        core::mem::swap(&mut self.entries, &mut entries);
        entries.push(entry);
        core::mem::swap(&mut self.entries, &mut entries);
        Some((spent + 1) as i64)
    }

    /// The entry under `handle`, if the handle leads to one.
    pub fn get(&self, handle: i64) -> (found: Option<&W>)
        ensures
            is_live(self.issued(), self@, handle as int) ==> found == Some(
                &entry_of(self.issued(), self@, handle as int),
            ),
            !is_live(self.issued(), self@, handle as int) ==> found is None,
    {
        proof {
            use_type_invariant(self);
        }
        if handle < 1 || handle as u64 <= self.discarded {
            return None;
        }
        let offset: u64 = handle as u64 - self.discarded - 1;
        if offset >= self.entries.len() as u64 {
            return None;
        }
        Some(&self.entries[offset as usize])
    }

    /// The entry under `handle` for changing in place, if the handle leads to
    /// one. Whatever the caller does to the entry, every other entry and
    /// every handle stay as they are.
    pub fn get_mut(&mut self, handle: i64) -> (found: Option<&mut W>)
        ensures
            final(self).issued() == old(self).issued(),
            is_live(old(self).issued(), old(self)@, handle as int) ==> found is Some
                && *found->Some_0 == entry_of(old(self).issued(), old(self)@, handle as int)
                && final(self)@ == old(self)@.update(
                position_of(old(self).issued(), old(self)@, handle as int),
                *final(found->Some_0),
            ),
            !is_live(old(self).issued(), old(self)@, handle as int) ==> found is None
                && final(self)@ == old(self)@,
    {
        proof {
            use_type_invariant(&*self);
        }
        if handle < 1 || handle as u64 <= self.discarded {
            return None;
        }
        let offset: u64 = handle as u64 - self.discarded - 1;
        if offset >= self.entries.len() as u64 {
            return None;
        }
        Some(&mut self.entries[offset as usize])
    }
}

} // verus!
