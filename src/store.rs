//! Shared ownership of surface data: an arena of entries addressed by stable
//! handles, each with the number of its holders. An entry is freed when its
//! last holder lets go. Readers borrow the store shared; a structural edit
//! borrows it exclusively, so it waits for every reader.
use vstd::prelude::*;
use crate::surface::SurfaceData;

verus! {

/// Stable address of one entry of a `SurfaceDataStore`.
#[derive(Clone, Copy, Debug, PartialEq, Eq, Structural, Hash)]
pub struct SurfaceDataHandle {
    pub index: usize,
}

/// One stored surface data and how many holders share it (at least one).
#[derive(Debug)]
pub struct StoreEntry {
    pub data: SurfaceData,
    pub holders: usize,
}

/// Arena of shared surface data.
#[derive(Debug)]
pub struct SurfaceDataStore {
    entries: Vec<Option<StoreEntry>>,
}

impl SurfaceDataStore {
    /// The entries, by handle index; `None` where an entry was freed.
    pub closed spec fn spec_entries(&self) -> Seq<Option<StoreEntry>> {
        self.entries@
    }

    /// The live entry addressed by `h`, if any.
    pub open spec fn spec_entry(&self, h: SurfaceDataHandle) -> Option<StoreEntry> {
        if h.index < self.spec_entries().len() {
            self.spec_entries()[h.index as int]
        } else {
            None
        }
    }

    /// Every other handle addresses what it addressed in `before`.
    pub open spec fn others_kept(&self, before: &SurfaceDataStore, h: SurfaceDataHandle) -> bool {
        forall|g: SurfaceDataHandle| g != h ==> #[trigger] self.spec_entry(g) == before.spec_entry(g)
    }

    /// Empty store.
    pub fn new() -> (r: Self)
        ensures
            forall|h: SurfaceDataHandle| #[trigger] r.spec_entry(h) is None,
    {
        SurfaceDataStore { entries: Vec::new() }
    }

    /// Stores `data` with one holder and returns its new handle.
    pub fn insert(&mut self, data: SurfaceData) -> (h: SurfaceDataHandle)
        ensures
            old(self).spec_entry(h) is None,
            final(self).spec_entry(h) == Some(StoreEntry { data, holders: 1 }),
            final(self).others_kept(old(self), h),
    {
        let h = SurfaceDataHandle { index: self.entries.len() };
        self.entries.push(Some(StoreEntry { data, holders: 1 }));
        h
    }

    /// Adds a holder to the entry; false (and no change) when the handle is
    /// dead or the count is at its maximum.
    pub fn share(&mut self, h: SurfaceDataHandle) -> (r: bool)
        ensures
            r <==> old(self).spec_entry(h) is Some && old(self).spec_entry(h)->Some_0.holders
                < usize::MAX,
            r ==> final(self).spec_entry(h) == Some(
                StoreEntry {
                    data: old(self).spec_entry(h)->Some_0.data,
                    holders: (old(self).spec_entry(h)->Some_0.holders + 1) as usize,
                },
            ),
            !r ==> final(self).spec_entry(h) == old(self).spec_entry(h),
            final(self).others_kept(old(self), h),
    {
        if h.index >= self.entries.len() {
            return false;
        }
        let mut slot: Option<StoreEntry> = None;
        self.entries.set_and_swap(h.index, &mut slot);
        match slot {
            Some(entry) => {
                if entry.holders == usize::MAX {
                    self.entries.set(h.index, Some(entry));
                    false
                } else {
                    let holders = entry.holders + 1;
                    self.entries.set(h.index, Some(StoreEntry { data: entry.data, holders }));
                    true
                }
            },
            None => false,
        }
    }

    /// Removes a holder; the last one frees the entry and gets its data back.
    pub fn release(&mut self, h: SurfaceDataHandle) -> (r: Option<SurfaceData>)
        ensures
            old(self).spec_entry(h) is None ==> r is None && final(self).spec_entry(h) is None,
            old(self).spec_entry(h) is Some && old(self).spec_entry(h)->Some_0.holders <= 1
                ==> r == Some(old(self).spec_entry(h)->Some_0.data) && final(self).spec_entry(
                h,
            ) is None,
            old(self).spec_entry(h) is Some && old(self).spec_entry(h)->Some_0.holders > 1
                ==> r is None && final(self).spec_entry(h) == Some(
                StoreEntry {
                    data: old(self).spec_entry(h)->Some_0.data,
                    holders: (old(self).spec_entry(h)->Some_0.holders - 1) as usize,
                },
            ),
            final(self).others_kept(old(self), h),
    {
        if h.index >= self.entries.len() {
            return None;
        }
        let mut slot: Option<StoreEntry> = None;
        self.entries.set_and_swap(h.index, &mut slot);
        match slot {
            Some(entry) => {
                if entry.holders <= 1 {
                    Some(entry.data)
                } else {
                    let holders = entry.holders - 1;
                    self.entries.set(h.index, Some(StoreEntry { data: entry.data, holders }));
                    None
                }
            },
            None => None,
        }
    }

    /// Shared access to the data of a live entry.
    pub fn get(&self, h: SurfaceDataHandle) -> (r: Option<&SurfaceData>)
        ensures
            r is Some <==> self.spec_entry(h) is Some,
            r is Some ==> *r->Some_0 == self.spec_entry(h)->Some_0.data,
    {
        if h.index >= self.entries.len() {
            return None;
        }
        match &self.entries[h.index] {
            Some(entry) => Some(&entry.data),
            None => None,
        }
    }

    /// Number of holders of a live entry, zero for a dead handle.
    pub fn holders(&self, h: SurfaceDataHandle) -> (r: usize)
        ensures
            self.spec_entry(h) is Some ==> r == self.spec_entry(h)->Some_0.holders,
            self.spec_entry(h) is None ==> r == 0,
    {
        if h.index >= self.entries.len() {
            return 0;
        }
        match &self.entries[h.index] {
            Some(entry) => entry.holders,
            None => 0,
        }
    }

    /// Exclusive edit: puts `data` in place of the entry's data and returns
    /// the data it held; a dead handle gives `data` back unchanged.
    pub fn replace(&mut self, h: SurfaceDataHandle, data: SurfaceData) -> (r: Result<
        SurfaceData,
        SurfaceData,
    >)
        ensures
            old(self).spec_entry(h) is Some ==> r == Ok::<SurfaceData, SurfaceData>(
                old(self).spec_entry(h)->Some_0.data,
            ) && final(self).spec_entry(h) == Some(
                StoreEntry { data, holders: old(self).spec_entry(h)->Some_0.holders },
            ),
            old(self).spec_entry(h) is None ==> r == Err::<SurfaceData, SurfaceData>(data)
                && final(self).spec_entry(h) is None,
            final(self).others_kept(old(self), h),
    {
        if h.index >= self.entries.len() {
            return Err(data);
        }
        let mut slot: Option<StoreEntry> = None;
        self.entries.set_and_swap(h.index, &mut slot);
        match slot {
            Some(entry) => {
                self.entries.set(h.index, Some(StoreEntry { data, holders: entry.holders }));
                Ok(entry.data)
            },
            None => Err(data),
        }
    }
}

} // verus!
