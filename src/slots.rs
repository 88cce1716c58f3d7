use vstd::prelude::*;

verus! {

/// The completion fence of the last submission that wrote one swapchain
/// image.
///
/// `id` numbers the submissions of one engine in order; it exists for the
/// proofs only, to tell one fence from another.
pub struct SlotFence<F> {
    pub handle: F,
    pub id: Ghost<nat>,
}

/// One fence entry per swapchain image, addressed by image index.
///
/// The table is allocated once per swapchain and every entry is replaced,
/// never mutated, on each submission to its image.
pub struct FenceTable<F> {
    slots: Vec<Option<SlotFence<F>>>,
    next_id: Ghost<nat>,
}

/// Whether the entry holds the fence numbered `id`.
pub open spec fn holds_id<F>(entry: Option<SlotFence<F>>, id: nat) -> bool {
    entry.is_some() && entry.unwrap().id@ == id
}

/// Whether a table of entries holds the fence numbered `id` anywhere.
pub open spec fn table_holds<F>(entries: Seq<Option<SlotFence<F>>>, id: nat) -> bool {
    exists|i: int| 0 <= i < entries.len() && holds_id(#[trigger] entries[i], id)
}

/// No two entries hold the same fence, and every fence was numbered before
/// `next_id`.
pub open spec fn table_wf<F>(entries: Seq<Option<SlotFence<F>>>, next_id: nat) -> bool {
    &&& forall|i: int|
        0 <= i < entries.len() && (#[trigger] entries[i]).is_some() ==> entries[i].unwrap().id@
            < next_id
    &&& forall|i: int, j: int|
        0 <= i < entries.len() && 0 <= j < entries.len() && i != j && (#[trigger] entries[i]).is_some()
            && (#[trigger] entries[j]).is_some() ==> entries[i].unwrap().id@ != entries[j].unwrap().id@
}

/// A table of `n` entries without any fence.
pub open spec fn empty_entries<F>(n: nat) -> Seq<Option<SlotFence<F>>> {
    Seq::new(n, |i: int| None)
}

impl<F> FenceTable<F> {
    pub closed spec fn entries(&self) -> Seq<Option<SlotFence<F>>> {
        self.slots@
    }

    /// The number that the next stored fence receives.
    pub closed spec fn next_id(&self) -> nat {
        self.next_id@
    }

    pub open spec fn wf(&self) -> bool {
        table_wf(self.entries(), self.next_id())
    }

    /// A table for a swapchain of `image_count` images, none of them
    /// submitted yet.
    pub fn new(image_count: usize) -> (r: FenceTable<F>)
        ensures
            r.entries() == empty_entries::<F>(image_count as nat),
            r.next_id() == 0,
            r.wf(),
    {
        let mut r = FenceTable { slots: Vec::new(), next_id: Ghost(0) };
        r.refill(image_count);
        r
    }

    /// Drops every fence and resizes the table for a swapchain of
    /// `image_count` images. The fence numbering goes on.
    pub fn reset(&mut self, image_count: usize)
        ensures
            final(self).entries() == empty_entries::<F>(image_count as nat),
            final(self).next_id() == old(self).next_id(),
            final(self).wf(),
    {
        self.refill(image_count);
    }

    fn refill(&mut self, image_count: usize)
        ensures
            final(self).entries() == empty_entries::<F>(image_count as nat),
            final(self).next_id() == old(self).next_id(),
    {
        let mut slots: Vec<Option<SlotFence<F>>> = Vec::new();
        let mut i: usize = 0;
        while i < image_count
            invariant
                i <= image_count,
                slots@ == empty_entries::<F>(i as nat),
            decreases image_count - i,
        {
            slots.push(None);
            i = i + 1;
            assert(slots@ =~= empty_entries::<F>(i as nat));
        }
        assert(slots@ =~= empty_entries::<F>(image_count as nat));
        self.slots = slots;
    }

    /// The number of images the table was sized for.
    pub fn len(&self) -> (r: usize)
        ensures
            r == self.entries().len(),
    {
        self.slots.len()
    }

    /// Whether image `slot` has a fence from an earlier submission.
    pub fn is_fenced(&self, slot: usize) -> (r: bool)
        requires
            slot < self.entries().len(),
        ensures
            r == self.entries()[slot as int].is_some(),
    {
        self.slots[slot].is_some()
    }

    /// The fence of image `slot`, if it has one.
    pub fn fence(&self, slot: usize) -> (r: Option<&F>)
        ensures
            slot >= self.entries().len() ==> r.is_none(),
            slot < self.entries().len() ==> r.is_some() == self.entries()[slot as int].is_some(),
            r.is_some() ==> *r.unwrap() == self.entries()[slot as int].unwrap().handle,
    {
        if slot >= self.slots.len() {
            return None;
        }
        match &self.slots[slot] {
            Some(f) => Some(&f.handle),
            None => None,
        }
    }

    /// Stores the fence of a new submission to image `slot`, dropping the
    /// one it replaces.
    pub fn replace(&mut self, slot: usize, handle: F)
        requires
            slot < old(self).entries().len(),
            old(self).wf(),
        ensures
            final(self).entries() == old(self).entries().update(
                slot as int,
                Some(SlotFence { handle, id: Ghost(old(self).next_id()) }),
            ),
            final(self).next_id() == old(self).next_id() + 1,
            final(self).wf(),
    {
        let id = Ghost(self.next_id@);
        self.slots.set(slot, Some(SlotFence { handle, id }));
        self.next_id = Ghost(self.next_id@ + 1);
    }

    /// Forgets the fence of image `slot`: it cannot be trusted to signal.
    pub fn clear(&mut self, slot: usize)
        requires
            slot < old(self).entries().len(),
            old(self).wf(),
        ensures
            final(self).entries() == old(self).entries().update(slot as int, None),
            final(self).next_id() == old(self).next_id(),
            final(self).wf(),
    {
        self.slots.set(slot, None);
    }
}

} // verus!
