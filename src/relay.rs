//! Two-slot relay that hands the newest telemetry sample from its writer to its
//! reader: the writer fills the slot that is not published, then publishes it.
use vstd::prelude::*;

verus! {

/// Two telemetry slots and the index of the published one.
pub struct DoubleBuffer {
    slots: [[u8; 10]; 2],
    current: usize,
}

/// `after` is `before` with `data` copied into the unpublished slot.
pub open spec fn fill_step(before: DoubleBuffer, after: DoubleBuffer, data: Seq<u8>) -> bool {
    &&& after.wf()
    &&& after.published_index() == before.published_index()
    &&& after.published() == before.published()
    &&& after.spare() == data
}

/// `after` is `before` with the unpublished slot published.
pub open spec fn publish_step(before: DoubleBuffer, after: DoubleBuffer) -> bool {
    &&& after.wf()
    &&& after.published_index() == 1 - before.published_index()
    &&& after.published() == before.spare()
    &&& after.spare() == before.published()
}

impl DoubleBuffer {
    pub closed spec fn wf(self) -> bool {
        self.current < 2
    }

    /// Index of the published slot.
    pub closed spec fn published_index(self) -> int {
        self.current as int
    }

    /// The sample in the published slot: what a read observes.
    pub closed spec fn published(self) -> Seq<u8> {
        self.slots[self.current as int]@
    }

    /// The sample in the slot that the writer owns.
    pub closed spec fn spare(self) -> Seq<u8> {
        self.slots[1 - self.current as int]@
    }

    /// Both slots zeroed, slot 0 published.
    pub fn new() -> (r: Self)
        ensures
            r.wf(),
            r.published_index() == 0,
            r.published() == seq![0u8; 10],
            r.spare() == seq![0u8; 10],
    {
        let r = DoubleBuffer { slots: [[0u8; 10]; 2], current: 0 };
        assert(r.slots[0]@ =~= seq![0u8; 10]);
        assert(r.slots[1]@ =~= seq![0u8; 10]);
        r
    }

    /// Copies the published sample into `output`.
    pub fn read(&self, output: &mut [u8; 10])
        requires
            self.wf(),
        ensures
            final(output)@ == self.published(),
    {
        *output = self.slots[self.current];
    }

    /// Copies `data` into the unpublished slot; the published slot is untouched.
    pub fn fill(&mut self, data: &[u8; 10])
        requires
            old(self).wf(),
        ensures
            fill_step(*old(self), *final(self), data@),
    {
        let spare = 1 - self.current;
        self.slots[spare] = *data;
    }

    /// Publishes the unpublished slot by flipping the index.
    pub fn publish(&mut self)
        requires
            old(self).wf(),
        ensures
            publish_step(*old(self), *final(self)),
    {
        self.current = 1 - self.current;
    }

    /// Stores a new sample: fill the unpublished slot, then publish it.
    pub fn write(&mut self, data: &[u8; 10])
        requires
            old(self).wf(),
        ensures
            final(self).wf(),
            final(self).published_index() == 1 - old(self).published_index(),
            final(self).published() == data@,
            final(self).spare() == old(self).published(),
    {
        self.fill(data);
        self.publish();
    }
}

/// A write publishes exactly the new sample, and a read taken while the write is
/// under way (after the fill, before the publish) observes the previous sample
/// whole, never a mix of the two.
pub proof fn lemma_write_then_read(
    before: DoubleBuffer,
    during: DoubleBuffer,
    after: DoubleBuffer,
    data: Seq<u8>,
)
    requires
        before.wf(),
        fill_step(before, during, data),
        publish_step(during, after),
    ensures
        during.published() == before.published(),
        after.published() == data,
        after.wf(),
{
}

} // verus!
