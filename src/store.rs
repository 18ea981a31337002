//! The store: the ordered collection of batches and the ingestion cursor,
//! with the one-time gap repair of the live pipeline.
use vstd::prelude::*;
use crate::batch::ColumnarBatch;

verus! {

/// The sum of the row counts of a sequence of batches.
pub open spec fn total_rows(bs: Seq<ColumnarBatch>) -> nat
    decreases bs.len(),
{
    if bs.len() == 0 {
        0
    } else {
        total_rows(bs.drop_last()) + bs.last().rows().len()
    }
}

/// The slots that must be backfilled before `slot` is appended: while the
/// cursor still stands at its initial value, the slots strictly between the
/// cursor and `slot`, ascending; otherwise none.
pub open spec fn gap_slots(current_slot: u64, init_slot: u64, slot: u64) -> Seq<u64> {
    if current_slot == init_slot && slot > current_slot + 1 {
        Seq::new((slot - current_slot - 1) as nat, |i: int| (current_slot + 1 + i) as u64)
    } else {
        Seq::empty()
    }
}

/// The accumulated batches and the ingestion cursor.
pub struct StoreState {
    batches: Vec<ColumnarBatch>,
    current_slot: u64,
    init_slot: u64,
    mocked: bool,
}

impl StoreState {
    pub closed spec fn spec_batches(&self) -> Seq<ColumnarBatch> {
        self.batches@
    }

    pub closed spec fn spec_current_slot(&self) -> u64 {
        self.current_slot
    }

    pub closed spec fn spec_init_slot(&self) -> u64 {
        self.init_slot
    }

    pub closed spec fn spec_mocked(&self) -> bool {
        self.mocked
    }

    /// Every batch held is well formed.
    pub open spec fn wf(&self) -> bool {
        forall|i: int| 0 <= i < self.spec_batches().len() ==> #[trigger] self.spec_batches()[i].wf()
    }

    /// The slots whose batches the notification of `slot` appends, in order:
    /// the gap to backfill, then `slot` itself.
    pub open spec fn ingest_order(&self, slot: u64) -> Seq<u64> {
        gap_slots(self.spec_current_slot(), self.spec_init_slot(), slot).push(slot)
    }

    /// A store holding `batches`, with both cursors at `current_slot`.
    pub fn new(batches: Vec<ColumnarBatch>, current_slot: u64, mocked: bool) -> (r: StoreState)
        requires
            forall|i: int| 0 <= i < batches@.len() ==> #[trigger] batches@[i].wf(),
        ensures
            r.wf(),
            r.spec_batches() == batches@,
            r.spec_current_slot() == current_slot,
            r.spec_init_slot() == current_slot,
            r.spec_mocked() == mocked,
    {
        StoreState { batches, current_slot, init_slot: current_slot, mocked }
    }

    /// The batches held, in ingestion order.
    pub fn batches(&self) -> (r: &Vec<ColumnarBatch>)
        ensures
            r@ == self.spec_batches(),
    {
        &self.batches
    }

    /// The highest slot processed by the live pipeline.
    pub fn current_slot(&self) -> (r: u64)
        ensures
            r == self.spec_current_slot(),
    {
        self.current_slot
    }

    /// The slot at which the live pipeline began.
    pub fn init_slot(&self) -> (r: u64)
        ensures
            r == self.spec_init_slot(),
    {
        self.init_slot
    }

    /// Whether the store was seeded with the short bootstrap window.
    pub fn mocked(&self) -> (r: bool)
        ensures
            r == self.spec_mocked(),
    {
        self.mocked
    }

    /// Adds a batch after those held.
    pub fn append_batch(&mut self, batch: ColumnarBatch)
        requires
            old(self).wf(),
            batch.wf(),
        ensures
            final(self).wf(),
            final(self).spec_batches() == old(self).spec_batches().push(batch),
            final(self).spec_current_slot() == old(self).spec_current_slot(),
            final(self).spec_init_slot() == old(self).spec_init_slot(),
            final(self).spec_mocked() == old(self).spec_mocked(),
    {
        self.batches.push(batch);
        proof {
            assert forall|i: int| 0 <= i < self.spec_batches().len() implies #[trigger] self.spec_batches()[i].wf() by {
                if i < old(self).spec_batches().len() {
                    assert(old(self).spec_batches()[i].wf());
                }
            }
        }
    }

    /// The number of rows over all batches, saturating at `usize::MAX`.
    pub fn size(&self) -> (r: usize)
        requires
            self.wf(),
        ensures
            r == (if total_rows(self.spec_batches()) <= usize::MAX {
                total_rows(self.spec_batches())
            } else {
                usize::MAX as nat
            }),
    {
        let mut sum: usize = 0;
        let mut i: usize = 0;
        while i < self.batches.len()
            invariant
                self.wf(),
                i <= self.batches@.len(),
                sum == (if total_rows(self.batches@.subrange(0, i as int)) <= usize::MAX {
                    total_rows(self.batches@.subrange(0, i as int))
                } else {
                    usize::MAX as nat
                }),
            decreases self.batches@.len() - i,
        {
            assert(self.batches@.subrange(0, i + 1).drop_last() =~= self.batches@.subrange(0, i as int));
            assert(self.spec_batches()[i as int].wf());
            let n = self.batches[i].num_rows();
            sum = sum.saturating_add(n);
            i = i + 1;
        }
        assert(self.batches@.subrange(0, self.batches@.len() as int) =~= self.batches@);
        sum
    }

    /// The slots to fetch and append, ascending, before the batch of a newly
    /// notified `slot`: those strictly between the cursor and `slot` while
    /// the cursor has not moved from its initial value, none afterwards.
    pub fn backfill_slots(&self, slot: u64) -> (r: Vec<u64>)
        ensures
            r@ == gap_slots(self.spec_current_slot(), self.spec_init_slot(), slot),
    {
        let mut out: Vec<u64> = Vec::new();
        let cur = self.current_slot;
        if cur == self.init_slot && cur < u64::MAX && slot > cur + 1 {
            let mut s: u64 = cur + 1;
            while s < slot
                invariant
                    cur + 1 <= s <= slot,
                    cur == self.current_slot,
                    out@ =~= Seq::new((s - cur - 1) as nat, |i: int| (cur + 1 + i) as u64),
                decreases slot - s,
            {
                out.push(s);
                s = s + 1;
            }
        }
        proof {
            if !(cur == self.init_slot && slot > cur + 1) {
                assert(out@ =~= Seq::<u64>::empty());
            }
        }
        out
    }

    /// Records the live notification of `slot`: appends the backfilled
    /// batches (one per slot of [`StoreState::backfill_slots`], in that
    /// order), then the batch of `slot`, and moves the cursor to `slot`.
    pub fn apply_notification(&mut self, slot: u64, backfill: Vec<ColumnarBatch>, batch: ColumnarBatch)
        requires
            old(self).wf(),
            batch.wf(),
            backfill@.len() == gap_slots(old(self).spec_current_slot(), old(self).spec_init_slot(), slot).len(),
            forall|i: int| 0 <= i < backfill@.len() ==> #[trigger] backfill@[i].wf(),
        ensures
            final(self).wf(),
            final(self).spec_batches() == old(self).spec_batches() + backfill@.push(batch),
            final(self).spec_current_slot() == slot,
            final(self).spec_init_slot() == old(self).spec_init_slot(),
            final(self).spec_mocked() == old(self).spec_mocked(),
    {
        let ghost start = self.batches@;
        let ghost input = backfill@;
        let mut backfill = backfill;
        let mut rest: Vec<ColumnarBatch> = Vec::new();
        // Taken from the back, then appended front first.
        while backfill.len() > 0
            invariant
                forall|i: int| 0 <= i < backfill@.len() ==> #[trigger] backfill@[i].wf(),
                forall|i: int| 0 <= i < rest@.len() ==> #[trigger] rest@[i].wf(),
                backfill@ + rest@.reverse() == input,
            decreases backfill@.len(),
        {
            let ghost before = backfill@;
            let b = backfill.pop().unwrap();
            proof {
                assert(before == backfill@.push(b));
                assert(b.wf()) by {
                    assert(before[before.len() - 1].wf());
                }
                assert(rest@.push(b).reverse() =~= seq![b] + rest@.reverse());
                assert(backfill@ + (seq![b] + rest@.reverse()) =~= before + rest@.reverse());
            }
            rest.push(b);
        }
        assert(rest@.reverse() =~= input);
        while rest.len() > 0
            invariant
                self.wf(),
                forall|i: int| 0 <= i < rest@.len() ==> #[trigger] rest@[i].wf(),
                self.spec_batches() + rest@.reverse() == start + input,
                self.spec_current_slot() == old(self).spec_current_slot(),
                self.spec_init_slot() == old(self).spec_init_slot(),
                self.spec_mocked() == old(self).spec_mocked(),
            decreases rest@.len(),
        {
            let ghost before = rest@;
            let b = rest.pop().unwrap();
            proof {
                assert(before == rest@.push(b));
                assert(b.wf()) by {
                    assert(before[before.len() - 1].wf());
                }
                assert(before.reverse() =~= seq![b] + rest@.reverse());
                assert(self.spec_batches().push(b) + rest@.reverse() =~= self.spec_batches() + before.reverse());
            }
            self.append_batch(b);
        }
        assert(rest@.reverse() =~= Seq::<ColumnarBatch>::empty());
        assert(self.spec_batches() =~= start + input);
        self.append_batch(batch);
        self.current_slot = slot;
        assert(self.spec_batches() =~= start + input.push(batch));
    }
}

/// Appending never hides what was there: the batches held before an
/// append stay, in order, as a prefix, so a row count taken before the
/// append is at most one taken after it.
pub proof fn lemma_append_monotone(bs: Seq<ColumnarBatch>, more: Seq<ColumnarBatch>)
    ensures
        (bs + more).subrange(0, bs.len() as int) == bs,
        total_rows(bs) <= total_rows(bs + more),
    decreases more.len(),
{
    assert((bs + more).subrange(0, bs.len() as int) =~= bs);
    if more.len() == 0 {
        assert(bs + more =~= bs);
    } else {
        lemma_append_monotone(bs, more.drop_last());
        assert((bs + more).drop_last() =~= bs + more.drop_last());
    }
}

/// The gap repair happens once. A notification of `first` while the cursor
/// still stands at its initial slot `s` appends the batches of the slots
/// from `s + 1` up to `first`, in order; once the cursor has moved on to
/// `first` (as [`StoreState::apply_notification`] leaves it), a later
/// notification of `second` appends only its own slot, whatever gap lies
/// between.
pub proof fn lemma_gap_backfill_once(before: StoreState, after: StoreState, first: u64, second: u64)
    requires
        before.spec_current_slot() == before.spec_init_slot(),
        before.spec_current_slot() < first < second,
        after.spec_init_slot() == before.spec_init_slot(),
        after.spec_current_slot() == first,
    ensures
        before.ingest_order(first) == Seq::new(
            (first - before.spec_init_slot()) as nat,
            |i: int| (before.spec_init_slot() + 1 + i) as u64,
        ),
        after.ingest_order(second) == seq![second],
{
    let s = before.spec_init_slot();
    assert(before.ingest_order(first) =~= Seq::new((first - s) as nat, |i: int| (s + 1 + i) as u64));
    assert(after.ingest_order(second) =~= seq![second]);
}

} // verus!
