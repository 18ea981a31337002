//! The historical load: the slot range to ingest at startup, its partition
//! into windows, the pacing between windows, and the all-or-nothing
//! collection of each window's batches.
use vstd::prelude::*;
use crate::batch::ColumnarBatch;
use crate::retry::FetchError;

verus! {

/// The most slots fetched per window, and so per second.
pub const RPS_LIMIT: u64 = 25;

/// The number of slots before the current one that a mocked store loads.
pub const BOOTSTRAP_LEN: u64 = 25;

/// The shortest time from the start of one window to the start of the next.
pub const WINDOW_PERIOD_MS: u64 = 1000;

/// Configuration of the historical load.
#[derive(Clone, Copy, Debug)]
pub struct LoadConfig {
    /// Slots per window; at least one.
    pub rps_limit: u64,
    /// Slots before the current one that a mocked load covers.
    pub bootstrap_len: u64,
}

impl LoadConfig {
    pub open spec fn wf(&self) -> bool {
        self.rps_limit >= 1
    }

    /// Windows of 25 slots and a bootstrap window of 25 slots.
    pub fn new_default() -> (r: LoadConfig)
        ensures
            r.wf(),
            r.rps_limit == RPS_LIMIT,
            r.bootstrap_len == BOOTSTRAP_LEN,
    {
        LoadConfig { rps_limit: RPS_LIMIT, bootstrap_len: BOOTSTRAP_LEN }
    }
}

/// Where the chain stands: the absolute slot, its index within the current
/// epoch, and the epoch's length.
pub struct EpochCursor {
    epoch: u64,
    absolute_slot: u64,
    slot_index: u64,
    slots_in_epoch: u64,
}

impl EpochCursor {
    pub closed spec fn spec_epoch(&self) -> u64 {
        self.epoch
    }

    pub closed spec fn spec_absolute_slot(&self) -> u64 {
        self.absolute_slot
    }

    pub closed spec fn spec_slot_index(&self) -> u64 {
        self.slot_index
    }

    pub closed spec fn spec_slots_in_epoch(&self) -> u64 {
        self.slots_in_epoch
    }

    /// The slot index lies within the slots seen so far, and the next epoch
    /// starts at a slot that a `u64` holds.
    pub open spec fn wf(&self) -> bool {
        &&& self.spec_slot_index() <= self.spec_absolute_slot()
        &&& self.spec_absolute_slot() - self.spec_slot_index() + self.spec_slots_in_epoch() <= u64::MAX
    }

    /// The cursor of the node's epoch report; `None` when the report is
    /// inconsistent (an index past the absolute slot, or an epoch that ends
    /// beyond the largest slot).
    pub fn from_info(epoch: u64, absolute_slot: u64, slot_index: u64, slots_in_epoch: u64) -> (r: Option<EpochCursor>)
        ensures
            r is Some <==> (slot_index <= absolute_slot && absolute_slot - slot_index + slots_in_epoch
                <= u64::MAX),
            r matches Some(c) ==> c.wf() && c.spec_epoch() == epoch && c.spec_absolute_slot()
                == absolute_slot && c.spec_slot_index() == slot_index && c.spec_slots_in_epoch()
                == slots_in_epoch,
    {
        if slot_index <= absolute_slot && slots_in_epoch <= u64::MAX - (absolute_slot - slot_index) {
            Some(EpochCursor { epoch, absolute_slot, slot_index, slots_in_epoch })
        } else {
            None
        }
    }

    pub fn epoch(&self) -> (r: u64)
        ensures
            r == self.spec_epoch(),
    {
        self.epoch
    }

    /// The first slot of the current epoch.
    pub fn start_slot(&self) -> (r: u64)
        requires
            self.wf(),
        ensures
            r == self.spec_absolute_slot() - self.spec_slot_index(),
    {
        self.absolute_slot - self.slot_index
    }

    /// The absolute slot.
    pub fn current_slot(&self) -> (r: u64)
        ensures
            r == self.spec_absolute_slot(),
    {
        self.absolute_slot
    }

    /// The first slot of the next epoch.
    pub fn start_slot_next_epoch(&self) -> (r: u64)
        requires
            self.wf(),
        ensures
            r == self.spec_absolute_slot() - self.spec_slot_index() + self.spec_slots_in_epoch(),
    {
        self.start_slot() + self.slots_in_epoch
    }
}

/// The first slot of the historical load: the epoch's first slot, or, for
/// a mocked store, `bootstrap_len` slots before the current one (slot 0 when
/// the chain is younger than that).
pub open spec fn load_start(c: EpochCursor, mocked: bool, config: LoadConfig) -> u64 {
    if mocked {
        if c.spec_absolute_slot() >= config.bootstrap_len {
            (c.spec_absolute_slot() - config.bootstrap_len) as u64
        } else {
            0
        }
    } else {
        (c.spec_absolute_slot() - c.spec_slot_index()) as u64
    }
}

/// Computes [`load_start`].
pub fn load_start_slot(c: &EpochCursor, mocked: bool, config: &LoadConfig) -> (r: u64)
    requires
        c.wf(),
    ensures
        r == load_start(*c, mocked, *config),
        r <= c.spec_absolute_slot(),
{
    if mocked {
        c.current_slot().saturating_sub(config.bootstrap_len)
    } else {
        c.start_slot()
    }
}

/// An inclusive range of slots fetched together.
#[derive(Clone, Copy, Debug, PartialEq, Eq, Structural)]
pub struct SlotWindow {
    pub first: u64,
    pub last: u64,
}

/// Window `k` of the partition of `[start, end]` into windows of `size`
/// slots: all full but the last, which ends at `end`.
pub open spec fn window_at(start: u64, end: u64, size: u64, k: int) -> SlotWindow {
    let first = start + k * size;
    SlotWindow {
        first: first as u64,
        last: (if first + size - 1 <= end { first + size - 1 } else { end as int }) as u64,
    }
}

/// The number of windows of `size` slots that cover `[start, end]`.
pub open spec fn window_count(start: u64, end: u64, size: u64) -> int {
    (end - start) / (size as int) + 1
}

/// Partitions the inclusive slot range `[start, end]` into consecutive
/// windows of `size` slots; only the last may be shorter.
pub fn slot_windows(start: u64, end: u64, size: u64) -> (r: Vec<SlotWindow>)
    requires
        start <= end,
        size >= 1,
    ensures
        r@.len() == window_count(start, end, size),
        forall|k: int| 0 <= k < r@.len() ==> #[trigger] r@[k] == window_at(start, end, size, k),
        r@[0].first == start,
        r@.last().last == end,
        forall|k: int| 0 <= k < r@.len() - 1 ==> #[trigger] r@[k].last - r@[k].first + 1 == size,
        forall|k: int| 0 <= k < r@.len() - 1 ==> #[trigger] r@[k + 1].first == r@[k].last + 1,
{
    let mut out: Vec<SlotWindow> = Vec::new();
    let mut first: u64 = start;
    assert(0 * size == 0) by (nonlinear_arith);
    loop
        invariant
            start <= first <= end,
            out@.len() > 0 ==> out@.last().last + 1 == first,
            forall|k: int| 0 <= k < out@.len() - 1 ==> #[trigger] out@[k + 1].first == out@[k].last + 1,
            size >= 1,
            first == start + out@.len() * size,
            forall|k: int| 0 <= k < out@.len() ==> #[trigger] out@[k] == window_at(start, end, size, k),
            forall|k: int| 0 <= k < out@.len() ==> #[trigger] out@[k].last == out@[k].first + size - 1,
        decreases end - first,
    {
        let n = out.len();
        proof {
            assert((n + 1) * size == n * size + size) by (nonlinear_arith);
        }
        if end - first < size {
            out.push(SlotWindow { first, last: end });
            proof {
                let d = end - start;
                let q = n as int;
                assert(d / (size as int) == q) by (nonlinear_arith)
                    requires
                        d == q * size + (end - first),
                        0 <= end - first < size,
                        q >= 0,
                ;
                assert(out@[n as int] == window_at(start, end, size, n as int));
            }
            return out;
        }
        let last = first + (size - 1);
        out.push(SlotWindow { first, last });
        assert(out@[n as int] == window_at(start, end, size, n as int));
        first = last + 1;
    }
}

/// The slots of a window, ascending.
pub fn window_slots(w: SlotWindow) -> (r: Vec<u64>)
    requires
        w.first <= w.last,
    ensures
        r@ == Seq::new((w.last - w.first + 1) as nat, |i: int| (w.first + i) as u64),
{
    let mut out: Vec<u64> = Vec::new();
    let mut s: u64 = w.first;
    loop
        invariant
            w.first <= s <= w.last,
            out@ =~= Seq::new((s - w.first) as nat, |i: int| (w.first + i) as u64),
        decreases w.last - s,
    {
        out.push(s);
        if s == w.last {
            assert(out@ =~= Seq::new((w.last - w.first + 1) as nat, |i: int| (w.first + i) as u64));
            return out;
        }
        s = s + 1;
    }
}

/// How long to sleep after a window that took `elapsed_ms`, so that the
/// next window starts no sooner than a period after this one started.
pub fn pacing_sleep_ms(elapsed_ms: u64) -> (r: u64)
    ensures
        elapsed_ms < WINDOW_PERIOD_MS ==> r == WINDOW_PERIOD_MS - elapsed_ms,
        elapsed_ms >= WINDOW_PERIOD_MS ==> r == 0,
        elapsed_ms + r >= WINDOW_PERIOD_MS,
{
    if elapsed_ms < WINDOW_PERIOD_MS {
        WINDOW_PERIOD_MS - elapsed_ms
    } else {
        0
    }
}

/// Why the historical load failed.
#[derive(Debug)]
pub enum LoadError {
    /// A fetch of the window failed; nothing of the load is kept.
    LoadFailed { cause: FetchError },
}

/// Every fetch of the window succeeded.
pub open spec fn all_ok(rs: Seq<Result<ColumnarBatch, FetchError>>) -> bool {
    forall|i: int| 0 <= i < rs.len() ==> #[trigger] rs[i] is Ok
}

/// The batches of a window whose fetches all succeeded, in order.
pub open spec fn ok_batches(rs: Seq<Result<ColumnarBatch, FetchError>>) -> Seq<ColumnarBatch> {
    Seq::new(rs.len(), |i: int| rs[i]->Ok_0)
}

/// The results of a window's fetches, in slot order, as the window's
/// batches; if any fetch failed, the load fails with the first failure.
pub fn collect_window(
    results: Vec<Result<ColumnarBatch, FetchError>>,
) -> (r: Result<Vec<ColumnarBatch>, LoadError>)
    ensures
        r is Ok <==> all_ok(results@),
        r matches Ok(bs) ==> bs@ == ok_batches(results@),
        r matches Err(LoadError::LoadFailed { cause }) ==> exists|j: int|
            0 <= j < results@.len() && all_ok(results@.subrange(0, j))
                && results@[j] == Err::<ColumnarBatch, FetchError>(cause),
{
    let ghost input = results@;
    // Reading the length records that it fits in a `usize`.
    let _n: usize = results.len();
    let mut pending = results;
    let mut out: Vec<ColumnarBatch> = Vec::new();
    let mut failure: Option<FetchError> = None;
    let mut i: usize = 0;
    while pending.len() > 0 && failure.is_none()
        invariant
            input.len() <= usize::MAX,
            i <= input.len(),
            failure is None ==> i + pending@.len() == input.len(),
            failure is None ==> pending@ == input.subrange(i as int, input.len() as int),
            all_ok(input.subrange(0, i as int)),
            out@ == ok_batches(input.subrange(0, i as int)),
            failure matches Some(e) ==> i < input.len() && input[i as int] == Err::<ColumnarBatch, FetchError>(e),
        decreases pending@.len(),
    {
        let first = pending.remove(0);
        assert(first == input[i as int]);
        match first {
            Ok(b) => {
                assert(pending@ =~= input.subrange(i + 1, input.len() as int));
                out.push(b);
                i = i + 1;
                assert(all_ok(input.subrange(0, i as int))) by {
                    assert forall|k: int| 0 <= k < i implies #[trigger] input.subrange(0, i as int)[k] is Ok by {
                        if k < i - 1 {
                            assert(input.subrange(0, i as int)[k] == input.subrange(0, i - 1)[k]);
                        }
                    }
                }
                assert(out@ =~= ok_batches(input.subrange(0, i as int)));
            },
            Err(e) => {
                failure = Some(e);
            },
        }
    }
    match failure {
        Some(e) => {
            assert(!all_ok(input)) by {
                assert(!(input[i as int] is Ok));
            }
            Err(LoadError::LoadFailed { cause: e })
        },
        None => {
            assert(input.subrange(0, i as int) =~= input);
            Ok(out)
        },
    }
}

} // verus!
