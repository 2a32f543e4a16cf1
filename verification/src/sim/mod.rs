//! Types shared by the simulations: cache slots, instruction states, register
//! values, the event log and the gadget listing.

pub mod meltdown;
pub mod spectre;
pub mod spectre_retpoline;

use std::collections::VecDeque;
use vstd::prelude::*;

use crate::text::{address_text, hex_text, push_hex};

verus! {

/// The most entries that the event log of a simulation keeps.
pub const MAX_NARRATIVE: usize = 60;

/// The number of slots in the probe array, one per byte value.
pub const PROBE_SLOTS: usize = 256;

/// The number of probe slots that one step of a flush or reload phase handles.
pub const SLOTS_PER_STEP: usize = 16;

/// The state of one probe-array slot in the simulated cache.
#[derive(Clone, Copy, Debug, PartialEq, Eq, Structural)]
pub enum CacheSlotState {
    Cached,
    Evicted,
    Hit,
}

/// Where an instruction of the gadget stands in the simulated pipeline.
#[derive(Clone, Copy, Debug, PartialEq, Eq, Structural)]
pub enum InstructionState {
    Upcoming,
    SpeculativelyExecuting,
    Retired,
    Faulted,
    Squashed,
}

/// The content of a simulated register.
#[derive(Clone, Debug, PartialEq, Eq)]
pub enum RegisterValue {
    Known(u64),
    Speculative(String),
    Cleared,
}

/// What a register holds, with its text as characters.
#[verifier::ext_equal]
pub enum RegisterView {
    Known(u64),
    Speculative(Seq<char>),
    Cleared,
}

impl View for RegisterValue {
    type V = RegisterView;

    open spec fn view(&self) -> RegisterView {
        match self {
            RegisterValue::Known(v) => RegisterView::Known(*v),
            RegisterValue::Speculative(s) => RegisterView::Speculative(s@),
            RegisterValue::Cleared => RegisterView::Cleared,
        }
    }
}

/// How a register is shown: a known value as `0x` and sixteen lower-case hex
/// digits, a speculative one by its description, a cleared one as an em dash.
pub open spec fn register_text(r: RegisterView) -> Seq<char> {
    match r {
        RegisterView::Known(v) => address_text(v),
        RegisterView::Speculative(s) => s,
        RegisterView::Cleared => "\u{2014}"@,
    }
}

impl RegisterValue {
    /// The register as the display shows it.
    pub fn label(&self) -> (s: String)
        ensures
            s@ == register_text(self@),
    {
        match self {
            RegisterValue::Known(v) => {
                let mut s = String::from_str("0x");
                push_hex(&mut s, *v, 16, false);
                proof {
                    reveal_strlit("0x");
                }
                s
            },
            RegisterValue::Speculative(t) => t.clone(),
            RegisterValue::Cleared => String::from_str("\u{2014}"),
        }
    }
}

/// How an entry of the event log is to be highlighted.
#[derive(Clone, Copy, Debug, PartialEq, Eq, Structural)]
pub enum NarrativeStyle {
    Info,
    Warning,
    Success,
    Critical,
}

/// One line of the event log.
pub struct NarrativeEntry {
    pub text: String,
    pub style: NarrativeStyle,
}

impl View for NarrativeEntry {
    type V = (Seq<char>, NarrativeStyle);

    open spec fn view(&self) -> (Seq<char>, NarrativeStyle) {
        (self.text@, self.style)
    }
}

/// The event log as a sequence of (text, style) lines.
pub open spec fn log_view(q: VecDeque<NarrativeEntry>) -> Seq<(Seq<char>, NarrativeStyle)> {
    q@.map_values(|e: NarrativeEntry| e@)
}

/// The log after one more line: the line is appended, and when the log then
/// holds more than `MAX_NARRATIVE` lines the oldest one is dropped.
pub open spec fn log_push(
    log: Seq<(Seq<char>, NarrativeStyle)>,
    text: Seq<char>,
    style: NarrativeStyle,
) -> Seq<(Seq<char>, NarrativeStyle)> {
    let l = log.push((text, style));
    if l.len() > MAX_NARRATIVE {
        l.drop_first()
    } else {
        l
    }
}

/// The event log never grows past `MAX_NARRATIVE` lines: one more line keeps a
/// log within the bound inside it.
pub proof fn lemma_log_push_bounded(
    log: Seq<(Seq<char>, NarrativeStyle)>,
    text: Seq<char>,
    style: NarrativeStyle,
)
    requires
        log.len() <= MAX_NARRATIVE,
    ensures
        log_push(log, text, style).len() <= MAX_NARRATIVE,
        log_push(log, text, style).last() == (text, style),
{
}

/// Appends a line to the event log, dropping the oldest line when the log
/// grows past `MAX_NARRATIVE` lines.
pub fn push_narrative(q: &mut VecDeque<NarrativeEntry>, text: String, style: NarrativeStyle)
    ensures
        log_view(*final(q)) == log_push(log_view(*old(q)), text@, style),
{
    let ghost entry = NarrativeEntry { text, style }@;
    q.push_back(NarrativeEntry { text, style });
    assert(log_view(*q) =~= log_view(*old(q)).push(entry));
    if q.len() > MAX_NARRATIVE {
        let _ = q.pop_front();
        assert(log_view(*q) =~= log_view(*old(q)).push(entry).drop_first());
    }
}

/// One instruction of a gadget listing, with its pipeline state.
pub struct GadgetInstruction {
    pub address: u64,
    pub mnemonic: &'static str,
    pub operands: &'static str,
    pub comment: &'static str,
    pub state: InstructionState,
}

/// An instruction of a gadget listing with its texts as characters.
#[verifier::ext_equal]
pub struct GadgetView {
    pub address: u64,
    pub mnemonic: Seq<char>,
    pub operands: Seq<char>,
    pub comment: Seq<char>,
    pub state: InstructionState,
}

impl View for GadgetInstruction {
    type V = GadgetView;

    open spec fn view(&self) -> GadgetView {
        GadgetView {
            address: self.address,
            mnemonic: self.mnemonic@,
            operands: self.operands@,
            comment: self.comment@,
            state: self.state,
        }
    }
}

/// A listing entry in the `Upcoming` state.
pub open spec fn upcoming(address: u64, mnemonic: &str, operands: &str, comment: &str) -> GadgetView {
    GadgetView {
        address,
        mnemonic: mnemonic@,
        operands: operands@,
        comment: comment@,
        state: InstructionState::Upcoming,
    }
}

/// The listing as a sequence of views.
pub open spec fn gadget_view(g: Vec<GadgetInstruction>) -> Seq<GadgetView> {
    g@.map_values(|i: GadgetInstruction| i@)
}

/// The listing with the state of instruction `i` replaced by `state`.
pub open spec fn set_state(g: Seq<GadgetView>, i: int, state: InstructionState) -> Seq<GadgetView> {
    g.update(i, GadgetView { state, ..g[i] })
}

/// Two listings hold the same instructions, whatever their pipeline states.
pub open spec fn same_listing(a: Seq<GadgetView>, b: Seq<GadgetView>) -> bool {
    &&& a.len() == b.len()
    &&& forall|i: int|
        0 <= i < a.len() ==> {
            &&& (#[trigger] a[i]).address == b[i].address
            &&& a[i].mnemonic == b[i].mnemonic
            &&& a[i].operands == b[i].operands
            &&& a[i].comment == b[i].comment
        }
}

/// Sets the pipeline state of instruction `i` of a listing.
pub fn mark(g: &mut Vec<GadgetInstruction>, i: usize, state: InstructionState)
    requires
        i < old(g).len(),
    ensures
        gadget_view(*final(g)) == set_state(gadget_view(*old(g)), i as int, state),
        final(g).len() == old(g).len(),
{
    g[i].state = state;
    assert(gadget_view(*g) =~= set_state(gadget_view(*old(g)), i as int, state));
}

/// The end of the block of probe slots that a flush or reload step starting at
/// `step` handles: sixteen slots on, but not past the last slot.
pub open spec fn chunk_end(step: int) -> int {
    if step + SLOTS_PER_STEP < PROBE_SLOTS {
        step + SLOTS_PER_STEP
    } else {
        PROBE_SLOTS as int
    }
}

/// How many steps a flush or reload phase that stands at `step` still takes.
pub open spec fn chunks_left(step: int) -> int {
    if step + SLOTS_PER_STEP >= PROBE_SLOTS {
        1
    } else {
        (PROBE_SLOTS + SLOTS_PER_STEP - 1 - step) / (SLOTS_PER_STEP as int)
    }
}

/// `{:02X}` of a slot index.
pub open spec fn slot_text(i: int) -> Seq<char> {
    hex_text(i as nat, 2, true)
}

/// Every probe slot in the same state.
pub open spec fn uniform_cache(state: CacheSlotState) -> Seq<CacheSlotState> {
    Seq::new(PROBE_SLOTS as nat, |i: int| state)
}

/// The cache after a speculative load of the secret's slot, once timing
/// stands at `step`: only that slot is in the cache, and it counts as a hit
/// once it has been timed.
pub open spec fn probed_cache(secret: int, step: int) -> Seq<CacheSlotState> {
    Seq::new(
        PROBE_SLOTS as nat,
        |i: int|
            if i == secret {
                if i < step {
                    CacheSlotState::Hit
                } else {
                    CacheSlotState::Cached
                }
            } else {
                CacheSlotState::Evicted
            },
    )
}

/// The access time of slot `i` when only the secret's slot is cached.
pub open spec fn probe_time(i: int, secret: int, hit: u32, miss: u32) -> Option<u32> {
    Some(if i == secret { hit } else { miss })
}

/// The timings after the slots in `lo..hi` have been measured.
pub open spec fn time_range(
    timings: Seq<Option<u32>>,
    lo: int,
    hi: int,
    secret: int,
    hit: u32,
    miss: u32,
) -> Seq<Option<u32>> {
    Seq::new(
        timings.len(),
        |j: int|
            if lo <= j < hi {
                probe_time(j, secret, hit, miss)
            } else {
                timings[j]
            },
    )
}

/// The timings once measuring stands at `step`: the slots below it timed.
pub open spec fn probed_timings(secret: int, step: int, hit: u32, miss: u32) -> Seq<Option<u32>> {
    Seq::new(
        PROBE_SLOTS as nat,
        |i: int|
            if i < step {
                probe_time(i, secret, hit, miss)
            } else {
                None
            },
    )
}

/// Measures the slots in `step..end`: the secret's slot is timed at `hit`
/// cycles, every other at `miss`.
pub fn time_slots(
    timings: &mut [Option<u32>; 256],
    step: usize,
    end: usize,
    secret: usize,
    hit: u32,
    miss: u32,
)
    requires
        end <= PROBE_SLOTS,
    ensures
        final(timings)@ == time_range(old(timings)@, step as int, end as int, secret as int, hit, miss),
{
    let mut i: usize = step;
    assert(timings@ =~= time_range(old(timings)@, step as int, i as int, secret as int, hit, miss));
    while i < end
        invariant
            step <= i,
            i <= end || i == step,
            end <= PROBE_SLOTS,
            timings@ == time_range(old(timings)@, step as int, i as int, secret as int, hit, miss),
        decreases end - i,
    {
        let cycles: u32 = if i == secret {
            hit
        } else {
            miss
        };
        timings[i] = Some(cycles);
        i = i + 1;
        assert(timings@ =~= time_range(old(timings)@, step as int, i as int, secret as int, hit, miss));
    }
    assert(timings@ =~= time_range(old(timings)@, step as int, end as int, secret as int, hit, miss));
}

/// Where a flush or reload step starting at `step` ends.
pub fn chunk_end_of(step: usize) -> (end: usize)
    requires
        step + SLOTS_PER_STEP <= usize::MAX,
    ensures
        end == chunk_end(step as int),
{
    if step + SLOTS_PER_STEP < PROBE_SLOTS {
        step + SLOTS_PER_STEP
    } else {
        PROBE_SLOTS
    }
}

/// How many slots have been timed.
pub open spec fn count_timed(t: Seq<Option<u32>>) -> nat
    decreases t.len(),
{
    if t.len() == 0 {
        0
    } else {
        count_timed(t.drop_last()) + if t.last() is Some {
            1nat
        } else {
            0nat
        }
    }
}

/// How many slots have been timed at exactly `cycles`.
pub open spec fn count_timed_at(t: Seq<Option<u32>>, cycles: u32) -> nat
    decreases t.len(),
{
    if t.len() == 0 {
        0
    } else {
        count_timed_at(t.drop_last(), cycles) + if t.last() == Some(cycles) {
            1nat
        } else {
            0nat
        }
    }
}

/// The number of probe slots timed so far.
pub fn probed_count(timings: &[Option<u32>; 256]) -> (n: usize)
    ensures
        n == count_timed(timings@),
{
    let mut n: usize = 0;
    let mut i: usize = 0;
    while i < PROBE_SLOTS
        invariant
            i <= PROBE_SLOTS,
            n <= i,
            n == count_timed(timings@.take(i as int)),
        decreases PROBE_SLOTS - i,
    {
        assert(timings@.take(i as int + 1).drop_last() =~= timings@.take(i as int));
        if timings[i].is_some() {
            n = n + 1;
        }
        i = i + 1;
    }
    assert(timings@.take(PROBE_SLOTS as int) =~= timings@);
    n
}

/// The number of probe slots timed at exactly `cycles`.
pub fn timed_at_count(timings: &[Option<u32>; 256], cycles: u32) -> (n: usize)
    ensures
        n == count_timed_at(timings@, cycles),
{
    let mut n: usize = 0;
    let mut i: usize = 0;
    while i < PROBE_SLOTS
        invariant
            i <= PROBE_SLOTS,
            n <= i,
            n == count_timed_at(timings@.take(i as int), cycles),
        decreases PROBE_SLOTS - i,
    {
        assert(timings@.take(i as int + 1).drop_last() =~= timings@.take(i as int));
        if timings[i] == Some(cycles) {
            n = n + 1;
        }
        i = i + 1;
    }
    assert(timings@.take(PROBE_SLOTS as int) =~= timings@);
    n
}

proof fn lemma_count_probed_prefix(secret: int, step: int, hit: u32, miss: u32, k: int)
    requires
        0 <= k <= PROBE_SLOTS,
        0 <= secret < PROBE_SLOTS,
        0 <= step <= PROBE_SLOTS,
        hit != miss,
    ensures
        count_timed(probed_timings(secret, step, hit, miss).take(k)) == if k < step {
            k
        } else {
            step
        },
        count_timed_at(probed_timings(secret, step, hit, miss).take(k), hit) == if secret < k
            && secret < step {
            1int
        } else {
            0int
        },
    decreases k,
{
    if k > 0 {
        let t = probed_timings(secret, step, hit, miss);
        assert(t.take(k).drop_last() =~= t.take(k - 1));
        lemma_count_probed_prefix(secret, step, hit, miss, k - 1);
    }
}

/// Once timing stands at `step`, exactly `step` slots have been timed, and at
/// most one, the secret's, reads as a hit: it does once its slot is timed.
pub proof fn lemma_count_probed(secret: int, step: int, hit: u32, miss: u32)
    requires
        0 <= secret < PROBE_SLOTS,
        0 <= step <= PROBE_SLOTS,
        hit != miss,
    ensures
        count_timed(probed_timings(secret, step, hit, miss)) == step,
        count_timed_at(probed_timings(secret, step, hit, miss), hit) == if secret < step {
            1int
        } else {
            0int
        },
{
    let t = probed_timings(secret, step, hit, miss);
    assert(t.take(PROBE_SLOTS as int) =~= t);
    lemma_count_probed_prefix(secret, step, hit, miss, PROBE_SLOTS as int);
}

proof fn lemma_count_misses_prefix(step: int, miss: u32, k: int)
    requires
        0 <= k <= PROBE_SLOTS,
        0 <= step <= PROBE_SLOTS,
    ensures
        count_timed_at(probed_timings(PROBE_SLOTS as int, step, miss, miss).take(k), miss) == if k
            < step {
            k
        } else {
            step
        },
        count_timed(probed_timings(PROBE_SLOTS as int, step, miss, miss).take(k)) == if k < step {
            k
        } else {
            step
        },
    decreases k,
{
    if k > 0 {
        let t = probed_timings(PROBE_SLOTS as int, step, miss, miss);
        assert(t.take(k).drop_last() =~= t.take(k - 1));
        lemma_count_misses_prefix(step, miss, k - 1);
    }
}

/// When nothing is in the cache, every slot timed so far reads as a miss:
/// once timing stands at `step`, `step` slots read as misses.
pub proof fn lemma_count_misses(step: int, miss: u32)
    requires
        0 <= step <= PROBE_SLOTS,
    ensures
        count_timed_at(probed_timings(PROBE_SLOTS as int, step, miss, miss), miss) == step,
        count_timed(probed_timings(PROBE_SLOTS as int, step, miss, miss)) == step,
{
    let t = probed_timings(PROBE_SLOTS as int, step, miss, miss);
    assert(t.take(PROBE_SLOTS as int) =~= t);
    lemma_count_misses_prefix(step, miss, PROBE_SLOTS as int);
}

} // verus!
