//! The Meltdown (CVE-2017-5754) simulation: flush the probe array, execute the
//! faulting gadget past the page fault, then time every probe slot to find the
//! one that the speculative load brought into the cache.

use std::collections::VecDeque;
use vstd::prelude::*;

use crate::sim::{
    chunk_end, chunk_end_of, same_listing, chunks_left, count_timed, count_timed_at, lemma_count_probed, gadget_view, lemma_log_push_bounded, probed_cache, probed_timings, time_range,
    time_slots, log_push, log_view, mark, push_narrative, set_state,
    slot_text, upcoming, CacheSlotState, GadgetInstruction, GadgetView, InstructionState,
    NarrativeEntry, NarrativeStyle, RegisterValue, RegisterView, MAX_NARRATIVE, PROBE_SLOTS,
    SLOTS_PER_STEP,
};
use crate::text::{address_text, byte_char, decimal_text, push_address, push_char, push_decimal, push_hex};

verus! {

/// The kernel byte that the attack recovers (`'A'`).
pub const SECRET_BYTE: u8 = 0x41;

/// The kernel address of the secret byte.
pub const KERNEL_SECRET_ADDR: u64 = 0xFFFF_8001_1234_0020;

/// The user-space address of the probe array.
pub const PROBE_ARRAY_BASE: u64 = 0x0000_7FFF_0001_0000;

/// The access time of a probe slot that is in the cache.
pub const CACHE_HIT_CYCLES: u32 = 4;

/// The access time of a probe slot that is not in the cache.
pub const CACHE_MISS_CYCLES: u32 = 200;

/// The number of steps from a fresh simulation until it asks to quit.
pub const TOTAL_STEPS: usize = 38;

/// The phases of the attack; `step` counts progress inside a phase.
#[derive(Clone, Copy, Debug, PartialEq, Eq, Structural)]
pub enum SimPhase {
    Setup,
    Flush { step: usize },
    Speculative { step: usize },
    Reload { step: usize },
    Revealed,
}

/// The phase as the header line shows it.
pub open spec fn phase_text(p: SimPhase) -> Seq<char> {
    match p {
        SimPhase::Setup => "SETUP"@,
        SimPhase::Flush { step } => "FLUSH  (evicting probe_array... "@ + decimal_text(step as nat)
            + "/256)"@,
        SimPhase::Speculative { step } => "SPECULATIVE EXECUTION  (step "@ + decimal_text(
            step as nat,
        ) + "/4)"@,
        SimPhase::Reload { step } => "RELOAD + TIMING  ("@ + decimal_text(step as nat) + "/256)"@,
        SimPhase::Revealed => "ATTACK COMPLETE \u{2014} SECRET RECOVERED"@,
    }
}

impl SimPhase {
    /// Which phase this is, without its progress counter.
    pub open spec fn kind(self) -> u8 {
        match self {
            SimPhase::Setup => 0,
            SimPhase::Flush { .. } => 1,
            SimPhase::Speculative { .. } => 2,
            SimPhase::Reload { .. } => 3,
            SimPhase::Revealed => 4,
        }
    }

    fn kind_of(&self) -> (k: u8)
        ensures
            k == self.kind(),
    {
        match self {
            SimPhase::Setup => 0,
            SimPhase::Flush { .. } => 1,
            SimPhase::Speculative { .. } => 2,
            SimPhase::Reload { .. } => 3,
            SimPhase::Revealed => 4,
        }
    }

    /// The phase as the header line shows it.
    pub fn label(&self) -> (s: String)
        ensures
            s@ == phase_text(*self),
    {
        match self {
            SimPhase::Setup => String::from_str("SETUP"),
            SimPhase::Flush { step } => {
                let mut s = String::from_str("FLUSH  (evicting probe_array... ");
                push_decimal(&mut s, *step as u64);
                s.append("/256)");
                s
            },
            SimPhase::Speculative { step } => {
                let mut s = String::from_str("SPECULATIVE EXECUTION  (step ");
                push_decimal(&mut s, *step as u64);
                s.append("/4)");
                s
            },
            SimPhase::Reload { step } => {
                let mut s = String::from_str("RELOAD + TIMING  (");
                push_decimal(&mut s, *step as u64);
                s.append("/256)");
                s
            },
            SimPhase::Revealed => String::from_str("ATTACK COMPLETE \u{2014} SECRET RECOVERED"),
        }
    }
}

/// The two architectural registers of the gadget and the listing index of the
/// instruction being executed.
pub struct CpuRegisters {
    pub rax: RegisterValue,
    pub rbx: RegisterValue,
    pub current_pc: usize,
}

/// The whole state of a Meltdown simulation.
pub struct MeltdownSim {
    pub phase: SimPhase,
    pub cache: [CacheSlotState; 256],
    pub registers: CpuRegisters,
    pub gadget: Vec<GadgetInstruction>,
    pub reload_timings: [Option<u32>; 256],
    pub secret_byte: u8,
    pub secret_revealed: bool,
    pub narrative: VecDeque<NarrativeEntry>,
    pub quit: bool,
}

/// The state of a Meltdown simulation as mathematical values.
#[verifier::ext_equal]
pub struct MeltdownView {
    pub phase: SimPhase,
    pub cache: Seq<CacheSlotState>,
    pub rax: RegisterView,
    pub rbx: RegisterView,
    pub current_pc: usize,
    pub gadget: Seq<GadgetView>,
    pub reload_timings: Seq<Option<u32>>,
    pub secret_byte: u8,
    pub secret_revealed: bool,
    pub narrative: Seq<(Seq<char>, NarrativeStyle)>,
    pub quit: bool,
}

impl View for MeltdownSim {
    type V = MeltdownView;

    open spec fn view(&self) -> MeltdownView {
        MeltdownView {
            phase: self.phase,
            cache: self.cache@,
            rax: self.registers.rax@,
            rbx: self.registers.rbx@,
            current_pc: self.registers.current_pc,
            gadget: gadget_view(self.gadget),
            reload_timings: self.reload_timings@,
            secret_byte: self.secret_byte,
            secret_revealed: self.secret_revealed,
            narrative: log_view(self.narrative),
            quit: self.quit,
        }
    }
}

/// The gadget listing of a fresh simulation.
pub open spec fn initial_gadget() -> Seq<GadgetView> {
    seq![
        upcoming(0xffff_8001_1234_0000, "push", "rbp", "function prologue"),
        upcoming(0xffff_8001_1234_0001, "mov", "rbp, rsp", "save stack pointer"),
        upcoming(0xffff_8001_1234_0003, "mov", "rax, [kernel_secret]", "FAULT: ring-0 access from user mode"),
        upcoming(0xffff_8001_1234_000a, "shl", "rax, 12", "encode as 4096-byte page offset"),
        upcoming(0xffff_8001_1234_000d, "mov", "rbx, [probe_array+rax]", "SIDE EFFECT: cache line installed!"),
        upcoming(0xffff_8001_1234_0010, ";;", "#PF fault raised \u{2014} ROB squashed", "microarch side effects persist"),
        upcoming(0xffff_8001_1234_0012, "xor", "rax, rax", "architectural rollback: rax = 0"),
        upcoming(0xffff_8001_1234_0014, "xor", "rbx, rbx", "architectural rollback: rbx = 0"),
    ]
}

/// The event log of a fresh simulation.
pub open spec fn initial_narrative() -> Seq<(Seq<char>, NarrativeStyle)> {
    seq![
        ("Meltdown vulnerability simulator initialized."@, NarrativeStyle::Info),
        ("Kernel secret at "@ + address_text(KERNEL_SECRET_ADDR) + " (value hidden)"@, NarrativeStyle::Info),
        ("Probe array at "@ + address_text(PROBE_ARRAY_BASE) + "  (256 \u{d7} 4096-byte pages)"@, NarrativeStyle::Info),
        ("Press SPACE to step  |  F = fast-forward phase  |  R = restart  |  B = back  |  Q = quit"@, NarrativeStyle::Warning),
    ]
}

/// A fresh simulation: every probe slot cached, nothing timed, registers clear.
pub open spec fn initial_view() -> MeltdownView {
    MeltdownView {
        phase: SimPhase::Setup,
        cache: Seq::new(256, |i: int| CacheSlotState::Cached),
        rax: RegisterView::Cleared,
        rbx: RegisterView::Cleared,
        current_pc: 0,
        gadget: initial_gadget(),
        reload_timings: Seq::new(256, |i: int| None),
        secret_byte: SECRET_BYTE,
        secret_revealed: false,
        narrative: initial_narrative(),
        quit: false,
    }
}

/// The cache after the slots in `lo..hi` have been flushed.
pub open spec fn evict_range(cache: Seq<CacheSlotState>, lo: int, hi: int) -> Seq<CacheSlotState> {
    Seq::new(cache.len(), |j: int| if lo <= j < hi { CacheSlotState::Evicted } else { cache[j] })
}

/// The log line of one flush step over the slots `step..=last`.
pub open spec fn flush_text(step: int, last: int) -> Seq<char> {
    "CLFLUSH: evicted probe_array[0x"@ + slot_text(step) + "\u{2013}0x"@ + slot_text(last) + "]"@
}

/// The log line of the timing hit at the secret's slot.
pub open spec fn hit_text(secret: u8) -> Seq<char> {
    "TIMING: probe_array[0x"@ + slot_text(secret as int) + "] = "@ + decimal_text(
        CACHE_HIT_CYCLES as nat,
    ) + " cycles  \u{2190} CACHE HIT! Secret = 0x"@ + slot_text(secret as int) + " ('"@ + seq![
        byte_char(secret),
    ] + "')"@
}

/// The log line that reports the recovered secret.
pub open spec fn recovered_text(secret: u8) -> Seq<char> {
    "Attack complete! Secret byte recovered: 0x"@ + slot_text(secret as int) + " ('"@ + seq![
        byte_char(secret),
    ] + "')"@
}

impl MeltdownView {
    /// One flush step: evicts the next block of probe slots.
    pub open spec fn flush_step(self, step: int) -> MeltdownView {
        let end: int = chunk_end(step);
        let log = log_push(self.narrative, flush_text(step, end - 1), NarrativeStyle::Info);
        if end >= PROBE_SLOTS {
            MeltdownView {
                cache: evict_range(self.cache, step, end),
                narrative: log_push(
                    log_push(log, "All 256 probe slots flushed from cache."@, NarrativeStyle::Warning),
                    "Starting speculative execution gadget..."@,
                    NarrativeStyle::Warning,
                ),
                phase: SimPhase::Speculative { step: 0 },
                ..self
            }
        } else {
            MeltdownView {
                cache: evict_range(self.cache, step, end),
                narrative: log,
                phase: SimPhase::Flush { step: end as usize },
                ..self
            }
        }
    }

    /// One step of the speculative window.
    pub open spec fn speculative_step(self, step: int) -> MeltdownView {
        if step == 0 {
            MeltdownView {
                gadget: set_state(self.gadget, 2, InstructionState::SpeculativelyExecuting),
                rax: RegisterView::Speculative("???"@),
                current_pc: 2,
                narrative: log_push(
                    log_push(
                        self.narrative,
                        "FAULT: mov rax, [kernel_secret] \u{2014} #PF raised (ring-0 access from user mode)"@,
                        NarrativeStyle::Critical,
                    ),
                    "Out-of-order engine continues executing PAST the fault!"@,
                    NarrativeStyle::Warning,
                ),
                phase: SimPhase::Speculative { step: 1 },
                ..self
            }
        } else if step == 1 {
            MeltdownView {
                gadget: set_state(
                    set_state(self.gadget, 2, InstructionState::Retired),
                    3,
                    InstructionState::SpeculativelyExecuting,
                ),
                rax: RegisterView::Speculative("??? \u{d7} 4096"@),
                current_pc: 3,
                narrative: log_push(
                    self.narrative,
                    "SPECULATION: rax = secret_byte << 12  (index into probe array by page)"@,
                    NarrativeStyle::Warning,
                ),
                phase: SimPhase::Speculative { step: 2 },
                ..self
            }
        } else if step == 2 {
            MeltdownView {
                gadget: set_state(
                    set_state(self.gadget, 3, InstructionState::Retired),
                    4,
                    InstructionState::SpeculativelyExecuting,
                ),
                rbx: RegisterView::Speculative("mem[probe_array + ???\u{d7}4096]"@),
                current_pc: 4,
                cache: self.cache.update(self.secret_byte as int, CacheSlotState::Cached),
                narrative: log_push(
                    self.narrative,
                    "SPECULATION: CPU loads probe_array[secret\u{d7}4096] \u{2014} CACHE LINE INSTALLED!"@,
                    NarrativeStyle::Critical,
                ),
                phase: SimPhase::Speculative { step: 3 },
                ..self
            }
        } else if step == 3 {
            MeltdownView {
                gadget: set_state(
                    set_state(
                        set_state(
                            set_state(self.gadget, 4, InstructionState::Faulted),
                            5,
                            InstructionState::Faulted,
                        ),
                        6,
                        InstructionState::Squashed,
                    ),
                    7,
                    InstructionState::Squashed,
                ),
                rax: RegisterView::Cleared,
                rbx: RegisterView::Cleared,
                current_pc: 5,
                narrative: log_push(
                    log_push(
                        log_push(
                            self.narrative,
                            "FAULT RAISED: Reorder Buffer squashed. Architectural registers rolled back."@,
                            NarrativeStyle::Critical,
                        ),
                        "Cache state is NOT rolled back \u{2014} microarchitectural side effect persists!"@,
                        NarrativeStyle::Warning,
                    ),
                    "Beginning Reload+Timing phase to measure which cache slot was touched..."@,
                    NarrativeStyle::Info,
                ),
                phase: SimPhase::Reload { step: 0 },
                ..self
            }
        } else {
            self
        }
    }

    /// One reload step: times the next block of probe slots.
    pub open spec fn reload_step(self, step: int) -> MeltdownView {
        let end: int = chunk_end(step);
        let secret: int = self.secret_byte as int;
        let found = step <= secret < end;
        let cache = if found {
            self.cache.update(secret, CacheSlotState::Hit)
        } else {
            self.cache
        };
        let log = if found {
            log_push(self.narrative, hit_text(self.secret_byte), NarrativeStyle::Success)
        } else {
            self.narrative
        };
        let timings = time_range(self.reload_timings, step, end, secret, CACHE_HIT_CYCLES, CACHE_MISS_CYCLES);
        if end >= PROBE_SLOTS {
            MeltdownView {
                cache,
                reload_timings: timings,
                secret_revealed: true,
                narrative: log_push(
                    log_push(log, recovered_text(self.secret_byte), NarrativeStyle::Success),
                    "Press SPACE to exit, R to restart, B to return to menu."@,
                    NarrativeStyle::Info,
                ),
                phase: SimPhase::Revealed,
                ..self
            }
        } else {
            MeltdownView {
                cache,
                reload_timings: timings,
                narrative: log,
                phase: SimPhase::Reload { step: end as usize },
                ..self
            }
        }
    }

    /// The state after one press of the step key.
    pub open spec fn next(self) -> MeltdownView {
        match self.phase {
            SimPhase::Setup => MeltdownView {
                gadget: set_state(
                    set_state(self.gadget, 0, InstructionState::Retired),
                    1,
                    InstructionState::Retired,
                ),
                current_pc: 2,
                narrative: log_push(
                    log_push(
                        self.narrative,
                        "Probe array loaded into cache (all 256 slots cached)."@,
                        NarrativeStyle::Info,
                    ),
                    "Beginning Flush phase: CLFLUSH evicts probe array from cache."@,
                    NarrativeStyle::Warning,
                ),
                phase: SimPhase::Flush { step: 0 },
                ..self
            },
            SimPhase::Flush { step } => self.flush_step(step as int),
            SimPhase::Speculative { step } => self.speculative_step(step as int),
            SimPhase::Reload { step } => self.reload_step(step as int),
            SimPhase::Revealed => MeltdownView { quit: true, ..self },
        }
    }
}

impl MeltdownSim {
    /// What a step needs: the whole listing, and a phase counter that can
    /// advance by a block of slots without overflow.
    pub open spec fn wf(&self) -> bool {
        &&& self.gadget@.len() >= 8
        &&& match self.phase {
            SimPhase::Flush { step } => step + SLOTS_PER_STEP <= usize::MAX,
            SimPhase::Reload { step } => step + SLOTS_PER_STEP <= usize::MAX,
            _ => true,
        }
    }
}

/// The gadget listing: the faulting kernel load and its cache-encoding tail.
fn make_gadget() -> (g: Vec<GadgetInstruction>)
    ensures
        gadget_view(g) == initial_gadget(),
{
    let g = vec![
        GadgetInstruction {
            address: 0xffff_8001_1234_0000,
            mnemonic: "push",
            operands: "rbp",
            comment: "function prologue",
            state: InstructionState::Upcoming,
        },
        GadgetInstruction {
            address: 0xffff_8001_1234_0001,
            mnemonic: "mov",
            operands: "rbp, rsp",
            comment: "save stack pointer",
            state: InstructionState::Upcoming,
        },
        GadgetInstruction {
            address: 0xffff_8001_1234_0003,
            mnemonic: "mov",
            operands: "rax, [kernel_secret]",
            comment: "FAULT: ring-0 access from user mode",
            state: InstructionState::Upcoming,
        },
        GadgetInstruction {
            address: 0xffff_8001_1234_000a,
            mnemonic: "shl",
            operands: "rax, 12",
            comment: "encode as 4096-byte page offset",
            state: InstructionState::Upcoming,
        },
        GadgetInstruction {
            address: 0xffff_8001_1234_000d,
            mnemonic: "mov",
            operands: "rbx, [probe_array+rax]",
            comment: "SIDE EFFECT: cache line installed!",
            state: InstructionState::Upcoming,
        },
        GadgetInstruction {
            address: 0xffff_8001_1234_0010,
            mnemonic: ";;",
            operands: "#PF fault raised \u{2014} ROB squashed",
            comment: "microarch side effects persist",
            state: InstructionState::Upcoming,
        },
        GadgetInstruction {
            address: 0xffff_8001_1234_0012,
            mnemonic: "xor",
            operands: "rax, rax",
            comment: "architectural rollback: rax = 0",
            state: InstructionState::Upcoming,
        },
        GadgetInstruction {
            address: 0xffff_8001_1234_0014,
            mnemonic: "xor",
            operands: "rbx, rbx",
            comment: "architectural rollback: rbx = 0",
            state: InstructionState::Upcoming,
        },
    ];
    assert(gadget_view(g) =~= initial_gadget());
    g
}


/// The log line of one flush step over the slots `step..=last`.
fn flush_message(step: usize, last: usize) -> (t: String)
    ensures
        t@ == flush_text(step as int, last as int),
{
    let mut t = String::from_str("CLFLUSH: evicted probe_array[0x");
    push_hex(&mut t, step as u64, 2, true);
    t.append("\u{2013}0x");
    push_hex(&mut t, last as u64, 2, true);
    t.append("]");
    t
}

/// The log line of the timing hit at the secret's slot.
fn hit_message(secret: u8) -> (t: String)
    ensures
        t@ == hit_text(secret),
{
    let mut t = String::from_str("TIMING: probe_array[0x");
    push_hex(&mut t, secret as u64, 2, true);
    t.append("] = ");
    push_decimal(&mut t, CACHE_HIT_CYCLES as u64);
    t.append(" cycles  \u{2190} CACHE HIT! Secret = 0x");
    push_hex(&mut t, secret as u64, 2, true);
    t.append(" ('");
    push_char(&mut t, secret as char);
    t.append("')");
    t
}

/// The log line that reports the recovered secret.
fn recovered_message(secret: u8) -> (t: String)
    ensures
        t@ == recovered_text(secret),
{
    let mut t = String::from_str("Attack complete! Secret byte recovered: 0x");
    push_hex(&mut t, secret as u64, 2, true);
    t.append(" ('");
    push_char(&mut t, secret as char);
    t.append("')");
    t
}

impl MeltdownSim {
    /// A fresh simulation: all probe slots cached, registers clear, the
    /// introduction in the event log.
    pub fn new() -> (s: Self)
        ensures
            s@ == initial_view(),
            s.wf(),
    {
        let mut narrative: VecDeque<NarrativeEntry> = VecDeque::new();
        narrative.push_back(
            NarrativeEntry {
                text: String::from_str("Meltdown vulnerability simulator initialized."),
                style: NarrativeStyle::Info,
            },
        );
        let mut t = String::from_str("Kernel secret at ");
        push_address(&mut t, KERNEL_SECRET_ADDR);
        t.append(" (value hidden)");
        narrative.push_back(NarrativeEntry { text: t, style: NarrativeStyle::Info });
        let mut t = String::from_str("Probe array at ");
        push_address(&mut t, PROBE_ARRAY_BASE);
        t.append("  (256 \u{d7} 4096-byte pages)");
        narrative.push_back(NarrativeEntry { text: t, style: NarrativeStyle::Info });
        narrative.push_back(
            NarrativeEntry {
                text: String::from_str(
                    "Press SPACE to step  |  F = fast-forward phase  |  R = restart  |  B = back  |  Q = quit",
                ),
                style: NarrativeStyle::Warning,
            },
        );
        let s = MeltdownSim {
            phase: SimPhase::Setup,
            cache: [CacheSlotState::Cached; 256],
            registers: CpuRegisters {
                rax: RegisterValue::Cleared,
                rbx: RegisterValue::Cleared,
                current_pc: 0,
            },
            gadget: make_gadget(),
            reload_timings: [None; 256],
            secret_byte: SECRET_BYTE,
            secret_revealed: false,
            narrative,
            quit: false,
        };
        assert(s@.cache =~= Seq::new(256, |i: int| CacheSlotState::Cached));
        assert(s@.reload_timings =~= Seq::new(256, |i: int| None));
        assert(s@.narrative =~= initial_narrative());
        assert(s.gadget@.len() == gadget_view(s.gadget).len());
        s
    }

    /// Appends a line to the event log, keeping at most `MAX_NARRATIVE` lines.
    fn push(&mut self, text: String, style: NarrativeStyle)
        ensures
            final(self)@ == (MeltdownView { narrative: log_push(old(self)@.narrative, text@, style), ..old(self)@ }),
            final(self).gadget@.len() == old(self).gadget@.len(),
            final(self).phase == old(self).phase,
    {
        push_narrative(&mut self.narrative, text, style);
    }

    /// Advances the attack by one step: one instruction of the gadget, or one
    /// block of sixteen probe slots in the flush and reload phases. In the final
    /// phase it asks to quit.
    pub fn step(&mut self)
        requires
            old(self).wf(),
        ensures
            final(self).wf(),
            final(self)@ == old(self)@.next(),
    {
        match self.phase {
            SimPhase::Setup => {
                mark(&mut self.gadget, 0, InstructionState::Retired);
                mark(&mut self.gadget, 1, InstructionState::Retired);
                self.registers.current_pc = 2;
                self.push(
                    String::from_str("Probe array loaded into cache (all 256 slots cached)."),
                    NarrativeStyle::Info,
                );
                self.push(
                    String::from_str("Beginning Flush phase: CLFLUSH evicts probe array from cache."),
                    NarrativeStyle::Warning,
                );
                self.phase = SimPhase::Flush { step: 0 };
            },
            SimPhase::Flush { step } => {
                let end: usize = chunk_end_of(step);
                let mut cache = self.cache;
                let mut i: usize = step;
                assert(cache@ =~= evict_range(self.cache@, step as int, i as int));
                while i < end
                    invariant
                        step <= i,
                        i <= end || i == step,
                        end <= PROBE_SLOTS,
                        cache@ == evict_range(self.cache@, step as int, i as int),
                    decreases end - i,
                {
                    cache[i] = CacheSlotState::Evicted;
                    i = i + 1;
                    assert(cache@ =~= evict_range(self.cache@, step as int, i as int));
                }
                assert(cache@ =~= evict_range(self.cache@, step as int, end as int));
                self.cache = cache;
                self.push(flush_message(step, end - 1), NarrativeStyle::Info);
                if end >= PROBE_SLOTS {
                    self.push(
                        String::from_str("All 256 probe slots flushed from cache."),
                        NarrativeStyle::Warning,
                    );
                    self.push(
                        String::from_str("Starting speculative execution gadget..."),
                        NarrativeStyle::Warning,
                    );
                    self.phase = SimPhase::Speculative { step: 0 };
                } else {
                    self.phase = SimPhase::Flush { step: end };
                }
            },
            SimPhase::Speculative { step } => {
                if step == 0 {
                    mark(&mut self.gadget, 2, InstructionState::SpeculativelyExecuting);
                    self.registers.rax = RegisterValue::Speculative(String::from_str("???"));
                    self.registers.current_pc = 2;
                    self.push(
                        String::from_str(
                            "FAULT: mov rax, [kernel_secret] \u{2014} #PF raised (ring-0 access from user mode)",
                        ),
                        NarrativeStyle::Critical,
                    );
                    self.push(
                        String::from_str("Out-of-order engine continues executing PAST the fault!"),
                        NarrativeStyle::Warning,
                    );
                    self.phase = SimPhase::Speculative { step: 1 };
                } else if step == 1 {
                    mark(&mut self.gadget, 2, InstructionState::Retired);
                    mark(&mut self.gadget, 3, InstructionState::SpeculativelyExecuting);
                    self.registers.rax = RegisterValue::Speculative(String::from_str("??? \u{d7} 4096"));
                    self.registers.current_pc = 3;
                    self.push(
                        String::from_str(
                            "SPECULATION: rax = secret_byte << 12  (index into probe array by page)",
                        ),
                        NarrativeStyle::Warning,
                    );
                    self.phase = SimPhase::Speculative { step: 2 };
                } else if step == 2 {
                    mark(&mut self.gadget, 3, InstructionState::Retired);
                    mark(&mut self.gadget, 4, InstructionState::SpeculativelyExecuting);
                    self.registers.rbx = RegisterValue::Speculative(
                        String::from_str("mem[probe_array + ???\u{d7}4096]"),
                    );
                    self.registers.current_pc = 4;
                    self.cache[self.secret_byte as usize] = CacheSlotState::Cached;
                    self.push(
                        String::from_str(
                            "SPECULATION: CPU loads probe_array[secret\u{d7}4096] \u{2014} CACHE LINE INSTALLED!",
                        ),
                        NarrativeStyle::Critical,
                    );
                    self.phase = SimPhase::Speculative { step: 3 };
                } else if step == 3 {
                    mark(&mut self.gadget, 4, InstructionState::Faulted);
                    mark(&mut self.gadget, 5, InstructionState::Faulted);
                    mark(&mut self.gadget, 6, InstructionState::Squashed);
                    mark(&mut self.gadget, 7, InstructionState::Squashed);
                    self.registers.rax = RegisterValue::Cleared;
                    self.registers.rbx = RegisterValue::Cleared;
                    self.registers.current_pc = 5;
                    self.push(
                        String::from_str(
                            "FAULT RAISED: Reorder Buffer squashed. Architectural registers rolled back.",
                        ),
                        NarrativeStyle::Critical,
                    );
                    self.push(
                        String::from_str(
                            "Cache state is NOT rolled back \u{2014} microarchitectural side effect persists!",
                        ),
                        NarrativeStyle::Warning,
                    );
                    self.push(
                        String::from_str(
                            "Beginning Reload+Timing phase to measure which cache slot was touched...",
                        ),
                        NarrativeStyle::Info,
                    );
                    self.phase = SimPhase::Reload { step: 0 };
                }
            },
            SimPhase::Reload { step } => {
                let end: usize = chunk_end_of(step);
                let secret: usize = self.secret_byte as usize;
                time_slots(&mut self.reload_timings, step, end, secret, CACHE_HIT_CYCLES, CACHE_MISS_CYCLES);
                if step <= secret && secret < end {
                    self.cache[secret] = CacheSlotState::Hit;
                    self.push(hit_message(self.secret_byte), NarrativeStyle::Success);
                }
                if end >= PROBE_SLOTS {
                    self.secret_revealed = true;
                    self.push(recovered_message(self.secret_byte), NarrativeStyle::Success);
                    self.push(
                        String::from_str("Press SPACE to exit, R to restart, B to return to menu."),
                        NarrativeStyle::Info,
                    );
                    self.phase = SimPhase::Revealed;
                } else {
                    self.phase = SimPhase::Reload { step: end };
                }
            },
            SimPhase::Revealed => {
                self.quit = true;
            },
        }
    }
}


impl MeltdownView {
    /// How many presses of the step key remain until the simulation asks to
    /// quit: one per instruction, one per block of sixteen probe slots, one to quit.
    pub open spec fn rank(self) -> int {
        match self.phase {
            SimPhase::Setup => TOTAL_STEPS as int,
            SimPhase::Flush { step } => chunks_left(step as int) + 21,
            SimPhase::Speculative { step } => if step <= 3 {
                21 - step
            } else {
                0
            },
            SimPhase::Reload { step } => chunks_left(step as int) + 1,
            SimPhase::Revealed => if self.quit {
                0
            } else {
                1
            },
        }
    }

    /// A speculative step past the end of the gadget: stepping changes nothing.
    pub open spec fn stalled(self) -> bool {
        self.phase matches SimPhase::Speculative { step } && step > 3
    }

    /// The attack is over and the simulation has asked to quit.
    pub open spec fn finished(self) -> bool {
        self.phase is Revealed && self.quit
    }

    /// What fast-forward leaves: steps until the phase changes, stopping early
    /// in the final phase or once the simulation asked to quit.
    pub open spec fn finish_phase(self, start: u8) -> MeltdownView
        decreases self.rank(),
    {
        if self.phase is Revealed || self.quit {
            self
        } else {
            let t = self.next();
            if t.phase.kind() != start {
                t
            } else if 0 <= t.rank() < self.rank() {
                t.finish_phase(start)
            } else {
                t
            }
        }
    }

    /// The state after `n` presses of the step key.
    pub open spec fn run(self, n: nat) -> MeltdownView
        decreases n,
    {
        if n == 0 {
            self
        } else {
            self.run((n - 1) as nat).next()
        }
    }
}

/// The cache while the flush stands at `step`: the slots below it evicted.
pub open spec fn flushed(step: int) -> Seq<CacheSlotState> {
    Seq::new(256, |i: int| if i < step { CacheSlotState::Evicted } else { CacheSlotState::Cached })
}

impl MeltdownView {
    /// What holds in every state that stepping reaches from a fresh simulation.
    pub open spec fn inv(self) -> bool {
        let secret: int = self.secret_byte as int;
        &&& self.gadget.len() == 8
        &&& self.narrative.len() <= MAX_NARRATIVE
        &&& self.secret_revealed == (self.phase is Revealed)
        &&& (self.quit ==> self.phase is Revealed)
        &&& match self.phase {
            SimPhase::Setup => self.cache == flushed(0) && self.reload_timings == probed_timings(secret, 0, CACHE_HIT_CYCLES, CACHE_MISS_CYCLES),
            SimPhase::Flush { step } => step < PROBE_SLOTS && self.cache == flushed(step as int)
                && self.reload_timings == probed_timings(secret, 0, CACHE_HIT_CYCLES, CACHE_MISS_CYCLES),
            SimPhase::Speculative { step } => step <= 3 && self.cache == (if step == 3 {
                probed_cache(secret, 0)
            } else {
                flushed(256)
            }) && self.reload_timings == probed_timings(secret, 0, CACHE_HIT_CYCLES, CACHE_MISS_CYCLES),
            SimPhase::Reload { step } => step < PROBE_SLOTS && self.cache == probed_cache(
                secret,
                step as int,
            ) && self.reload_timings == probed_timings(secret, step as int, CACHE_HIT_CYCLES, CACHE_MISS_CYCLES),
            SimPhase::Revealed => self.cache == probed_cache(secret, 256) && self.reload_timings
                == probed_timings(secret, 256, CACHE_HIT_CYCLES, CACHE_MISS_CYCLES),
        }
    }
}

/// Every step but the last brings the simulation one step closer to its end:
/// the number of remaining steps falls by exactly one, and a state that can
/// still make progress never turns into one that cannot.
pub proof fn lemma_step_progress(s: MeltdownView)
    requires
        !s.stalled(),
        !s.quit,
    ensures
        s.rank() >= 1,
        s.next().rank() == s.rank() - 1,
        !s.next().stalled(),
{
}

/// Once the simulation has asked to quit in its final phase, stepping changes nothing.
pub proof fn lemma_finished_is_fixed(s: MeltdownView)
    requires
        s.finished(),
    ensures
        s.next() == s,
{
}

/// A fresh simulation meets the invariant and is `TOTAL_STEPS` steps from its end.
pub proof fn lemma_initial_invariant()
    ensures
        initial_view().inv(),
        initial_view().rank() == TOTAL_STEPS,
        !initial_view().stalled(),
{
    assert(initial_view().cache =~= flushed(0));
    assert(initial_view().reload_timings =~= probed_timings(SECRET_BYTE as int, 0, CACHE_HIT_CYCLES, CACHE_MISS_CYCLES));
}

/// Stepping keeps the invariant.
pub proof fn lemma_step_keeps_invariant(s: MeltdownView)
    requires
        s.inv(),
    ensures
        s.next().inv(),
{
    let secret: int = s.secret_byte as int;
    let t = s.next();
    match s.phase {
        SimPhase::Setup => {},
        SimPhase::Flush { step } => {
            let end: int = chunk_end(step as int);
            assert(evict_range(s.cache, step as int, end) =~= flushed(end));
            lemma_log_push_bounded(s.narrative, flush_text(step as int, end - 1), NarrativeStyle::Info);
            if end >= PROBE_SLOTS {
                assert(flushed(end) =~= flushed(256));
            }
        },
        SimPhase::Speculative { step } => {
            if step == 2 {
                assert(s.cache.update(secret, CacheSlotState::Cached) =~= probed_cache(secret, 0));
            }
            if step == 3 {
                assert(t.cache =~= probed_cache(secret, 0));
            }
        },
        SimPhase::Reload { step } => {
            let end: int = chunk_end(step as int);
            let found = step <= secret < end;
            assert(time_range(s.reload_timings, step as int, end, secret, CACHE_HIT_CYCLES, CACHE_MISS_CYCLES) =~= probed_timings(secret, end, CACHE_HIT_CYCLES, CACHE_MISS_CYCLES));
            if found {
                assert(s.cache.update(secret, CacheSlotState::Hit) =~= probed_cache(secret, end));
                lemma_log_push_bounded(s.narrative, hit_text(s.secret_byte), NarrativeStyle::Success);
            } else {
                assert(s.cache =~= probed_cache(secret, end));
            }
            if end >= PROBE_SLOTS {
                assert(probed_cache(secret, end) =~= probed_cache(secret, 256));
                assert(probed_timings(secret, end, CACHE_HIT_CYCLES, CACHE_MISS_CYCLES) =~= probed_timings(secret, 256, CACHE_HIT_CYCLES, CACHE_MISS_CYCLES));
            }
        },
        SimPhase::Revealed => {},
    }
}

/// At the end of the attack the timings single out the secret: exactly the
/// secret's slot was timed as a cache hit, every other slot as a miss, and the
/// secret is marked as recovered.
pub proof fn lemma_secret_recovered(s: MeltdownView)
    requires
        s.inv(),
        s.phase is Revealed,
    ensures
        s.secret_revealed,
        forall|i: int|
            0 <= i < PROBE_SLOTS ==> (#[trigger] s.reload_timings[i] == Some(CACHE_HIT_CYCLES)
                <==> i == s.secret_byte as int),
        forall|i: int|
            0 <= i < PROBE_SLOTS ==> (s.reload_timings[i] == Some(CACHE_MISS_CYCLES) <==> i
                != s.secret_byte as int),
        forall|i: int|
            0 <= i < PROBE_SLOTS ==> (#[trigger] s.cache[i] == CacheSlotState::Hit <==> i
                == s.secret_byte as int),
        count_timed(s.reload_timings) == PROBE_SLOTS,
        count_timed_at(s.reload_timings, CACHE_HIT_CYCLES) == 1,
{
    lemma_count_probed(s.secret_byte as int, 256, CACHE_HIT_CYCLES, CACHE_MISS_CYCLES);
}

/// The fault rolls back the registers but not the cache: after it the
/// registers are clear and the secret's slot is still the only cached one.
pub proof fn lemma_fault_keeps_cache(s: MeltdownView)
    requires
        s.inv(),
        s.phase == (SimPhase::Speculative { step: 3 }),
    ensures
        s.next().rax == RegisterView::Cleared,
        s.next().rbx == RegisterView::Cleared,
        s.next().cache[s.secret_byte as int] == CacheSlotState::Cached,
        forall|i: int|
            0 <= i < PROBE_SLOTS && i != s.secret_byte as int ==> #[trigger] s.next().cache[i]
                == CacheSlotState::Evicted,
{
}

proof fn lemma_run_from_initial(n: nat)
    requires
        n <= TOTAL_STEPS,
    ensures
        initial_view().run(n).inv(),
        initial_view().run(n).rank() == TOTAL_STEPS - n,
        !initial_view().run(n).stalled(),
    decreases n,
{
    lemma_initial_invariant();
    if n > 0 {
        lemma_run_from_initial((n - 1) as nat);
        let s = initial_view().run((n - 1) as nat);
        lemma_step_keeps_invariant(s);
        lemma_step_progress(s);
    }
}

/// Pressing the step key `TOTAL_STEPS` times on a fresh simulation runs the
/// whole attack: the secret is recovered and the simulation asks to quit.
pub proof fn lemma_attack_completes()
    ensures
        initial_view().run(TOTAL_STEPS as nat).finished(),
        initial_view().run(TOTAL_STEPS as nat).secret_revealed,
        initial_view().run(TOTAL_STEPS as nat).inv(),
{
    lemma_run_from_initial(TOTAL_STEPS as nat);
}

impl MeltdownSim {
    /// Steps until the phase changes: stops after the step that enters another
    /// phase, or at once in the final phase or when the simulation asked to quit.
    pub fn step_phase(&mut self)
        requires
            old(self).wf(),
            !old(self)@.stalled() || old(self).quit,
        ensures
            final(self).wf(),
            !final(self)@.stalled() || final(self).quit,
            final(self)@ == old(self)@.finish_phase(old(self).phase.kind()),
    {
        let start: u8 = self.phase.kind_of();
        loop
            invariant_except_break
                self.phase.kind() == start,
                self@.finish_phase(start) == old(self)@.finish_phase(start),
            invariant
                self.wf(),
                !self@.stalled() || self.quit,
            ensures
                self.wf(),
                self@ == old(self)@.finish_phase(start),
            decreases self@.rank(),
        {
            if matches!(self.phase, SimPhase::Revealed) || self.quit {
                break;
            }
            proof {
                lemma_step_progress(self@);
            }
            self.step();
            if self.phase.kind_of() != start {
                break;
            }
        }
    }
}


impl MeltdownSim {
    /// The simulation's title.
    pub fn name(&self) -> (s: &'static str)
        ensures
            s@ == "Meltdown"@,
    {
        "Meltdown"
    }

    /// The vulnerability that the simulation shows.
    pub fn cve(&self) -> (s: &'static str)
        ensures
            s@ == "CVE-2017-5754"@,
    {
        "CVE-2017-5754"
    }

    /// A one-line summary of the attack.
    pub fn description(&self) -> (s: &'static str)
        ensures
            s@ == "Exploits out-of-order execution past a page fault to read kernel memory from user space"@,
    {
        "Exploits out-of-order execution past a page fault to read kernel memory from user space"
    }

    /// The current phase as the header line shows it.
    pub fn phase_label(&self) -> (s: String)
        ensures
            s@ == phase_text(self.phase),
    {
        self.phase.label()
    }

    /// One press of the step key: one step of the attack.
    pub fn advance(&mut self)
        requires
            old(self).wf(),
        ensures
            final(self).wf(),
            final(self)@ == old(self)@.next(),
    {
        self.step();
    }

    /// The fast-forward key: runs to the end of the current phase.
    pub fn fast_forward(&mut self)
        requires
            old(self).wf(),
            !old(self)@.stalled() || old(self).quit,
        ensures
            final(self).wf(),
            !final(self)@.stalled() || final(self).quit,
            final(self)@ == old(self)@.finish_phase(old(self).phase.kind()),
    {
        self.step_phase();
    }

    /// The restart key: back to a fresh simulation.
    pub fn reset(&mut self)
        ensures
            final(self)@ == initial_view(),
            final(self).wf(),
    {
        *self = MeltdownSim::new();
    }

    /// Whether the simulation has asked to quit.
    pub fn wants_quit(&self) -> (b: bool)
        ensures
            b == self.quit,
    {
        self.quit
    }
}

/// Fast-forward ends in another phase: the state it leaves is in a phase other
/// than the one it started in, unless it stopped in the final phase or because
/// the simulation asked to quit.
pub proof fn lemma_fast_forward_leaves_phase(s: MeltdownView)
    requires
        !s.stalled(),
    ensures
        s.finish_phase(s.phase.kind()).phase.kind() != s.phase.kind()
            || s.finish_phase(s.phase.kind()).phase is Revealed
            || s.finish_phase(s.phase.kind()).quit,
{
    lemma_finish_phase_leaves(s, s.phase.kind());
}

proof fn lemma_finish_phase_leaves(s: MeltdownView, start: u8)
    requires
        !s.stalled(),
        s.phase.kind() == start,
    ensures
        s.finish_phase(start).phase.kind() != start || s.finish_phase(start).phase is Revealed
            || s.finish_phase(start).quit,
    decreases s.rank(),
{
    if !(s.phase is Revealed || s.quit) {
        lemma_step_progress(s);
        let t = s.next();
        if t.phase.kind() == start {
            lemma_finish_phase_leaves(t, start);
        }
    }
}

/// Stepping only moves instructions through the pipeline: the listing keeps
/// its instructions, addresses and texts.
pub proof fn lemma_step_keeps_listing(s: MeltdownView)
    requires
        s.gadget.len() >= 8,
    ensures
        same_listing(s.next().gadget, s.gadget),
{
}

impl MeltdownView {
    /// How many presses of the step key the current phase still takes.
    pub open spec fn steps_left_in_phase(self) -> int {
        match self.phase {
            SimPhase::Setup => 1,
            SimPhase::Flush { step } => chunks_left(step as int),
            SimPhase::Speculative { step } => 4 - step,
            SimPhase::Reload { step } => chunks_left(step as int),
            SimPhase::Revealed => 0,
        }
    }
}

/// Stepping `n` times after one step is stepping `n + 1` times.
pub proof fn lemma_run_after_step(s: MeltdownView, n: nat)
    ensures
        s.next().run(n) == s.run(n + 1),
    decreases n,
{
    assert(s.run(0) == s);
    if n > 0 {
        lemma_run_after_step(s, (n - 1) as nat);
    }
}

proof fn lemma_phase_step(s: MeltdownView)
    requires
        !s.stalled(),
        !s.quit,
        !(s.phase is Revealed),
    ensures
        1 <= s.steps_left_in_phase() <= SLOTS_PER_STEP,
        (s.next().phase.kind() != s.phase.kind()) == (s.steps_left_in_phase() == 1),
        s.next().phase.kind() == s.phase.kind() ==> {
            &&& s.next().steps_left_in_phase() == s.steps_left_in_phase() - 1
            &&& !s.next().quit
            &&& !(s.next().phase is Revealed)
        },
        !s.next().quit,
{
}

proof fn lemma_finish_in_steps(s: MeltdownView, start: u8)
    requires
        !s.stalled(),
        !s.quit,
        !(s.phase is Revealed),
        s.phase.kind() == start,
    ensures
        s.finish_phase(start) == s.run(s.steps_left_in_phase() as nat),
        !s.finish_phase(start).quit,
        s.finish_phase(start).phase.kind() != start,
    decreases s.steps_left_in_phase(),
{
    lemma_step_progress(s);
    lemma_phase_step(s);
    let t = s.next();
    assert(s.run(0) == s);
    assert(s.run(1) == t);
    if t.phase.kind() == start {
        lemma_step_progress(t);
        lemma_finish_in_steps(t, start);
        lemma_run_after_step(s, t.steps_left_in_phase() as nat);
    }
}

/// Fast-forward finishes the current phase within sixteen steps: unless the
/// simulation is in its final phase or has asked to quit, it leaves the state
/// that pressing the step key `steps_left_in_phase` times gives, a number
/// between one and sixteen; that state is in another phase and has not asked
/// to quit. In the final phase, or once the simulation asked to quit, it
/// changes nothing.
pub proof fn lemma_fast_forward_bounded(s: MeltdownView)
    requires
        !s.stalled(),
    ensures
        s.phase is Revealed || s.quit ==> s.finish_phase(s.phase.kind()) == s,
        !(s.phase is Revealed || s.quit) ==> {
            &&& 1 <= s.steps_left_in_phase() <= SLOTS_PER_STEP
            &&& s.finish_phase(s.phase.kind()) == s.run(s.steps_left_in_phase() as nat)
            &&& s.finish_phase(s.phase.kind()).phase.kind() != s.phase.kind()
            &&& !s.finish_phase(s.phase.kind()).quit
        },
{
    if !(s.phase is Revealed || s.quit) {
        lemma_phase_step(s);
        lemma_finish_in_steps(s, s.phase.kind());
    }
}

/// Each step of the speculative window writes the destination register of the
/// instruction it executes and no other: the faulting load fills `rax`, the
/// shift keeps its result in `rax` and leaves `rbx` alone, the probe load
/// fills `rbx` and leaves `rax` alone, and the fault clears both.
pub proof fn lemma_speculative_register_writes(s: MeltdownView, k: usize)
    requires
        s.phase == (SimPhase::Speculative { step: k }),
        k <= 3,
    ensures
        k == 0 ==> s.next().rax == RegisterView::Speculative("???"@) && s.next().rbx == s.rbx,
        k == 1 ==> s.next().rax == RegisterView::Speculative("??? \u{d7} 4096"@) && s.next().rbx
            == s.rbx,
        k == 2 ==> s.next().rax == s.rax && s.next().rbx == RegisterView::Speculative(
            "mem[probe_array + ???\u{d7}4096]"@,
        ),
        k == 3 ==> s.next().rax == RegisterView::Cleared && s.next().rbx == RegisterView::Cleared,
{
}

/// Through the speculative window the program counter follows the listing:
/// each of the first three steps marks the instruction it moves to as
/// speculatively executing and retires the one before it (after the first);
/// the fault marks the load and the fault line as faulted and squashes the two
/// rollback instructions. Every other instruction keeps its state.
pub proof fn lemma_speculative_pipeline(s: MeltdownView, k: usize)
    requires
        s.phase == (SimPhase::Speculative { step: k }),
        k <= 3,
        s.gadget.len() == 8,
    ensures
        k <= 2 ==> {
            &&& s.next().current_pc == k + 2
            &&& s.next().gadget[k + 2].state == InstructionState::SpeculativelyExecuting
            &&& (k > 0 ==> s.next().gadget[k + 1].state == InstructionState::Retired)
            &&& forall|i: int|
                0 <= i < 8 && i != k + 2 && (k == 0 || i != k + 1) ==> #[trigger] s.next().gadget[i].state
                    == s.gadget[i].state
        },
        k == 3 ==> {
            &&& s.next().current_pc == 5
            &&& s.next().gadget[4].state == InstructionState::Faulted
            &&& s.next().gadget[5].state == InstructionState::Faulted
            &&& s.next().gadget[6].state == InstructionState::Squashed
            &&& s.next().gadget[7].state == InstructionState::Squashed
            &&& forall|i: int| 0 <= i < 4 ==> #[trigger] s.next().gadget[i].state == s.gadget[i].state
        },
{
}

/// The setup step retires the function prologue, the first two
/// instructions of the listing, and changes no other instruction, the cache
/// or the timings.
pub proof fn lemma_setup_retires_prologue(s: MeltdownView)
    requires
        s.phase == SimPhase::Setup,
        s.gadget.len() == 8,
    ensures
        s.next().gadget[0].state == InstructionState::Retired,
        s.next().gadget[1].state == InstructionState::Retired,
        forall|i: int| 2 <= i < 8 ==> #[trigger] s.next().gadget[i].state == s.gadget[i].state,
        s.next().current_pc == 2,
        s.next().cache == s.cache,
        s.next().reload_timings == s.reload_timings,
{
}

} // verus!
