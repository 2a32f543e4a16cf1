//! The Spectre variant 1 (CVE-2017-5753) simulation: train the branch predictor
//! with in-bounds calls, call the gadget out of bounds so that the mispredicted
//! bounds check lets it load the secret and touch its probe slot, then time
//! every probe slot to find the one that the speculative load brought in.

use std::collections::VecDeque;
use vstd::prelude::*;

use crate::sim::{
    chunk_end, chunk_end_of, same_listing, chunks_left, count_timed, count_timed_at, lemma_count_probed, gadget_view, lemma_log_push_bounded, log_push, log_view, mark, probed_cache,
    probed_timings, push_narrative, set_state, slot_text, time_range, time_slots, uniform_cache,
    upcoming, CacheSlotState, GadgetInstruction, GadgetView, InstructionState, NarrativeEntry,
    NarrativeStyle, RegisterValue, RegisterView, MAX_NARRATIVE, PROBE_SLOTS, SLOTS_PER_STEP,
};
use crate::text::{
    address_text, byte_char, decimal_text, hex_text, push_address, push_char, push_decimal,
    push_hex,
};

verus! {

/// The secret byte that the attack recovers (`'S'`).
pub const SECRET_BYTE: u8 = 0x53;

/// How far past the end of `array1` the secret lies.
pub const SECRET_OFFSET: usize = 256;

/// The address of the victim's bounds-checked array.
pub const ARRAY1_BASE: u64 = 0x0000_7FFF_0001_FF00;

/// The address of the secret.
pub const SECRET_ADDR: u64 = 0x0000_7FFF_0002_0000;

/// The address of the attacker's probe array.
pub const PROBE_ARRAY_BASE: u64 = 0x0000_7FFF_0003_0000;

/// The access time of a probe slot that is in the cache.
pub const CACHE_HIT_CYCLES: u32 = 4;

/// The access time of a probe slot that is not in the cache.
pub const CACHE_MISS_CYCLES: u32 = 200;

/// How many in-bounds calls train the branch predictor.
pub const TRAIN_ROUNDS: usize = 8;

/// The number of steps from a fresh simulation until it asks to quit.
pub const TOTAL_STEPS: usize = 32;

/// The phases of the attack; `round` and `step` count progress inside a phase.
#[derive(Clone, Copy, Debug, PartialEq, Eq, Structural)]
pub enum SpectrePhase {
    Setup,
    Train { round: usize },
    Speculative { step: usize },
    Reload { step: usize },
    Revealed,
}

/// The phase as the header line shows it.
pub open spec fn phase_text(p: SpectrePhase) -> Seq<char> {
    match p {
        SpectrePhase::Setup => "SETUP"@,
        SpectrePhase::Train { round } => "TRAIN  (branch predictor training \u{2014} "@
            + decimal_text(round as nat) + "/"@ + decimal_text(TRAIN_ROUNDS as nat) + " rounds)"@,
        SpectrePhase::Speculative { step } => "SPECULATIVE EXECUTION  (step "@ + decimal_text(
            step as nat,
        ) + "/5)"@,
        SpectrePhase::Reload { step } => "RELOAD + TIMING  ("@ + decimal_text(step as nat)
            + "/256)"@,
        SpectrePhase::Revealed => "ATTACK COMPLETE \u{2014} SECRET RECOVERED"@,
    }
}

impl SpectrePhase {
    /// Which phase this is, without its progress counter.
    pub open spec fn kind(self) -> u8 {
        match self {
            SpectrePhase::Setup => 0,
            SpectrePhase::Train { .. } => 1,
            SpectrePhase::Speculative { .. } => 2,
            SpectrePhase::Reload { .. } => 3,
            SpectrePhase::Revealed => 4,
        }
    }

    fn kind_of(&self) -> (k: u8)
        ensures
            k == self.kind(),
    {
        match self {
            SpectrePhase::Setup => 0,
            SpectrePhase::Train { .. } => 1,
            SpectrePhase::Speculative { .. } => 2,
            SpectrePhase::Reload { .. } => 3,
            SpectrePhase::Revealed => 4,
        }
    }

    /// The phase as the header line shows it.
    pub fn label(&self) -> (s: String)
        ensures
            s@ == phase_text(*self),
    {
        match self {
            SpectrePhase::Setup => String::from_str("SETUP"),
            SpectrePhase::Train { round } => {
                let mut s = String::from_str("TRAIN  (branch predictor training \u{2014} ");
                push_decimal(&mut s, *round as u64);
                s.append("/");
                push_decimal(&mut s, TRAIN_ROUNDS as u64);
                s.append(" rounds)");
                s
            },
            SpectrePhase::Speculative { step } => {
                let mut s = String::from_str("SPECULATIVE EXECUTION  (step ");
                push_decimal(&mut s, *step as u64);
                s.append("/5)");
                s
            },
            SpectrePhase::Reload { step } => {
                let mut s = String::from_str("RELOAD + TIMING  (");
                push_decimal(&mut s, *step as u64);
                s.append("/256)");
                s
            },
            SpectrePhase::Revealed => String::from_str("ATTACK COMPLETE \u{2014} SECRET RECOVERED"),
        }
    }
}

/// What the branch predictor believes about the bounds check.
#[derive(Clone, Copy, Debug, PartialEq, Eq, Structural)]
pub enum BranchPredictorState {
    Untrained,
    Training,
    Trained,
    Mispredicting,
}

/// The registers of the gadget and the listing index of the instruction being executed.
pub struct SpectreRegisters {
    pub rdi: RegisterValue,
    pub rax: RegisterValue,
    pub rbx: RegisterValue,
    pub current_pc: usize,
}

/// The whole state of a Spectre simulation.
pub struct SpectreSim {
    pub phase: SpectrePhase,
    pub cache: [CacheSlotState; 256],
    pub registers: SpectreRegisters,
    pub gadget: Vec<GadgetInstruction>,
    pub reload_timings: [Option<u32>; 256],
    pub secret_byte: u8,
    pub secret_revealed: bool,
    pub branch_predictor: BranchPredictorState,
    pub train_round: usize,
    pub narrative: VecDeque<NarrativeEntry>,
    pub quit: bool,
}

/// The state of a Spectre simulation as mathematical values.
#[verifier::ext_equal]
pub struct SpectreView {
    pub phase: SpectrePhase,
    pub cache: Seq<CacheSlotState>,
    pub rdi: RegisterView,
    pub rax: RegisterView,
    pub rbx: RegisterView,
    pub current_pc: usize,
    pub gadget: Seq<GadgetView>,
    pub reload_timings: Seq<Option<u32>>,
    pub secret_byte: u8,
    pub secret_revealed: bool,
    pub branch_predictor: BranchPredictorState,
    pub train_round: usize,
    pub narrative: Seq<(Seq<char>, NarrativeStyle)>,
    pub quit: bool,
}

impl View for SpectreSim {
    type V = SpectreView;

    open spec fn view(&self) -> SpectreView {
        SpectreView {
            phase: self.phase,
            cache: self.cache@,
            rdi: self.registers.rdi@,
            rax: self.registers.rax@,
            rbx: self.registers.rbx@,
            current_pc: self.registers.current_pc,
            gadget: gadget_view(self.gadget),
            reload_timings: self.reload_timings@,
            secret_byte: self.secret_byte,
            secret_revealed: self.secret_revealed,
            branch_predictor: self.branch_predictor,
            train_round: self.train_round,
            narrative: log_view(self.narrative),
            quit: self.quit,
        }
    }
}

/// The gadget listing of a fresh simulation.
pub open spec fn initial_gadget() -> Seq<GadgetView> {
    seq![
        upcoming(0x0000_7fff_0001_0000, "push", "rbp", "function prologue"),
        upcoming(0x0000_7fff_0001_0001, "mov", "rbp, rsp", "save frame pointer"),
        upcoming(0x0000_7fff_0001_0003, "cmp", "rdi, [array1_size]", "bounds check: x < 16?"),
        upcoming(0x0000_7fff_0001_000a, "jae", ".bounds_fail", "MISPREDICT: predictor guesses NOT taken"),
        upcoming(0x0000_7fff_0001_000c, "movzx", "rax, [array1+rdi]", "SPECULATION: load secret byte out-of-bounds!"),
        upcoming(0x0000_7fff_0001_0014, "imul", "rax, 512", "SPECULATION: scale index by stride"),
        upcoming(0x0000_7fff_0001_001b, "mov", "rbx, [array2+rax]", "SIDE EFFECT: cache line installed!"),
        upcoming(0x0000_7fff_0001_0023, ";;", "#BR misprediction \u{2014} pipeline flushed", "microarch side effects persist"),
        upcoming(0x0000_7fff_0001_0025, "xor", "rax, rax", "architectural rollback: rax = 0"),
        upcoming(0x0000_7fff_0001_0027, "xor", "rbx, rbx", "architectural rollback: rbx = 0"),
    ]
}

/// The event log of a fresh simulation.
pub open spec fn initial_narrative() -> Seq<(Seq<char>, NarrativeStyle)> {
    seq![
        ("Spectre Variant 1 simulator initialized."@, NarrativeStyle::Info),
        ("Victim array (array1) at "@ + address_text(ARRAY1_BASE) + "  (16 bytes, bounds-checked)"@, NarrativeStyle::Info),
        ("Secret string at "@ + address_text(SECRET_ADDR) + "  (offset 256 past array1 end)"@, NarrativeStyle::Info),
        ("Probe array (array2) at "@ + address_text(PROBE_ARRAY_BASE) + "  (256 \u{d7} 512 B)"@, NarrativeStyle::Info),
        ("Press SPACE to step  |  F = fast-forward phase  |  R = restart  |  B = back  |  Q = quit"@, NarrativeStyle::Warning),
    ]
}

/// A fresh simulation: every probe slot cold, nothing timed, predictor untrained.
pub open spec fn initial_view() -> SpectreView {
    SpectreView {
        phase: SpectrePhase::Setup,
        cache: uniform_cache(CacheSlotState::Evicted),
        rdi: RegisterView::Cleared,
        rax: RegisterView::Cleared,
        rbx: RegisterView::Cleared,
        current_pc: 0,
        gadget: initial_gadget(),
        reload_timings: Seq::new(256, |i: int| None),
        secret_byte: SECRET_BYTE,
        secret_revealed: false,
        branch_predictor: BranchPredictorState::Untrained,
        train_round: 0,
        narrative: initial_narrative(),
        quit: false,
    }
}

/// The log line of one training call with index `x`.
pub open spec fn train_text(round: int, x: int) -> Seq<char> {
    "TRAIN "@ + decimal_text((round + 1) as nat) + "/"@ + decimal_text(TRAIN_ROUNDS as nat)
        + ": x="@ + decimal_text(x as nat) + " (in-bounds). cmp: "@ + decimal_text(x as nat)
        + " < 16 = TRUE. jae NOT taken. Predictor records: NOT taken."@
}

/// What `rax` shows once the secret byte has been loaded.
pub open spec fn loaded_text(secret: u8) -> Seq<char> {
    "array1[256] = 0x"@ + slot_text(secret as int) + " '"@ + seq![byte_char(secret)] + "'"@
}

/// The log line of the out-of-bounds load.
pub open spec fn load_text(secret: u8) -> Seq<char> {
    "SPECULATION: movzx rax, [array1+256] \u{2014} reads SECRET 0x"@ + slot_text(secret as int)
        + " '"@ + seq![byte_char(secret)] + "' (out-of-bounds access!)"@
}

/// What `rax` shows once the secret byte has been scaled by the stride.
pub open spec fn scaled_text(secret: u8) -> Seq<char> {
    "0x"@ + slot_text(secret as int) + " \u{d7} 512 = 0x"@ + hex_text((secret as nat) * 512, 4, true)
}

/// What `rbx` shows once the probe slot has been loaded.
pub open spec fn probe_load_text(secret: u8) -> Seq<char> {
    "mem[array2 + 0x"@ + hex_text((secret as nat) * 512, 4, true) + "]"@
}

/// The log line of the timing hit at the secret's slot.
pub open spec fn hit_text(secret: u8) -> Seq<char> {
    "TIMING: array2[0x"@ + slot_text(secret as int) + "\u{d7}512] = "@ + decimal_text(
        CACHE_HIT_CYCLES as nat,
    ) + " cycles  \u{2190} CACHE HIT! Secret = 0x"@ + slot_text(secret as int) + " ('"@ + seq![
        byte_char(secret),
    ] + "')"@
}

/// The log line that reports the recovered secret.
pub open spec fn recovered_text(secret: u8) -> Seq<char> {
    "Attack complete! Secret byte recovered: 0x"@ + slot_text(secret as int) + " ('"@ + seq![
        byte_char(secret),
    ] + "')"@
}

impl SpectreView {
    /// One training call of the gadget with an in-bounds index.
    pub open spec fn train_step(self, round: int) -> SpectreView {
        let x: int = round % 4;
        let trained = round + 1 >= TRAIN_ROUNDS;
        let s = SpectreView {
            rdi: RegisterView::Known(x as u64),
            gadget: set_state(
                set_state(self.gadget, 2, InstructionState::Retired),
                3,
                InstructionState::Retired,
            ),
            train_round: (round + 1) as usize,
            branch_predictor: if trained {
                BranchPredictorState::Trained
            } else {
                BranchPredictorState::Training
            },
            narrative: log_push(self.narrative, train_text(round, x), NarrativeStyle::Info),
            ..self
        };
        if trained {
            SpectreView {
                narrative: log_push(
                    s.narrative,
                    "Branch predictor fully trained! Next call will predict NOT taken even for x=256."@,
                    NarrativeStyle::Warning,
                ),
                phase: SpectrePhase::Speculative { step: 0 },
                ..s
            }
        } else {
            SpectreView { phase: SpectrePhase::Train { round: (round + 1) as usize }, ..s }
        }
    }

    /// One step of the speculative window.
    pub open spec fn speculative_step(self, step: int) -> SpectreView {
        let secret: u8 = self.secret_byte;
        if step == 0 {
            SpectreView {
                rdi: RegisterView::Known(SECRET_OFFSET as u64),
                gadget: set_state(self.gadget, 2, InstructionState::SpeculativelyExecuting),
                current_pc: 2,
                branch_predictor: BranchPredictorState::Mispredicting,
                narrative: log_push(
                    log_push(
                        self.narrative,
                        "ATTACK: gadget called with x=256 (out-of-bounds, points past array1 to secret)."@,
                        NarrativeStyle::Critical,
                    ),
                    "CPU evaluates cmp: 256 < 16? FALSE \u{2014} but branch predictor says NOT taken! Speculating..."@,
                    NarrativeStyle::Warning,
                ),
                phase: SpectrePhase::Speculative { step: 1 },
                ..self
            }
        } else if step == 1 {
            SpectreView {
                gadget: set_state(
                    set_state(self.gadget, 2, InstructionState::Retired),
                    3,
                    InstructionState::SpeculativelyExecuting,
                ),
                current_pc: 3,
                narrative: log_push(
                    self.narrative,
                    "SPECULATION: jae .bounds_fail \u{2014} CPU predicts NOT taken (wrong!). Body executes speculatively."@,
                    NarrativeStyle::Warning,
                ),
                phase: SpectrePhase::Speculative { step: 2 },
                ..self
            }
        } else if step == 2 {
            SpectreView {
                gadget: set_state(
                    set_state(self.gadget, 3, InstructionState::Retired),
                    4,
                    InstructionState::SpeculativelyExecuting,
                ),
                rax: RegisterView::Speculative(loaded_text(secret)),
                current_pc: 4,
                narrative: log_push(self.narrative, load_text(secret), NarrativeStyle::Critical),
                phase: SpectrePhase::Speculative { step: 3 },
                ..self
            }
        } else if step == 3 {
            SpectreView {
                gadget: set_state(
                    set_state(self.gadget, 4, InstructionState::Retired),
                    5,
                    InstructionState::SpeculativelyExecuting,
                ),
                rax: RegisterView::Speculative(scaled_text(secret)),
                current_pc: 5,
                narrative: log_push(
                    self.narrative,
                    "SPECULATION: imul rax, 512 \u{2014} scale secret byte to probe array offset"@,
                    NarrativeStyle::Warning,
                ),
                phase: SpectrePhase::Speculative { step: 4 },
                ..self
            }
        } else if step == 4 {
            SpectreView {
                gadget: set_state(
                    set_state(self.gadget, 5, InstructionState::Retired),
                    6,
                    InstructionState::SpeculativelyExecuting,
                ),
                rbx: RegisterView::Speculative(probe_load_text(secret)),
                current_pc: 6,
                cache: self.cache.update(secret as int, CacheSlotState::Cached),
                narrative: log_push(
                    self.narrative,
                    "SPECULATION: mov rbx, [array2+rax] \u{2014} CACHE LINE INSTALLED as microarch side effect!"@,
                    NarrativeStyle::Critical,
                ),
                phase: SpectrePhase::Speculative { step: 5 },
                ..self
            }
        } else {
            SpectreView {
                gadget: set_state(
                    set_state(
                        set_state(
                            set_state(self.gadget, 6, InstructionState::Faulted),
                            7,
                            InstructionState::Faulted,
                        ),
                        8,
                        InstructionState::Squashed,
                    ),
                    9,
                    InstructionState::Squashed,
                ),
                rax: RegisterView::Cleared,
                rbx: RegisterView::Cleared,
                current_pc: 7,
                narrative: log_push(
                    log_push(
                        log_push(
                            self.narrative,
                            "MISPREDICTION DETECTED: Pipeline flushed. Architectural state rolled back."@,
                            NarrativeStyle::Critical,
                        ),
                        "Cache state is NOT rolled back \u{2014} microarchitectural side effect persists!"@,
                        NarrativeStyle::Warning,
                    ),
                    "Starting Reload+Timing phase to identify which cache slot was touched..."@,
                    NarrativeStyle::Info,
                ),
                phase: SpectrePhase::Reload { step: 0 },
                ..self
            }
        }
    }

    /// One reload step: times the next block of probe slots.
    pub open spec fn reload_step(self, step: int) -> SpectreView {
        let end: int = chunk_end(step);
        let secret: int = self.secret_byte as int;
        let found = step <= secret < end;
        let cache = if found {
            self.cache.update(secret, CacheSlotState::Hit)
        } else {
            self.cache
        };
        let log = if found {
            log_push(self.narrative, hit_text(self.secret_byte), NarrativeStyle::Success)
        } else {
            self.narrative
        };
        let timings = time_range(
            self.reload_timings,
            step,
            end,
            secret,
            CACHE_HIT_CYCLES,
            CACHE_MISS_CYCLES,
        );
        if end >= PROBE_SLOTS {
            SpectreView {
                cache,
                reload_timings: timings,
                secret_revealed: true,
                narrative: log_push(
                    log_push(log, recovered_text(self.secret_byte), NarrativeStyle::Success),
                    "Press SPACE to exit, R to restart, B to return to menu."@,
                    NarrativeStyle::Info,
                ),
                phase: SpectrePhase::Revealed,
                ..self
            }
        } else {
            SpectreView {
                cache,
                reload_timings: timings,
                narrative: log,
                phase: SpectrePhase::Reload { step: end as usize },
                ..self
            }
        }
    }

    /// The state after one press of the step key.
    pub open spec fn next(self) -> SpectreView {
        match self.phase {
            SpectrePhase::Setup => SpectreView {
                gadget: set_state(
                    set_state(self.gadget, 0, InstructionState::Retired),
                    1,
                    InstructionState::Retired,
                ),
                current_pc: 2,
                narrative: log_push(
                    log_push(
                        log_push(
                            log_push(
                                self.narrative,
                                "array1 has 16 elements. The gadget performs a bounds check before accessing it."@,
                                NarrativeStyle::Info,
                            ),
                            "array2 is the attacker's probe array: 256 slots \u{d7} 512 bytes = 128 KB. All slots cold."@,
                            NarrativeStyle::Info,
                        ),
                        "Secret string starts at offset 256 past array1 end ("@ + address_text(
                            SECRET_ADDR,
                        ) + ")."@,
                        NarrativeStyle::Warning,
                    ),
                    "Starting branch predictor training: call gadget with in-bounds values 8 times."@,
                    NarrativeStyle::Warning,
                ),
                phase: SpectrePhase::Train { round: 0 },
                ..self
            },
            SpectrePhase::Train { round } => self.train_step(round as int),
            SpectrePhase::Speculative { step } => self.speculative_step(step as int),
            SpectrePhase::Reload { step } => self.reload_step(step as int),
            SpectrePhase::Revealed => SpectreView { quit: true, ..self },
        }
    }
}

impl SpectreSim {
    /// What a step needs: the whole listing, and a phase counter that can
    /// advance without overflow.
    pub open spec fn wf(&self) -> bool {
        &&& self.gadget@.len() >= 10
        &&& match self.phase {
            SpectrePhase::Train { round } => round + 1 <= usize::MAX,
            SpectrePhase::Reload { step } => step + SLOTS_PER_STEP <= usize::MAX,
            _ => true,
        }
    }
}

/// The gadget listing: a bounds-checked array read whose result indexes the probe array.
fn make_gadget() -> (g: Vec<GadgetInstruction>)
    ensures
        gadget_view(g) == initial_gadget(),
{
    let g = vec![
        GadgetInstruction {
            address: 0x0000_7fff_0001_0000,
            mnemonic: "push",
            operands: "rbp",
            comment: "function prologue",
            state: InstructionState::Upcoming,
        },
        GadgetInstruction {
            address: 0x0000_7fff_0001_0001,
            mnemonic: "mov",
            operands: "rbp, rsp",
            comment: "save frame pointer",
            state: InstructionState::Upcoming,
        },
        GadgetInstruction {
            address: 0x0000_7fff_0001_0003,
            mnemonic: "cmp",
            operands: "rdi, [array1_size]",
            comment: "bounds check: x < 16?",
            state: InstructionState::Upcoming,
        },
        GadgetInstruction {
            address: 0x0000_7fff_0001_000a,
            mnemonic: "jae",
            operands: ".bounds_fail",
            comment: "MISPREDICT: predictor guesses NOT taken",
            state: InstructionState::Upcoming,
        },
        GadgetInstruction {
            address: 0x0000_7fff_0001_000c,
            mnemonic: "movzx",
            operands: "rax, [array1+rdi]",
            comment: "SPECULATION: load secret byte out-of-bounds!",
            state: InstructionState::Upcoming,
        },
        GadgetInstruction {
            address: 0x0000_7fff_0001_0014,
            mnemonic: "imul",
            operands: "rax, 512",
            comment: "SPECULATION: scale index by stride",
            state: InstructionState::Upcoming,
        },
        GadgetInstruction {
            address: 0x0000_7fff_0001_001b,
            mnemonic: "mov",
            operands: "rbx, [array2+rax]",
            comment: "SIDE EFFECT: cache line installed!",
            state: InstructionState::Upcoming,
        },
        GadgetInstruction {
            address: 0x0000_7fff_0001_0023,
            mnemonic: ";;",
            operands: "#BR misprediction \u{2014} pipeline flushed",
            comment: "microarch side effects persist",
            state: InstructionState::Upcoming,
        },
        GadgetInstruction {
            address: 0x0000_7fff_0001_0025,
            mnemonic: "xor",
            operands: "rax, rax",
            comment: "architectural rollback: rax = 0",
            state: InstructionState::Upcoming,
        },
        GadgetInstruction {
            address: 0x0000_7fff_0001_0027,
            mnemonic: "xor",
            operands: "rbx, rbx",
            comment: "architectural rollback: rbx = 0",
            state: InstructionState::Upcoming,
        },
    ];
    assert(gadget_view(g) =~= initial_gadget());
    g
}

fn train_message(round: usize, x: usize) -> (t: String)
    requires
        round < usize::MAX,
    ensures
        t@ == train_text(round as int, x as int),
{
    let mut t = String::from_str("TRAIN ");
    push_decimal(&mut t, (round + 1) as u64);
    t.append("/");
    push_decimal(&mut t, TRAIN_ROUNDS as u64);
    t.append(": x=");
    push_decimal(&mut t, x as u64);
    t.append(" (in-bounds). cmp: ");
    push_decimal(&mut t, x as u64);
    t.append(" < 16 = TRUE. jae NOT taken. Predictor records: NOT taken.");
    t
}

fn loaded_message(secret: u8) -> (t: String)
    ensures
        t@ == loaded_text(secret),
{
    let mut t = String::from_str("array1[256] = 0x");
    push_hex(&mut t, secret as u64, 2, true);
    t.append(" '");
    push_char(&mut t, secret as char);
    t.append("'");
    t
}

fn load_message(secret: u8) -> (t: String)
    ensures
        t@ == load_text(secret),
{
    let mut t = String::from_str("SPECULATION: movzx rax, [array1+256] \u{2014} reads SECRET 0x");
    push_hex(&mut t, secret as u64, 2, true);
    t.append(" '");
    push_char(&mut t, secret as char);
    t.append("' (out-of-bounds access!)");
    t
}

fn scaled_message(secret: u8) -> (t: String)
    ensures
        t@ == scaled_text(secret),
{
    let mut t = String::from_str("0x");
    push_hex(&mut t, secret as u64, 2, true);
    t.append(" \u{d7} 512 = 0x");
    push_hex(&mut t, (secret as u64) * 512, 4, true);
    t
}

fn probe_load_message(secret: u8) -> (t: String)
    ensures
        t@ == probe_load_text(secret),
{
    let mut t = String::from_str("mem[array2 + 0x");
    push_hex(&mut t, (secret as u64) * 512, 4, true);
    t.append("]");
    t
}

fn hit_message(secret: u8) -> (t: String)
    ensures
        t@ == hit_text(secret),
{
    let mut t = String::from_str("TIMING: array2[0x");
    push_hex(&mut t, secret as u64, 2, true);
    t.append("\u{d7}512] = ");
    push_decimal(&mut t, CACHE_HIT_CYCLES as u64);
    t.append(" cycles  \u{2190} CACHE HIT! Secret = 0x");
    push_hex(&mut t, secret as u64, 2, true);
    t.append(" ('");
    push_char(&mut t, secret as char);
    t.append("')");
    t
}

fn recovered_message(secret: u8) -> (t: String)
    ensures
        t@ == recovered_text(secret),
{
    let mut t = String::from_str("Attack complete! Secret byte recovered: 0x");
    push_hex(&mut t, secret as u64, 2, true);
    t.append(" ('");
    push_char(&mut t, secret as char);
    t.append("')");
    t
}

impl SpectreSim {
    /// A fresh simulation: every probe slot cold, registers clear, predictor
    /// untrained, the introduction in the event log.
    pub fn new() -> (s: Self)
        ensures
            s@ == initial_view(),
            s.wf(),
    {
        let mut narrative: VecDeque<NarrativeEntry> = VecDeque::new();
        narrative.push_back(
            NarrativeEntry {
                text: String::from_str("Spectre Variant 1 simulator initialized."),
                style: NarrativeStyle::Info,
            },
        );
        let mut t = String::from_str("Victim array (array1) at ");
        push_address(&mut t, ARRAY1_BASE);
        t.append("  (16 bytes, bounds-checked)");
        narrative.push_back(NarrativeEntry { text: t, style: NarrativeStyle::Info });
        let mut t = String::from_str("Secret string at ");
        push_address(&mut t, SECRET_ADDR);
        t.append("  (offset 256 past array1 end)");
        narrative.push_back(NarrativeEntry { text: t, style: NarrativeStyle::Info });
        let mut t = String::from_str("Probe array (array2) at ");
        push_address(&mut t, PROBE_ARRAY_BASE);
        t.append("  (256 \u{d7} 512 B)");
        narrative.push_back(NarrativeEntry { text: t, style: NarrativeStyle::Info });
        narrative.push_back(
            NarrativeEntry {
                text: String::from_str(
                    "Press SPACE to step  |  F = fast-forward phase  |  R = restart  |  B = back  |  Q = quit",
                ),
                style: NarrativeStyle::Warning,
            },
        );
        let s = SpectreSim {
            phase: SpectrePhase::Setup,
            cache: [CacheSlotState::Evicted; 256],
            registers: SpectreRegisters {
                rdi: RegisterValue::Cleared,
                rax: RegisterValue::Cleared,
                rbx: RegisterValue::Cleared,
                current_pc: 0,
            },
            gadget: make_gadget(),
            reload_timings: [None; 256],
            secret_byte: SECRET_BYTE,
            secret_revealed: false,
            branch_predictor: BranchPredictorState::Untrained,
            train_round: 0,
            narrative,
            quit: false,
        };
        assert(s@.cache =~= uniform_cache(CacheSlotState::Evicted));
        assert(s@.reload_timings =~= Seq::new(256, |i: int| None));
        assert(s@.narrative =~= initial_narrative());
        assert(s.gadget@.len() == gadget_view(s.gadget).len());
        s
    }

    /// Appends a line to the event log, keeping at most `MAX_NARRATIVE` lines.
    fn push(&mut self, text: String, style: NarrativeStyle)
        ensures
            final(self)@ == (SpectreView { narrative: log_push(old(self)@.narrative, text@, style), ..old(self)@ }),
            final(self).gadget@.len() == old(self).gadget@.len(),
            final(self).phase == old(self).phase,
    {
        push_narrative(&mut self.narrative, text, style);
    }

    /// Advances the attack by one step: one training call, one instruction of
    /// the speculative window, or one block of sixteen probe slots in the reload
    /// phase. In the final phase it asks to quit.
    pub fn step(&mut self)
        requires
            old(self).wf(),
        ensures
            final(self).wf(),
            final(self)@ == old(self)@.next(),
    {
        match self.phase {
            SpectrePhase::Setup => {
                mark(&mut self.gadget, 0, InstructionState::Retired);
                mark(&mut self.gadget, 1, InstructionState::Retired);
                self.registers.current_pc = 2;
                self.push(
                    String::from_str(
                        "array1 has 16 elements. The gadget performs a bounds check before accessing it.",
                    ),
                    NarrativeStyle::Info,
                );
                self.push(
                    String::from_str(
                        "array2 is the attacker's probe array: 256 slots \u{d7} 512 bytes = 128 KB. All slots cold.",
                    ),
                    NarrativeStyle::Info,
                );
                let mut t = String::from_str("Secret string starts at offset 256 past array1 end (");
                push_address(&mut t, SECRET_ADDR);
                t.append(").");
                self.push(t, NarrativeStyle::Warning);
                self.push(
                    String::from_str(
                        "Starting branch predictor training: call gadget with in-bounds values 8 times.",
                    ),
                    NarrativeStyle::Warning,
                );
                self.phase = SpectrePhase::Train { round: 0 };
            },
            SpectrePhase::Train { round } => {
                let train_x: usize = round % 4;
                self.registers.rdi = RegisterValue::Known(train_x as u64);
                mark(&mut self.gadget, 2, InstructionState::Retired);
                mark(&mut self.gadget, 3, InstructionState::Retired);
                self.train_round = round + 1;
                let next_round: usize = round + 1;
                self.branch_predictor = if next_round >= TRAIN_ROUNDS {
                    BranchPredictorState::Trained
                } else {
                    BranchPredictorState::Training
                };
                self.push(train_message(round, train_x), NarrativeStyle::Info);
                if next_round >= TRAIN_ROUNDS {
                    self.push(
                        String::from_str(
                            "Branch predictor fully trained! Next call will predict NOT taken even for x=256.",
                        ),
                        NarrativeStyle::Warning,
                    );
                    self.phase = SpectrePhase::Speculative { step: 0 };
                } else {
                    self.phase = SpectrePhase::Train { round: next_round };
                }
            },
            SpectrePhase::Speculative { step } => {
                if step == 0 {
                    self.registers.rdi = RegisterValue::Known(SECRET_OFFSET as u64);
                    mark(&mut self.gadget, 2, InstructionState::SpeculativelyExecuting);
                    self.registers.current_pc = 2;
                    self.branch_predictor = BranchPredictorState::Mispredicting;
                    self.push(
                        String::from_str(
                            "ATTACK: gadget called with x=256 (out-of-bounds, points past array1 to secret).",
                        ),
                        NarrativeStyle::Critical,
                    );
                    self.push(
                        String::from_str(
                            "CPU evaluates cmp: 256 < 16? FALSE \u{2014} but branch predictor says NOT taken! Speculating...",
                        ),
                        NarrativeStyle::Warning,
                    );
                    self.phase = SpectrePhase::Speculative { step: 1 };
                } else if step == 1 {
                    mark(&mut self.gadget, 2, InstructionState::Retired);
                    mark(&mut self.gadget, 3, InstructionState::SpeculativelyExecuting);
                    self.registers.current_pc = 3;
                    self.push(
                        String::from_str(
                            "SPECULATION: jae .bounds_fail \u{2014} CPU predicts NOT taken (wrong!). Body executes speculatively.",
                        ),
                        NarrativeStyle::Warning,
                    );
                    self.phase = SpectrePhase::Speculative { step: 2 };
                } else if step == 2 {
                    mark(&mut self.gadget, 3, InstructionState::Retired);
                    mark(&mut self.gadget, 4, InstructionState::SpeculativelyExecuting);
                    self.registers.rax = RegisterValue::Speculative(loaded_message(self.secret_byte));
                    self.registers.current_pc = 4;
                    self.push(load_message(self.secret_byte), NarrativeStyle::Critical);
                    self.phase = SpectrePhase::Speculative { step: 3 };
                } else if step == 3 {
                    mark(&mut self.gadget, 4, InstructionState::Retired);
                    mark(&mut self.gadget, 5, InstructionState::SpeculativelyExecuting);
                    self.registers.rax = RegisterValue::Speculative(scaled_message(self.secret_byte));
                    self.registers.current_pc = 5;
                    self.push(
                        String::from_str(
                            "SPECULATION: imul rax, 512 \u{2014} scale secret byte to probe array offset",
                        ),
                        NarrativeStyle::Warning,
                    );
                    self.phase = SpectrePhase::Speculative { step: 4 };
                } else if step == 4 {
                    mark(&mut self.gadget, 5, InstructionState::Retired);
                    mark(&mut self.gadget, 6, InstructionState::SpeculativelyExecuting);
                    self.registers.rbx = RegisterValue::Speculative(
                        probe_load_message(self.secret_byte),
                    );
                    self.registers.current_pc = 6;
                    self.cache[self.secret_byte as usize] = CacheSlotState::Cached;
                    self.push(
                        String::from_str(
                            "SPECULATION: mov rbx, [array2+rax] \u{2014} CACHE LINE INSTALLED as microarch side effect!",
                        ),
                        NarrativeStyle::Critical,
                    );
                    self.phase = SpectrePhase::Speculative { step: 5 };
                } else {
                    mark(&mut self.gadget, 6, InstructionState::Faulted);
                    mark(&mut self.gadget, 7, InstructionState::Faulted);
                    mark(&mut self.gadget, 8, InstructionState::Squashed);
                    mark(&mut self.gadget, 9, InstructionState::Squashed);
                    self.registers.rax = RegisterValue::Cleared;
                    self.registers.rbx = RegisterValue::Cleared;
                    self.registers.current_pc = 7;
                    self.push(
                        String::from_str(
                            "MISPREDICTION DETECTED: Pipeline flushed. Architectural state rolled back.",
                        ),
                        NarrativeStyle::Critical,
                    );
                    self.push(
                        String::from_str(
                            "Cache state is NOT rolled back \u{2014} microarchitectural side effect persists!",
                        ),
                        NarrativeStyle::Warning,
                    );
                    self.push(
                        String::from_str(
                            "Starting Reload+Timing phase to identify which cache slot was touched...",
                        ),
                        NarrativeStyle::Info,
                    );
                    self.phase = SpectrePhase::Reload { step: 0 };
                }
            },
            SpectrePhase::Reload { step } => {
                let end: usize = chunk_end_of(step);
                let secret: usize = self.secret_byte as usize;
                time_slots(
                    &mut self.reload_timings,
                    step,
                    end,
                    secret,
                    CACHE_HIT_CYCLES,
                    CACHE_MISS_CYCLES,
                );
                if step <= secret && secret < end {
                    self.cache[secret] = CacheSlotState::Hit;
                    self.push(hit_message(self.secret_byte), NarrativeStyle::Success);
                }
                if end >= PROBE_SLOTS {
                    self.secret_revealed = true;
                    self.push(recovered_message(self.secret_byte), NarrativeStyle::Success);
                    self.push(
                        String::from_str("Press SPACE to exit, R to restart, B to return to menu."),
                        NarrativeStyle::Info,
                    );
                    self.phase = SpectrePhase::Revealed;
                } else {
                    self.phase = SpectrePhase::Reload { step: end };
                }
            },
            SpectrePhase::Revealed => {
                self.quit = true;
            },
        }
    }
}


impl SpectreView {
    /// How many presses of the step key remain until the simulation asks to
    /// quit: one per training call, one per instruction of the speculative
    /// window, one per block of sixteen probe slots, one to quit.
    pub open spec fn rank(self) -> int {
        match self.phase {
            SpectrePhase::Setup => TOTAL_STEPS as int,
            SpectrePhase::Train { round } => (if round + 1 >= TRAIN_ROUNDS {
                1
            } else {
                TRAIN_ROUNDS - round
            }) + 23,
            SpectrePhase::Speculative { step } => (if step >= 5 {
                1
            } else {
                6 - step
            }) + 17,
            SpectrePhase::Reload { step } => chunks_left(step as int) + 1,
            SpectrePhase::Revealed => if self.quit {
                0
            } else {
                1
            },
        }
    }

    /// The attack is over and the simulation has asked to quit.
    pub open spec fn finished(self) -> bool {
        self.phase is Revealed && self.quit
    }

    /// What fast-forward leaves: steps until the phase changes, stopping early
    /// in the final phase or once the simulation asked to quit.
    pub open spec fn finish_phase(self, start: u8) -> SpectreView
        decreases self.rank(),
    {
        if self.phase is Revealed || self.quit {
            self
        } else {
            let t = self.next();
            if t.phase.kind() != start {
                t
            } else if 0 <= t.rank() < self.rank() {
                t.finish_phase(start)
            } else {
                t
            }
        }
    }

    /// The state after `n` presses of the step key.
    pub open spec fn run(self, n: nat) -> SpectreView
        decreases n,
    {
        if n == 0 {
            self
        } else {
            self.run((n - 1) as nat).next()
        }
    }

    /// What holds in every state that stepping reaches from a fresh simulation.
    pub open spec fn inv(self) -> bool {
        let secret: int = self.secret_byte as int;
        let cold = uniform_cache(CacheSlotState::Evicted);
        let untimed = probed_timings(secret, 0, CACHE_HIT_CYCLES, CACHE_MISS_CYCLES);
        &&& self.gadget.len() == 10
        &&& self.narrative.len() <= MAX_NARRATIVE
        &&& self.secret_revealed == (self.phase is Revealed)
        &&& (self.quit ==> self.phase is Revealed)
        &&& match self.phase {
            SpectrePhase::Setup => {
                &&& self.cache == cold
                &&& self.reload_timings == untimed
                &&& self.branch_predictor == BranchPredictorState::Untrained
                &&& self.train_round == 0
            },
            SpectrePhase::Train { round } => {
                &&& round < TRAIN_ROUNDS
                &&& self.cache == cold
                &&& self.reload_timings == untimed
                &&& self.branch_predictor == (if round == 0 {
                    BranchPredictorState::Untrained
                } else {
                    BranchPredictorState::Training
                })
                &&& self.train_round == round
            },
            SpectrePhase::Speculative { step } => {
                &&& step <= 5
                &&& self.cache == (if step == 5 {
                    probed_cache(secret, 0)
                } else {
                    cold
                })
                &&& self.reload_timings == untimed
                &&& self.branch_predictor == (if step == 0 {
                    BranchPredictorState::Trained
                } else {
                    BranchPredictorState::Mispredicting
                })
                &&& self.train_round == TRAIN_ROUNDS
            },
            SpectrePhase::Reload { step } => {
                &&& step < PROBE_SLOTS
                &&& self.cache == probed_cache(secret, step as int)
                &&& self.reload_timings == probed_timings(
                    secret,
                    step as int,
                    CACHE_HIT_CYCLES,
                    CACHE_MISS_CYCLES,
                )
                &&& self.branch_predictor == BranchPredictorState::Mispredicting
                &&& self.train_round == TRAIN_ROUNDS
            },
            SpectrePhase::Revealed => {
                &&& self.cache == probed_cache(secret, 256)
                &&& self.reload_timings == probed_timings(
                    secret,
                    256,
                    CACHE_HIT_CYCLES,
                    CACHE_MISS_CYCLES,
                )
                &&& self.branch_predictor == BranchPredictorState::Mispredicting
                &&& self.train_round == TRAIN_ROUNDS
            },
        }
    }
}

/// Every step but the last brings the simulation one step closer to its end:
/// the number of remaining steps falls by exactly one.
pub proof fn lemma_step_progress(s: SpectreView)
    requires
        !s.quit,
    ensures
        s.rank() >= 1,
        s.next().rank() == s.rank() - 1,
{
}

/// Once the simulation has asked to quit in its final phase, stepping changes nothing.
pub proof fn lemma_finished_is_fixed(s: SpectreView)
    requires
        s.finished(),
    ensures
        s.next() == s,
{
}

/// A fresh simulation meets the invariant and is `TOTAL_STEPS` steps from its end.
pub proof fn lemma_initial_invariant()
    ensures
        initial_view().inv(),
        initial_view().rank() == TOTAL_STEPS,
{
    assert(initial_view().reload_timings =~= probed_timings(
        SECRET_BYTE as int,
        0,
        CACHE_HIT_CYCLES,
        CACHE_MISS_CYCLES,
    ));
}

/// Stepping keeps the invariant.
pub proof fn lemma_step_keeps_invariant(s: SpectreView)
    requires
        s.inv(),
    ensures
        s.next().inv(),
{
    let secret: int = s.secret_byte as int;
    let t = s.next();
    match s.phase {
        SpectrePhase::Setup => {},
        SpectrePhase::Train { round } => {
            lemma_log_push_bounded(s.narrative, train_text(round as int, round as int % 4), NarrativeStyle::Info);
        },
        SpectrePhase::Speculative { step } => {
            if step == 4 {
                assert(s.cache.update(secret, CacheSlotState::Cached) =~= probed_cache(secret, 0));
            }
        },
        SpectrePhase::Reload { step } => {
            let end: int = chunk_end(step as int);
            let found = step <= secret < end;
            assert(time_range(s.reload_timings, step as int, end, secret, CACHE_HIT_CYCLES, CACHE_MISS_CYCLES)
                =~= probed_timings(secret, end, CACHE_HIT_CYCLES, CACHE_MISS_CYCLES));
            if found {
                assert(s.cache.update(secret, CacheSlotState::Hit) =~= probed_cache(secret, end));
                lemma_log_push_bounded(s.narrative, hit_text(s.secret_byte), NarrativeStyle::Success);
            } else {
                assert(s.cache =~= probed_cache(secret, end));
            }
            if end >= PROBE_SLOTS {
                assert(probed_cache(secret, end) =~= probed_cache(secret, 256));
                assert(probed_timings(secret, end, CACHE_HIT_CYCLES, CACHE_MISS_CYCLES)
                    =~= probed_timings(secret, 256, CACHE_HIT_CYCLES, CACHE_MISS_CYCLES));
            }
        },
        SpectrePhase::Revealed => {},
    }
}

/// At the end of the attack the timings single out the secret: exactly the
/// secret's slot was timed as a cache hit, every other slot as a miss, and the
/// secret is marked as recovered.
pub proof fn lemma_secret_recovered(s: SpectreView)
    requires
        s.inv(),
        s.phase is Revealed,
    ensures
        s.secret_revealed,
        forall|i: int|
            0 <= i < PROBE_SLOTS ==> (#[trigger] s.reload_timings[i] == Some(CACHE_HIT_CYCLES)
                <==> i == s.secret_byte as int),
        forall|i: int|
            0 <= i < PROBE_SLOTS ==> (s.reload_timings[i] == Some(CACHE_MISS_CYCLES) <==> i
                != s.secret_byte as int),
        forall|i: int|
            0 <= i < PROBE_SLOTS ==> (#[trigger] s.cache[i] == CacheSlotState::Hit <==> i
                == s.secret_byte as int),
        count_timed(s.reload_timings) == PROBE_SLOTS,
        count_timed_at(s.reload_timings, CACHE_HIT_CYCLES) == 1,
{
    lemma_count_probed(s.secret_byte as int, 256, CACHE_HIT_CYCLES, CACHE_MISS_CYCLES);
}

/// The out-of-bounds call comes only after the predictor has been trained by
/// all `TRAIN_ROUNDS` in-bounds calls: throughout the speculative window the
/// predictor is trained (and then mispredicting), and it is trained when the
/// window opens.
pub proof fn lemma_training_precedes_attack(s: SpectreView)
    requires
        s.inv(),
        s.phase is Speculative,
    ensures
        s.train_round == TRAIN_ROUNDS,
        s.branch_predictor == BranchPredictorState::Trained || s.branch_predictor
            == BranchPredictorState::Mispredicting,
        s.phase == (SpectrePhase::Speculative { step: 0 }) ==> s.branch_predictor
            == BranchPredictorState::Trained,
{
}

/// The misprediction rolls back the registers but not the cache: after the
/// pipeline flush the registers are clear and the secret's slot is still the
/// only cached one.
pub proof fn lemma_misprediction_keeps_cache(s: SpectreView)
    requires
        s.inv(),
        s.phase == (SpectrePhase::Speculative { step: 5 }),
    ensures
        s.next().rax == RegisterView::Cleared,
        s.next().rbx == RegisterView::Cleared,
        s.next().cache[s.secret_byte as int] == CacheSlotState::Cached,
        forall|i: int|
            0 <= i < PROBE_SLOTS && i != s.secret_byte as int ==> #[trigger] s.next().cache[i]
                == CacheSlotState::Evicted,
{
}

proof fn lemma_run_from_initial(n: nat)
    requires
        n <= TOTAL_STEPS,
    ensures
        initial_view().run(n).inv(),
        initial_view().run(n).rank() == TOTAL_STEPS - n,
    decreases n,
{
    lemma_initial_invariant();
    if n > 0 {
        lemma_run_from_initial((n - 1) as nat);
        let s = initial_view().run((n - 1) as nat);
        lemma_step_keeps_invariant(s);
        lemma_step_progress(s);
    }
}

/// Pressing the step key `TOTAL_STEPS` times on a fresh simulation runs the
/// whole attack: the secret is recovered and the simulation asks to quit.
pub proof fn lemma_attack_completes()
    ensures
        initial_view().run(TOTAL_STEPS as nat).finished(),
        initial_view().run(TOTAL_STEPS as nat).secret_revealed,
        initial_view().run(TOTAL_STEPS as nat).inv(),
{
    lemma_run_from_initial(TOTAL_STEPS as nat);
}

impl SpectreSim {
    /// Steps until the phase changes: stops after the step that enters another
    /// phase, or at once in the final phase or when the simulation asked to quit.
    pub fn step_phase(&mut self)
        requires
            old(self).wf(),
        ensures
            final(self).wf(),
            final(self)@ == old(self)@.finish_phase(old(self).phase.kind()),
    {
        let start: u8 = self.phase.kind_of();
        loop
            invariant_except_break
                self.phase.kind() == start,
                self@.finish_phase(start) == old(self)@.finish_phase(start),
            invariant
                self.wf(),
            ensures
                self.wf(),
                self@ == old(self)@.finish_phase(start),
            decreases self@.rank(),
        {
            if matches!(self.phase, SpectrePhase::Revealed) || self.quit {
                break;
            }
            proof {
                lemma_step_progress(self@);
            }
            self.step();
            if self.phase.kind_of() != start {
                break;
            }
        }
    }

    /// The simulation's title.
    pub fn name(&self) -> (s: &'static str)
        ensures
            s@ == "Spectre Variant 1"@,
    {
        "Spectre Variant 1"
    }

    /// The vulnerability that the simulation shows.
    pub fn cve(&self) -> (s: &'static str)
        ensures
            s@ == "CVE-2017-5753"@,
    {
        "CVE-2017-5753"
    }

    /// A one-line summary of the attack.
    pub fn description(&self) -> (s: &'static str)
        ensures
            s@ == "Exploits speculative execution past a mispredicted branch to leak memory across security boundaries"@,
    {
        "Exploits speculative execution past a mispredicted branch to leak memory across security boundaries"
    }

    /// The current phase as the header line shows it.
    pub fn phase_label(&self) -> (s: String)
        ensures
            s@ == phase_text(self.phase),
    {
        self.phase.label()
    }

    /// One press of the step key: one step of the attack.
    pub fn advance(&mut self)
        requires
            old(self).wf(),
        ensures
            final(self).wf(),
            final(self)@ == old(self)@.next(),
    {
        self.step();
    }

    /// The fast-forward key: runs to the end of the current phase.
    pub fn fast_forward(&mut self)
        requires
            old(self).wf(),
        ensures
            final(self).wf(),
            final(self)@ == old(self)@.finish_phase(old(self).phase.kind()),
    {
        self.step_phase();
    }

    /// The restart key: back to a fresh simulation.
    pub fn reset(&mut self)
        ensures
            final(self)@ == initial_view(),
            final(self).wf(),
    {
        *self = SpectreSim::new();
    }

    /// Whether the simulation has asked to quit.
    pub fn wants_quit(&self) -> (b: bool)
        ensures
            b == self.quit,
    {
        self.quit
    }
}

/// Fast-forward ends in another phase: the state it leaves is in a phase other
/// than the one it started in, unless it stopped in the final phase or because
/// the simulation asked to quit.
pub proof fn lemma_fast_forward_leaves_phase(s: SpectreView)
    requires
    ensures
        s.finish_phase(s.phase.kind()).phase.kind() != s.phase.kind()
            || s.finish_phase(s.phase.kind()).phase is Revealed
            || s.finish_phase(s.phase.kind()).quit,
{
    lemma_finish_phase_leaves(s, s.phase.kind());
}

proof fn lemma_finish_phase_leaves(s: SpectreView, start: u8)
    requires
        s.phase.kind() == start,
    ensures
        s.finish_phase(start).phase.kind() != start || s.finish_phase(start).phase is Revealed
            || s.finish_phase(start).quit,
    decreases s.rank(),
{
    if !(s.phase is Revealed || s.quit) {
        lemma_step_progress(s);
        let t = s.next();
        if t.phase.kind() == start {
            lemma_finish_phase_leaves(t, start);
        }
    }
}

/// Stepping only moves instructions through the pipeline: the listing keeps
/// its instructions, addresses and texts.
pub proof fn lemma_step_keeps_listing(s: SpectreView)
    requires
        s.gadget.len() >= 10,
    ensures
        same_listing(s.next().gadget, s.gadget),
{
}

impl SpectreView {
    /// How many presses of the step key the current phase still takes.
    pub open spec fn steps_left_in_phase(self) -> int {
        match self.phase {
            SpectrePhase::Setup => 1,
            SpectrePhase::Train { round } => if round + 1 >= TRAIN_ROUNDS {
                1
            } else {
                TRAIN_ROUNDS - round
            },
            SpectrePhase::Speculative { step } => if step >= 5 {
                1
            } else {
                6 - step
            },
            SpectrePhase::Reload { step } => chunks_left(step as int),
            SpectrePhase::Revealed => 0,
        }
    }
}

/// Stepping `n` times after one step is stepping `n + 1` times.
pub proof fn lemma_run_after_step(s: SpectreView, n: nat)
    ensures
        s.next().run(n) == s.run(n + 1),
    decreases n,
{
    assert(s.run(0) == s);
    if n > 0 {
        lemma_run_after_step(s, (n - 1) as nat);
    }
}

proof fn lemma_phase_step(s: SpectreView)
    requires
        !s.quit,
        !(s.phase is Revealed),
    ensures
        1 <= s.steps_left_in_phase() <= SLOTS_PER_STEP,
        (s.next().phase.kind() != s.phase.kind()) == (s.steps_left_in_phase() == 1),
        s.next().phase.kind() == s.phase.kind() ==> {
            &&& s.next().steps_left_in_phase() == s.steps_left_in_phase() - 1
            &&& !s.next().quit
            &&& !(s.next().phase is Revealed)
        },
        !s.next().quit,
{
}

proof fn lemma_finish_in_steps(s: SpectreView, start: u8)
    requires
        !s.quit,
        !(s.phase is Revealed),
        s.phase.kind() == start,
    ensures
        s.finish_phase(start) == s.run(s.steps_left_in_phase() as nat),
        !s.finish_phase(start).quit,
        s.finish_phase(start).phase.kind() != start,
    decreases s.steps_left_in_phase(),
{
    lemma_step_progress(s);
    lemma_phase_step(s);
    let t = s.next();
    assert(s.run(0) == s);
    assert(s.run(1) == t);
    if t.phase.kind() == start {
        lemma_step_progress(t);
        lemma_finish_in_steps(t, start);
        lemma_run_after_step(s, t.steps_left_in_phase() as nat);
    }
}

/// Fast-forward finishes the current phase within sixteen steps: unless the
/// simulation is in its final phase or has asked to quit, it leaves the state
/// that pressing the step key `steps_left_in_phase` times gives, a number
/// between one and sixteen; that state is in another phase and has not asked
/// to quit. In the final phase, or once the simulation asked to quit, it
/// changes nothing.
pub proof fn lemma_fast_forward_bounded(s: SpectreView)
    requires
    ensures
        s.phase is Revealed || s.quit ==> s.finish_phase(s.phase.kind()) == s,
        !(s.phase is Revealed || s.quit) ==> {
            &&& 1 <= s.steps_left_in_phase() <= SLOTS_PER_STEP
            &&& s.finish_phase(s.phase.kind()) == s.run(s.steps_left_in_phase() as nat)
            &&& s.finish_phase(s.phase.kind()).phase.kind() != s.phase.kind()
            &&& !s.finish_phase(s.phase.kind()).quit
        },
{
    if !(s.phase is Revealed || s.quit) {
        lemma_phase_step(s);
        lemma_finish_in_steps(s, s.phase.kind());
    }
}

/// Each training call passes the in-bounds index `round % 4` in `rdi`, the
/// same index that the round's log line reports: rounds cycle through the
/// indices 0, 1, 2, 3, and every one of them is inside the sixteen-byte
/// `array1`, unlike the attack's index 256. The call retires the bounds check
/// and the branch, and counts the round.
pub proof fn lemma_training_call(s: SpectreView, round: usize)
    requires
        s.phase == (SpectrePhase::Train { round }),
        round < usize::MAX,
        s.gadget.len() >= 10,
    ensures
        s.next().rdi == RegisterView::Known((round % 4) as u64),
        (round % 4) < 16 && SECRET_OFFSET >= 16,
        s.next().train_round == round + 1,
        s.next().gadget[2].state == InstructionState::Retired,
        s.next().gadget[3].state == InstructionState::Retired,
        round + 1 < TRAIN_ROUNDS ==> s.next().narrative.last() == (
            train_text(round as int, (round % 4) as int),
            NarrativeStyle::Info,
        ),
        round + 1 >= TRAIN_ROUNDS ==> s.next().narrative[s.next().narrative.len() - 2] == (
            train_text(round as int, (round % 4) as int),
            NarrativeStyle::Info,
        ),
        s.next().rax == s.rax && s.next().rbx == s.rbx,
{
}

/// Two training calls four rounds apart use the same index, and consecutive
/// rounds use consecutive indices modulo four.
pub proof fn lemma_training_indices_cycle(a: SpectreView, b: SpectreView, r: usize)
    requires
        a.phase == (SpectrePhase::Train { round: r }),
        r + 1 < usize::MAX,
        b.phase == (SpectrePhase::Train { round: (r + 1) as usize }),
        a.gadget.len() >= 10,
        b.gadget.len() >= 10,
    ensures
        a.next().rdi matches RegisterView::Known(x) && b.next().rdi matches RegisterView::Known(y)
            && y == (x + 1) % 4,
{
}

/// Each step of the speculative window writes the destination register of the
/// instruction it executes and no other: the out-of-bounds call sets `rdi` to
/// 256; the load fills `rax` with the secret byte; the multiply keeps its
/// result in `rax`; the probe load fills `rbx`; the flush clears `rax` and
/// `rbx`. The program counter follows the listing, each step marking the
/// instruction it moves to as speculatively executing and retiring the one
/// before; the flush faults the probe load and the flush line and squashes the
/// two rollback instructions.
pub proof fn lemma_speculative_steps(s: SpectreView, k: usize)
    requires
        s.phase == (SpectrePhase::Speculative { step: k }),
        s.gadget.len() == 10,
    ensures
        k == 0 ==> s.next().rdi == RegisterView::Known(256) && s.next().rax == s.rax
            && s.next().rbx == s.rbx,
        k == 1 ==> s.next().rdi == s.rdi && s.next().rax == s.rax && s.next().rbx == s.rbx,
        k == 2 ==> s.next().rdi == s.rdi && s.next().rax == RegisterView::Speculative(
            loaded_text(s.secret_byte),
        ) && s.next().rbx == s.rbx,
        k == 3 ==> s.next().rdi == s.rdi && s.next().rax == RegisterView::Speculative(
            scaled_text(s.secret_byte),
        ) && s.next().rbx == s.rbx,
        k == 4 ==> s.next().rdi == s.rdi && s.next().rax == s.rax && s.next().rbx
            == RegisterView::Speculative(probe_load_text(s.secret_byte)),
        k >= 5 ==> s.next().rdi == s.rdi && s.next().rax == RegisterView::Cleared && s.next().rbx
            == RegisterView::Cleared,
        k <= 4 ==> {
            &&& s.next().current_pc == k + 2
            &&& s.next().gadget[k + 2].state == InstructionState::SpeculativelyExecuting
            &&& (k > 0 ==> s.next().gadget[k + 1].state == InstructionState::Retired)
            &&& forall|i: int|
                0 <= i < 10 && i != k + 2 && (k == 0 || i != k + 1) ==> #[trigger] s.next().gadget[i].state
                    == s.gadget[i].state
        },
        k >= 5 ==> {
            &&& s.next().current_pc == 7
            &&& s.next().gadget[6].state == InstructionState::Faulted
            &&& s.next().gadget[7].state == InstructionState::Faulted
            &&& s.next().gadget[8].state == InstructionState::Squashed
            &&& s.next().gadget[9].state == InstructionState::Squashed
            &&& forall|i: int| 0 <= i < 6 ==> #[trigger] s.next().gadget[i].state == s.gadget[i].state
        },
{
}

/// The setup step retires the function prologue, the first two
/// instructions of the listing, and changes no other instruction, the cache
/// or the timings.
pub proof fn lemma_setup_retires_prologue(s: SpectreView)
    requires
        s.phase == SpectrePhase::Setup,
        s.gadget.len() == 10,
    ensures
        s.next().gadget[0].state == InstructionState::Retired,
        s.next().gadget[1].state == InstructionState::Retired,
        forall|i: int| 2 <= i < 10 ==> #[trigger] s.next().gadget[i].state == s.gadget[i].state,
        s.next().current_pc == 2,
        s.next().cache == s.cache,
        s.next().reload_timings == s.reload_timings,
{
}

} // verus!
