//! The Spectre variant 2 (CVE-2017-5715) simulation with the RETPOLINE
//! mitigation: the attacker poisons the branch target buffer, but the victim's
//! indirect call goes through a return trampoline, so speculation follows the
//! return stack buffer into a harmless pause/lfence loop and no probe slot is
//! ever brought into the cache.

use std::collections::VecDeque;
use vstd::prelude::*;

use crate::sim::{
    chunk_end, chunk_end_of, same_listing, chunks_left, count_timed, count_timed_at, lemma_count_misses, gadget_view, lemma_log_push_bounded, log_push, log_view,
    mark, probed_timings, push_narrative, set_state, time_range, time_slots, uniform_cache,
    upcoming, CacheSlotState, GadgetInstruction, GadgetView, InstructionState, NarrativeEntry,
    NarrativeStyle, MAX_NARRATIVE, PROBE_SLOTS, SLOTS_PER_STEP,
};
use crate::text::{address_text, decimal_text, push_address, push_decimal};

verus! {

/// The address of the victim's dispatch code.
pub const DISPATCH_TABLE_BASE: u64 = 0x0000_7FFF_0004_0000;

/// The attacker's gadget, which the attacker trains the branch target buffer to predict.
pub const BTB_POISON_ADDR: u64 = 0x0000_DEAD_BEEF_0000;

/// The address of the retpoline thunk.
pub const THUNK_BASE: u64 = 0x0000_7FFF_1000_0000;

/// The legitimate target of the victim's indirect call.
pub const REAL_TARGET_ADDR: u64 = 0x0000_7FFF_2000_0000;

/// The pause/lfence loop that traps speculation.
pub const CAPTURE_LOOP_ADDR: u64 = THUNK_BASE + 0x0005;

/// The thunk's subroutine that patches the return address.
pub const SETUP_RSP_ADDR: u64 = THUNK_BASE + 0x000C;

/// How many indirect jumps the attacker uses to poison the branch target buffer.
pub const BTB_POISON_ROUNDS: usize = 4;

/// The access time of a probe slot that is not in the cache.
pub const CACHE_MISS_CYCLES: u32 = 200;

/// The number of steps from a fresh simulation until it asks to quit.
pub const TOTAL_STEPS: usize = 27;

/// The phases of the attempted attack; `step` counts progress inside a phase.
#[derive(Clone, Copy, Debug, PartialEq, Eq, Structural)]
pub enum RetpolinePhase {
    Setup,
    BTBPoisoning { step: usize },
    ThunkEntry,
    SafeSpeculation { step: usize },
    ArchResolution,
    TimingProbe { step: usize },
    Blocked,
}

/// The phase as the header line shows it.
pub open spec fn phase_text(p: RetpolinePhase) -> Seq<char> {
    match p {
        RetpolinePhase::Setup => "SETUP"@,
        RetpolinePhase::BTBPoisoning { step } => "BTB POISONING  ("@ + decimal_text(step as nat)
            + "/"@ + decimal_text(BTB_POISON_ROUNDS as nat) + " rounds)"@,
        RetpolinePhase::ThunkEntry => "THUNK ENTRY \u{2014} call setup_rsp pushes capture_loop to RSB"@,
        RetpolinePhase::SafeSpeculation { step } => "SAFE SPECULATION  (step "@ + decimal_text(
            (step + 1) as nat,
        ) + "/3) \u{2014} CPU trapped in pause/lfence loop"@,
        RetpolinePhase::ArchResolution => "ARCHITECTURAL RESOLUTION \u{2014} ret \u{2192} real target"@,
        RetpolinePhase::TimingProbe { step } => "TIMING PROBE  ("@ + decimal_text(step as nat)
            + "/256)"@,
        RetpolinePhase::Blocked => "ATTACK BLOCKED \u{2014} RETPOLINE held the line"@,
    }
}

impl RetpolinePhase {
    /// Which phase this is, without its progress counter.
    pub open spec fn kind(self) -> u8 {
        match self {
            RetpolinePhase::Setup => 0,
            RetpolinePhase::BTBPoisoning { .. } => 1,
            RetpolinePhase::ThunkEntry => 2,
            RetpolinePhase::SafeSpeculation { .. } => 3,
            RetpolinePhase::ArchResolution => 4,
            RetpolinePhase::TimingProbe { .. } => 5,
            RetpolinePhase::Blocked => 6,
        }
    }

    fn kind_of(&self) -> (k: u8)
        ensures
            k == self.kind(),
    {
        match self {
            RetpolinePhase::Setup => 0,
            RetpolinePhase::BTBPoisoning { .. } => 1,
            RetpolinePhase::ThunkEntry => 2,
            RetpolinePhase::SafeSpeculation { .. } => 3,
            RetpolinePhase::ArchResolution => 4,
            RetpolinePhase::TimingProbe { .. } => 5,
            RetpolinePhase::Blocked => 6,
        }
    }

    /// The header line can show the phase: its one-based step number fits.
    pub open spec fn printable(self) -> bool {
        self matches RetpolinePhase::SafeSpeculation { step } ==> step < usize::MAX
    }

    /// The phase as the header line shows it.
    pub fn label(&self) -> (s: String)
        requires
            self.printable(),
        ensures
            s@ == phase_text(*self),
    {
        match self {
            RetpolinePhase::Setup => String::from_str("SETUP"),
            RetpolinePhase::BTBPoisoning { step } => {
                let mut s = String::from_str("BTB POISONING  (");
                push_decimal(&mut s, *step as u64);
                s.append("/");
                push_decimal(&mut s, BTB_POISON_ROUNDS as u64);
                s.append(" rounds)");
                s
            },
            RetpolinePhase::ThunkEntry => String::from_str(
                "THUNK ENTRY \u{2014} call setup_rsp pushes capture_loop to RSB",
            ),
            RetpolinePhase::SafeSpeculation { step } => {
                let mut s = String::from_str("SAFE SPECULATION  (step ");
                push_decimal(&mut s, (*step + 1) as u64);
                s.append("/3) \u{2014} CPU trapped in pause/lfence loop");
                s
            },
            RetpolinePhase::ArchResolution => String::from_str(
                "ARCHITECTURAL RESOLUTION \u{2014} ret \u{2192} real target",
            ),
            RetpolinePhase::TimingProbe { step } => {
                let mut s = String::from_str("TIMING PROBE  (");
                push_decimal(&mut s, *step as u64);
                s.append("/256)");
                s
            },
            RetpolinePhase::Blocked => String::from_str("ATTACK BLOCKED \u{2014} RETPOLINE held the line"),
        }
    }
}

/// The whole state of a Spectre + RETPOLINE simulation.
pub struct SpectreRetpolineSim {
    pub phase: RetpolinePhase,
    pub cache: [CacheSlotState; 256],
    pub gadget: Vec<GadgetInstruction>,
    pub reload_timings: [Option<u32>; 256],
    pub narrative: VecDeque<NarrativeEntry>,
    pub btb_poisoned_addr: u64,
    pub rsb_top: u64,
    pub speculation_blocked: bool,
    pub current_pc: usize,
    pub poison_round: usize,
    pub quit: bool,
}

/// The state of a Spectre + RETPOLINE simulation as mathematical values.
#[verifier::ext_equal]
pub struct RetpolineView {
    pub phase: RetpolinePhase,
    pub cache: Seq<CacheSlotState>,
    pub gadget: Seq<GadgetView>,
    pub reload_timings: Seq<Option<u32>>,
    pub narrative: Seq<(Seq<char>, NarrativeStyle)>,
    pub btb_poisoned_addr: u64,
    pub rsb_top: u64,
    pub speculation_blocked: bool,
    pub current_pc: usize,
    pub poison_round: usize,
    pub quit: bool,
}

impl View for SpectreRetpolineSim {
    type V = RetpolineView;

    open spec fn view(&self) -> RetpolineView {
        RetpolineView {
            phase: self.phase,
            cache: self.cache@,
            gadget: gadget_view(self.gadget),
            reload_timings: self.reload_timings@,
            narrative: log_view(self.narrative),
            btb_poisoned_addr: self.btb_poisoned_addr,
            rsb_top: self.rsb_top,
            speculation_blocked: self.speculation_blocked,
            current_pc: self.current_pc,
            poison_round: self.poison_round,
            quit: self.quit,
        }
    }
}

/// The gadget listing of a fresh simulation.
pub open spec fn initial_gadget() -> Seq<GadgetView> {
    seq![
        upcoming(DISPATCH_TABLE_BASE, "mov", "rdi, [dispatch_table+rbx*8]", "load fn ptr (user-controlled index)"),
        upcoming((DISPATCH_TABLE_BASE + 0x08) as u64, "call", "retpoline_thunk_rdi", "RETPOLINE: safe indirect call \u{2014} not 'jmp [rdi]'!"),
        upcoming((DISPATCH_TABLE_BASE + 0x10) as u64, ";;", "--- RETPOLINE THUNK (retpoline_thunk_rdi) ---", ""),
        upcoming(THUNK_BASE, "call", "setup_rsp", "push capture_loop addr onto RSB"),
        upcoming(CAPTURE_LOOP_ADDR, "pause", "", "stall pipeline; prevents speculative forward progress"),
        upcoming((CAPTURE_LOOP_ADDR + 0x02) as u64, "lfence", "", "serializing fence \u{2014} no speculative loads past here"),
        upcoming((CAPTURE_LOOP_ADDR + 0x05) as u64, "jmp", "capture_loop", "RSB predicts here \u{2014} speculation safely trapped"),
        upcoming((THUNK_BASE + 0x000B) as u64, ";;", "--- setup_rsp subroutine ---", ""),
        upcoming(SETUP_RSP_ADDR, "mov", "[rsp], rdi", "overwrite ret addr with real dispatch target"),
        upcoming((SETUP_RSP_ADDR + 0x04) as u64, "ret", "", "RSB \u{2192} capture_loop (speculative); arch \u{2192} real fn"),
        upcoming((THUNK_BASE + 0x0011) as u64, ";;", "--- result ---", ""),
        upcoming(REAL_TARGET_ADDR, "nop", "", "real_target: legitimate fn \u{2014} only executed architecturally"),
    ]
}

/// The event log of a fresh simulation.
pub open spec fn initial_narrative() -> Seq<(Seq<char>, NarrativeStyle)> {
    seq![
        ("Spectre + RETPOLINE simulator initialized."@, NarrativeStyle::Info),
        ("Victim dispatch table at "@ + address_text(DISPATCH_TABLE_BASE) + ". Attacker controls the index into this table."@, NarrativeStyle::Info),
        ("Attacker goal: poison the BTB (Branch Target Buffer) so the CPU speculatively jumps to a secret-reading gadget during an indirect dispatch."@, NarrativeStyle::Warning),
        ("RETPOLINE replaces 'jmp [rdi]' with a return trampoline: RSB (Return Stack Buffer) is loaded with capture_loop \u{2014} a safe pause/lfence spin \u{2014} so the CPU can never speculate to the attacker's BTB target."@, NarrativeStyle::Warning),
        ("Press SPACE to step  |  F = fast-forward phase  |  R = restart  |  B = back  |  Q = quit"@, NarrativeStyle::Info),
    ]
}

/// A fresh simulation: every probe slot cold, nothing timed, the return stack
/// buffer empty, the branch target buffer pointing at the attacker's gadget.
pub open spec fn initial_view() -> RetpolineView {
    RetpolineView {
        phase: RetpolinePhase::Setup,
        cache: uniform_cache(CacheSlotState::Evicted),
        gadget: initial_gadget(),
        reload_timings: Seq::new(256, |i: int| None),
        narrative: initial_narrative(),
        btb_poisoned_addr: BTB_POISON_ADDR,
        rsb_top: 0,
        speculation_blocked: false,
        current_pc: 0,
        poison_round: 0,
        quit: false,
    }
}

/// The log line of one poisoning jump.
pub open spec fn poison_text(step: int) -> Seq<char> {
    "BTB POISON "@ + decimal_text((step + 1) as nat) + "/"@ + decimal_text(BTB_POISON_ROUNDS as nat)
        + ": attacker executes jmp [rax] with rax="@ + address_text(BTB_POISON_ADDR)
        + ". BTB records: indirect dispatch \u{2192} "@ + address_text(BTB_POISON_ADDR) + "."@
}

/// The timings after the slots in `lo..hi` have been measured: all misses.
pub open spec fn miss_range(timings: Seq<Option<u32>>, lo: int, hi: int) -> Seq<Option<u32>> {
    time_range(timings, lo, hi, PROBE_SLOTS as int, CACHE_MISS_CYCLES, CACHE_MISS_CYCLES)
}

impl RetpolineView {
    /// One jump of the attacker's poisoning loop.
    pub open spec fn poison_step(self, step: int) -> RetpolineView {
        let log = log_push(self.narrative, poison_text(step), NarrativeStyle::Critical);
        if step + 1 >= BTB_POISON_ROUNDS {
            RetpolineView {
                poison_round: (step + 1) as usize,
                narrative: log_push(
                    log_push(
                        log,
                        "BTB fully poisoned! CPU branch predictor believes the victim's next indirect dispatch will jump to attacker's gadget."@,
                        NarrativeStyle::Critical,
                    ),
                    "But victim uses RETPOLINE \u{2014} no 'jmp [rdi]' instruction exists. The RSB will override the BTB for 'ret' speculation."@,
                    NarrativeStyle::Warning,
                ),
                phase: RetpolinePhase::ThunkEntry,
                ..self
            }
        } else {
            RetpolineView {
                poison_round: (step + 1) as usize,
                narrative: log,
                phase: RetpolinePhase::BTBPoisoning { step: (step + 1) as usize },
                ..self
            }
        }
    }

    /// One step of the speculation trapped in the capture loop.
    pub open spec fn safe_step(self, step: int) -> RetpolineView {
        if step == 0 {
            RetpolineView {
                gadget: set_state(
                    set_state(self.gadget, 3, InstructionState::Retired),
                    4,
                    InstructionState::SpeculativelyExecuting,
                ),
                current_pc: 4,
                speculation_blocked: true,
                narrative: log_push(
                    log_push(
                        self.narrative,
                        "SPECULATION: CPU speculatively fetches capture_loop (RSB-predicted). Executes 'pause' \u{2014} pipeline stall, halts speculative progress."@,
                        NarrativeStyle::Warning,
                    ),
                    "Attacker's gadget at "@ + address_text(BTB_POISON_ADDR)
                        + " is NOT reached. RSB overrides BTB for 'ret' speculation."@,
                    NarrativeStyle::Info,
                ),
                phase: RetpolinePhase::SafeSpeculation { step: 1 },
                ..self
            }
        } else if step == 1 {
            RetpolineView {
                gadget: set_state(
                    set_state(self.gadget, 4, InstructionState::Retired),
                    5,
                    InstructionState::SpeculativelyExecuting,
                ),
                current_pc: 5,
                narrative: log_push(
                    log_push(
                        self.narrative,
                        "SPECULATION: 'lfence' \u{2014} serializing instruction. No loads or stores can speculatively pass this point."@,
                        NarrativeStyle::Warning,
                    ),
                    "No secret data can be speculatively read. Cache remains completely cold."@,
                    NarrativeStyle::Info,
                ),
                phase: RetpolinePhase::SafeSpeculation { step: 2 },
                ..self
            }
        } else {
            RetpolineView {
                gadget: set_state(
                    set_state(self.gadget, 5, InstructionState::Retired),
                    6,
                    InstructionState::SpeculativelyExecuting,
                ),
                current_pc: 6,
                narrative: log_push(
                    self.narrative,
                    "SPECULATION: 'jmp capture_loop' \u{2014} CPU loops back speculatively. Trapped in pause/lfence/jmp until 'ret' resolves architecturally."@,
                    NarrativeStyle::Warning,
                ),
                phase: RetpolinePhase::ArchResolution,
                ..self
            }
        }
    }

    /// One step of the timing probe: times the next block of probe slots.
    pub open spec fn probe_step(self, step: int) -> RetpolineView {
        let end: int = chunk_end(step);
        let timings = miss_range(self.reload_timings, step, end);
        if end >= PROBE_SLOTS {
            RetpolineView {
                reload_timings: timings,
                narrative: log_push(
                    log_push(
                        log_push(
                            self.narrative,
                            "Timing probe complete: 256/256 slots \u{2014} ALL CACHE MISS. No speculative access occurred."@,
                            NarrativeStyle::Success,
                        ),
                        "RETPOLINE successfully blocked the Branch Target Injection attack. Zero information leaked via cache timing."@,
                        NarrativeStyle::Success,
                    ),
                    "Press SPACE to exit, R to restart, B to return to menu."@,
                    NarrativeStyle::Info,
                ),
                phase: RetpolinePhase::Blocked,
                ..self
            }
        } else {
            RetpolineView {
                reload_timings: timings,
                phase: RetpolinePhase::TimingProbe { step: end as usize },
                ..self
            }
        }
    }

    /// The state after one press of the step key.
    pub open spec fn next(self) -> RetpolineView {
        match self.phase {
            RetpolinePhase::Setup => RetpolineView {
                gadget: set_state(
                    set_state(self.gadget, 0, InstructionState::Retired),
                    1,
                    InstructionState::Retired,
                ),
                narrative: log_push(
                    log_push(
                        log_push(
                            self.narrative,
                            "Victim code runs: loads fn ptr from dispatch table, calls via RETPOLINE thunk instead of a raw 'jmp [rdi]'."@,
                            NarrativeStyle::Info,
                        ),
                        "Attacker's malicious gadget at "@ + address_text(BTB_POISON_ADDR)
                            + ". Will attempt to inject this address into the CPU's BTB."@,
                        NarrativeStyle::Critical,
                    ),
                    "Starting BTB poisoning phase: attacker repeatedly executes an indirect jump to the malicious gadget."@,
                    NarrativeStyle::Warning,
                ),
                phase: RetpolinePhase::BTBPoisoning { step: 0 },
                ..self
            },
            RetpolinePhase::BTBPoisoning { step } => self.poison_step(step as int),
            RetpolinePhase::ThunkEntry => RetpolineView {
                gadget: set_state(self.gadget, 3, InstructionState::SpeculativelyExecuting),
                current_pc: 3,
                rsb_top: CAPTURE_LOOP_ADDR,
                narrative: log_push(
                    log_push(
                        self.narrative,
                        "Victim calls retpoline_thunk_rdi. 'call setup_rsp' executes \u{2014} pushes "@
                            + address_text(CAPTURE_LOOP_ADDR) + " (capture_loop) onto the RSB."@,
                        NarrativeStyle::Info,
                    ),
                    "BTB says: jump to "@ + address_text(BTB_POISON_ADDR)
                        + ". But for a 'ret', the RSB takes priority over the BTB \u{2014} CPU must speculate to capture_loop!"@,
                    NarrativeStyle::Warning,
                ),
                phase: RetpolinePhase::SafeSpeculation { step: 0 },
                ..self
            },
            RetpolinePhase::SafeSpeculation { step } => self.safe_step(step as int),
            RetpolinePhase::ArchResolution => RetpolineView {
                gadget: set_state(
                    set_state(
                        set_state(
                            set_state(self.gadget, 6, InstructionState::Squashed),
                            8,
                            InstructionState::Retired,
                        ),
                        9,
                        InstructionState::Retired,
                    ),
                    11,
                    InstructionState::Retired,
                ),
                current_pc: 11,
                narrative: log_push(
                    log_push(
                        log_push(
                            self.narrative,
                            "ARCHITECTURAL: setup_rsp runs \u{2014} patches [rsp] with the real target address. 'ret' resolves architecturally to real_target."@,
                            NarrativeStyle::Info,
                        ),
                        "Speculative capture_loop path is squashed. No secret was ever read speculatively. Cache is still completely clean."@,
                        NarrativeStyle::Info,
                    ),
                    "Starting Flush+Reload timing probe to confirm no cache side-channel occurred..."@,
                    NarrativeStyle::Info,
                ),
                phase: RetpolinePhase::TimingProbe { step: 0 },
                ..self
            },
            RetpolinePhase::TimingProbe { step } => self.probe_step(step as int),
            RetpolinePhase::Blocked => RetpolineView { quit: true, ..self },
        }
    }
}

impl SpectreRetpolineSim {
    /// What a step needs: the whole listing, and a phase counter that can
    /// advance without overflow.
    pub open spec fn wf(&self) -> bool {
        &&& self.gadget@.len() >= 12
        &&& match self.phase {
            RetpolinePhase::BTBPoisoning { step } => step + 1 <= usize::MAX,
            RetpolinePhase::TimingProbe { step } => step + SLOTS_PER_STEP <= usize::MAX,
            _ => true,
        }
    }
}

/// The gadget listing: the victim's dispatch, the retpoline thunk with its
/// capture loop and return-address patch, and the real target.
fn make_gadget() -> (g: Vec<GadgetInstruction>)
    ensures
        gadget_view(g) == initial_gadget(),
{
    let g = vec![
        GadgetInstruction {
            address: DISPATCH_TABLE_BASE,
            mnemonic: "mov",
            operands: "rdi, [dispatch_table+rbx*8]",
            comment: "load fn ptr (user-controlled index)",
            state: InstructionState::Upcoming,
        },
        GadgetInstruction {
            address: DISPATCH_TABLE_BASE + 0x08,
            mnemonic: "call",
            operands: "retpoline_thunk_rdi",
            comment: "RETPOLINE: safe indirect call \u{2014} not 'jmp [rdi]'!",
            state: InstructionState::Upcoming,
        },
        GadgetInstruction {
            address: DISPATCH_TABLE_BASE + 0x10,
            mnemonic: ";;",
            operands: "--- RETPOLINE THUNK (retpoline_thunk_rdi) ---",
            comment: "",
            state: InstructionState::Upcoming,
        },
        GadgetInstruction {
            address: THUNK_BASE,
            mnemonic: "call",
            operands: "setup_rsp",
            comment: "push capture_loop addr onto RSB",
            state: InstructionState::Upcoming,
        },
        GadgetInstruction {
            address: CAPTURE_LOOP_ADDR,
            mnemonic: "pause",
            operands: "",
            comment: "stall pipeline; prevents speculative forward progress",
            state: InstructionState::Upcoming,
        },
        GadgetInstruction {
            address: CAPTURE_LOOP_ADDR + 0x02,
            mnemonic: "lfence",
            operands: "",
            comment: "serializing fence \u{2014} no speculative loads past here",
            state: InstructionState::Upcoming,
        },
        GadgetInstruction {
            address: CAPTURE_LOOP_ADDR + 0x05,
            mnemonic: "jmp",
            operands: "capture_loop",
            comment: "RSB predicts here \u{2014} speculation safely trapped",
            state: InstructionState::Upcoming,
        },
        GadgetInstruction {
            address: THUNK_BASE + 0x000B,
            mnemonic: ";;",
            operands: "--- setup_rsp subroutine ---",
            comment: "",
            state: InstructionState::Upcoming,
        },
        GadgetInstruction {
            address: SETUP_RSP_ADDR,
            mnemonic: "mov",
            operands: "[rsp], rdi",
            comment: "overwrite ret addr with real dispatch target",
            state: InstructionState::Upcoming,
        },
        GadgetInstruction {
            address: SETUP_RSP_ADDR + 0x04,
            mnemonic: "ret",
            operands: "",
            comment: "RSB \u{2192} capture_loop (speculative); arch \u{2192} real fn",
            state: InstructionState::Upcoming,
        },
        GadgetInstruction {
            address: THUNK_BASE + 0x0011,
            mnemonic: ";;",
            operands: "--- result ---",
            comment: "",
            state: InstructionState::Upcoming,
        },
        GadgetInstruction {
            address: REAL_TARGET_ADDR,
            mnemonic: "nop",
            operands: "",
            comment: "real_target: legitimate fn \u{2014} only executed architecturally",
            state: InstructionState::Upcoming,
        },
    ];
    assert(gadget_view(g) =~= initial_gadget());
    g
}

fn poison_message(step: usize) -> (t: String)
    requires
        step < usize::MAX,
    ensures
        t@ == poison_text(step as int),
{
    let mut t = String::from_str("BTB POISON ");
    push_decimal(&mut t, (step + 1) as u64);
    t.append("/");
    push_decimal(&mut t, BTB_POISON_ROUNDS as u64);
    t.append(": attacker executes jmp [rax] with rax=");
    push_address(&mut t, BTB_POISON_ADDR);
    t.append(". BTB records: indirect dispatch \u{2192} ");
    push_address(&mut t, BTB_POISON_ADDR);
    t.append(".");
    t
}

impl SpectreRetpolineSim {
    /// A fresh simulation: every probe slot cold, the return stack buffer
    /// empty, the introduction in the event log.
    pub fn new() -> (s: Self)
        ensures
            s@ == initial_view(),
            s.wf(),
    {
        let mut narrative: VecDeque<NarrativeEntry> = VecDeque::new();
        narrative.push_back(
            NarrativeEntry {
                text: String::from_str("Spectre + RETPOLINE simulator initialized."),
                style: NarrativeStyle::Info,
            },
        );
        let mut t = String::from_str("Victim dispatch table at ");
        push_address(&mut t, DISPATCH_TABLE_BASE);
        t.append(". Attacker controls the index into this table.");
        narrative.push_back(NarrativeEntry { text: t, style: NarrativeStyle::Info });
        narrative.push_back(
            NarrativeEntry {
                text: String::from_str(
                    "Attacker goal: poison the BTB (Branch Target Buffer) so the CPU speculatively jumps to a secret-reading gadget during an indirect dispatch.",
                ),
                style: NarrativeStyle::Warning,
            },
        );
        narrative.push_back(
            NarrativeEntry {
                text: String::from_str(
                    "RETPOLINE replaces 'jmp [rdi]' with a return trampoline: RSB (Return Stack Buffer) is loaded with capture_loop \u{2014} a safe pause/lfence spin \u{2014} so the CPU can never speculate to the attacker's BTB target.",
                ),
                style: NarrativeStyle::Warning,
            },
        );
        narrative.push_back(
            NarrativeEntry {
                text: String::from_str(
                    "Press SPACE to step  |  F = fast-forward phase  |  R = restart  |  B = back  |  Q = quit",
                ),
                style: NarrativeStyle::Info,
            },
        );
        let s = SpectreRetpolineSim {
            phase: RetpolinePhase::Setup,
            cache: [CacheSlotState::Evicted; 256],
            gadget: make_gadget(),
            reload_timings: [None; 256],
            narrative,
            btb_poisoned_addr: BTB_POISON_ADDR,
            rsb_top: 0,
            speculation_blocked: false,
            current_pc: 0,
            poison_round: 0,
            quit: false,
        };
        assert(s@.cache =~= uniform_cache(CacheSlotState::Evicted));
        assert(s@.reload_timings =~= Seq::new(256, |i: int| None));
        assert(s@.narrative =~= initial_narrative());
        assert(s.gadget@.len() == gadget_view(s.gadget).len());
        s
    }

    /// Appends a line to the event log, keeping at most `MAX_NARRATIVE` lines.
    fn push(&mut self, text: String, style: NarrativeStyle)
        ensures
            final(self)@ == (RetpolineView { narrative: log_push(old(self)@.narrative, text@, style), ..old(self)@ }),
            final(self).gadget@.len() == old(self).gadget@.len(),
            final(self).phase == old(self).phase,
    {
        push_narrative(&mut self.narrative, text, style);
    }

    /// Advances the attempted attack by one step: one poisoning jump, one
    /// instruction of the thunk, or one block of sixteen probe slots in the
    /// timing probe. In the final phase it asks to quit.
    pub fn step(&mut self)
        requires
            old(self).wf(),
        ensures
            final(self).wf(),
            final(self)@ == old(self)@.next(),
    {
        match self.phase {
            RetpolinePhase::Setup => {
                mark(&mut self.gadget, 0, InstructionState::Retired);
                mark(&mut self.gadget, 1, InstructionState::Retired);
                self.push(
                    String::from_str(
                        "Victim code runs: loads fn ptr from dispatch table, calls via RETPOLINE thunk instead of a raw 'jmp [rdi]'.",
                    ),
                    NarrativeStyle::Info,
                );
                let mut t = String::from_str("Attacker's malicious gadget at ");
                push_address(&mut t, BTB_POISON_ADDR);
                t.append(". Will attempt to inject this address into the CPU's BTB.");
                self.push(t, NarrativeStyle::Critical);
                self.push(
                    String::from_str(
                        "Starting BTB poisoning phase: attacker repeatedly executes an indirect jump to the malicious gadget.",
                    ),
                    NarrativeStyle::Warning,
                );
                self.phase = RetpolinePhase::BTBPoisoning { step: 0 };
            },
            RetpolinePhase::BTBPoisoning { step } => {
                self.poison_round = step + 1;
                self.push(poison_message(step), NarrativeStyle::Critical);
                if step + 1 >= BTB_POISON_ROUNDS {
                    self.push(
                        String::from_str(
                            "BTB fully poisoned! CPU branch predictor believes the victim's next indirect dispatch will jump to attacker's gadget.",
                        ),
                        NarrativeStyle::Critical,
                    );
                    self.push(
                        String::from_str(
                            "But victim uses RETPOLINE \u{2014} no 'jmp [rdi]' instruction exists. The RSB will override the BTB for 'ret' speculation.",
                        ),
                        NarrativeStyle::Warning,
                    );
                    self.phase = RetpolinePhase::ThunkEntry;
                } else {
                    self.phase = RetpolinePhase::BTBPoisoning { step: step + 1 };
                }
            },
            RetpolinePhase::ThunkEntry => {
                mark(&mut self.gadget, 3, InstructionState::SpeculativelyExecuting);
                self.current_pc = 3;
                self.rsb_top = CAPTURE_LOOP_ADDR;
                let mut t = String::from_str(
                    "Victim calls retpoline_thunk_rdi. 'call setup_rsp' executes \u{2014} pushes ",
                );
                push_address(&mut t, CAPTURE_LOOP_ADDR);
                t.append(" (capture_loop) onto the RSB.");
                self.push(t, NarrativeStyle::Info);
                let mut t = String::from_str("BTB says: jump to ");
                push_address(&mut t, BTB_POISON_ADDR);
                t.append(
                    ". But for a 'ret', the RSB takes priority over the BTB \u{2014} CPU must speculate to capture_loop!",
                );
                self.push(t, NarrativeStyle::Warning);
                self.phase = RetpolinePhase::SafeSpeculation { step: 0 };
            },
            RetpolinePhase::SafeSpeculation { step } => {
                if step == 0 {
                    mark(&mut self.gadget, 3, InstructionState::Retired);
                    mark(&mut self.gadget, 4, InstructionState::SpeculativelyExecuting);
                    self.current_pc = 4;
                    self.speculation_blocked = true;
                    self.push(
                        String::from_str(
                            "SPECULATION: CPU speculatively fetches capture_loop (RSB-predicted). Executes 'pause' \u{2014} pipeline stall, halts speculative progress.",
                        ),
                        NarrativeStyle::Warning,
                    );
                    let mut t = String::from_str("Attacker's gadget at ");
                    push_address(&mut t, BTB_POISON_ADDR);
                    t.append(" is NOT reached. RSB overrides BTB for 'ret' speculation.");
                    self.push(t, NarrativeStyle::Info);
                    self.phase = RetpolinePhase::SafeSpeculation { step: 1 };
                } else if step == 1 {
                    mark(&mut self.gadget, 4, InstructionState::Retired);
                    mark(&mut self.gadget, 5, InstructionState::SpeculativelyExecuting);
                    self.current_pc = 5;
                    self.push(
                        String::from_str(
                            "SPECULATION: 'lfence' \u{2014} serializing instruction. No loads or stores can speculatively pass this point.",
                        ),
                        NarrativeStyle::Warning,
                    );
                    self.push(
                        String::from_str(
                            "No secret data can be speculatively read. Cache remains completely cold.",
                        ),
                        NarrativeStyle::Info,
                    );
                    self.phase = RetpolinePhase::SafeSpeculation { step: 2 };
                } else {
                    mark(&mut self.gadget, 5, InstructionState::Retired);
                    mark(&mut self.gadget, 6, InstructionState::SpeculativelyExecuting);
                    self.current_pc = 6;
                    self.push(
                        String::from_str(
                            "SPECULATION: 'jmp capture_loop' \u{2014} CPU loops back speculatively. Trapped in pause/lfence/jmp until 'ret' resolves architecturally.",
                        ),
                        NarrativeStyle::Warning,
                    );
                    self.phase = RetpolinePhase::ArchResolution;
                }
            },
            RetpolinePhase::ArchResolution => {
                mark(&mut self.gadget, 6, InstructionState::Squashed);
                mark(&mut self.gadget, 8, InstructionState::Retired);
                mark(&mut self.gadget, 9, InstructionState::Retired);
                mark(&mut self.gadget, 11, InstructionState::Retired);
                self.current_pc = 11;
                self.push(
                    String::from_str(
                        "ARCHITECTURAL: setup_rsp runs \u{2014} patches [rsp] with the real target address. 'ret' resolves architecturally to real_target.",
                    ),
                    NarrativeStyle::Info,
                );
                self.push(
                    String::from_str(
                        "Speculative capture_loop path is squashed. No secret was ever read speculatively. Cache is still completely clean.",
                    ),
                    NarrativeStyle::Info,
                );
                self.push(
                    String::from_str(
                        "Starting Flush+Reload timing probe to confirm no cache side-channel occurred...",
                    ),
                    NarrativeStyle::Info,
                );
                self.phase = RetpolinePhase::TimingProbe { step: 0 };
            },
            RetpolinePhase::TimingProbe { step } => {
                let end: usize = chunk_end_of(step);
                // No slot was brought into the cache, so every slot reads as a miss.
                time_slots(
                    &mut self.reload_timings,
                    step,
                    end,
                    PROBE_SLOTS,
                    CACHE_MISS_CYCLES,
                    CACHE_MISS_CYCLES,
                );
                if end >= PROBE_SLOTS {
                    self.push(
                        String::from_str(
                            "Timing probe complete: 256/256 slots \u{2014} ALL CACHE MISS. No speculative access occurred.",
                        ),
                        NarrativeStyle::Success,
                    );
                    self.push(
                        String::from_str(
                            "RETPOLINE successfully blocked the Branch Target Injection attack. Zero information leaked via cache timing.",
                        ),
                        NarrativeStyle::Success,
                    );
                    self.push(
                        String::from_str("Press SPACE to exit, R to restart, B to return to menu."),
                        NarrativeStyle::Info,
                    );
                    self.phase = RetpolinePhase::Blocked;
                } else {
                    self.phase = RetpolinePhase::TimingProbe { step: end };
                }
            },
            RetpolinePhase::Blocked => {
                self.quit = true;
            },
        }
    }
}


/// The timings once the probe stands at `step`: the slots below it timed as misses.
pub open spec fn missed_timings(step: int) -> Seq<Option<u32>> {
    probed_timings(PROBE_SLOTS as int, step, CACHE_MISS_CYCLES, CACHE_MISS_CYCLES)
}

impl RetpolineView {
    /// How many presses of the step key remain until the simulation asks to
    /// quit: one per poisoning jump, one per thunk step, one per block of
    /// sixteen probe slots, one to quit.
    pub open spec fn rank(self) -> int {
        match self.phase {
            RetpolinePhase::Setup => TOTAL_STEPS as int,
            RetpolinePhase::BTBPoisoning { step } => (if step + 1 >= BTB_POISON_ROUNDS {
                1
            } else {
                BTB_POISON_ROUNDS - step
            }) + 22,
            RetpolinePhase::ThunkEntry => 22,
            RetpolinePhase::SafeSpeculation { step } => (if step >= 2 {
                1
            } else {
                3 - step
            }) + 18,
            RetpolinePhase::ArchResolution => 18,
            RetpolinePhase::TimingProbe { step } => chunks_left(step as int) + 1,
            RetpolinePhase::Blocked => if self.quit {
                0
            } else {
                1
            },
        }
    }

    /// The attempted attack is over and the simulation has asked to quit.
    pub open spec fn finished(self) -> bool {
        self.phase is Blocked && self.quit
    }

    /// What fast-forward leaves: steps until the phase changes, stopping early
    /// in the final phase or once the simulation asked to quit.
    pub open spec fn finish_phase(self, start: u8) -> RetpolineView
        decreases self.rank(),
    {
        if self.phase is Blocked || self.quit {
            self
        } else {
            let t = self.next();
            if t.phase.kind() != start {
                t
            } else if 0 <= t.rank() < self.rank() {
                t.finish_phase(start)
            } else {
                t
            }
        }
    }

    /// The state after `n` presses of the step key.
    pub open spec fn run(self, n: nat) -> RetpolineView
        decreases n,
    {
        if n == 0 {
            self
        } else {
            self.run((n - 1) as nat).next()
        }
    }

    /// What holds in every state that stepping reaches from a fresh simulation.
    pub open spec fn inv(self) -> bool {
        let untimed = missed_timings(0);
        &&& self.gadget.len() == 12
        &&& self.narrative.len() <= MAX_NARRATIVE
        &&& self.cache == uniform_cache(CacheSlotState::Evicted)
        &&& self.btb_poisoned_addr == BTB_POISON_ADDR
        &&& (self.quit ==> self.phase is Blocked)
        &&& match self.phase {
            RetpolinePhase::Setup => {
                &&& self.reload_timings == untimed
                &&& self.rsb_top == 0
                &&& !self.speculation_blocked
                &&& self.poison_round == 0
            },
            RetpolinePhase::BTBPoisoning { step } => {
                &&& step < BTB_POISON_ROUNDS
                &&& self.reload_timings == untimed
                &&& self.rsb_top == 0
                &&& !self.speculation_blocked
                &&& self.poison_round == step
            },
            RetpolinePhase::ThunkEntry => {
                &&& self.reload_timings == untimed
                &&& self.rsb_top == 0
                &&& !self.speculation_blocked
                &&& self.poison_round == BTB_POISON_ROUNDS
            },
            RetpolinePhase::SafeSpeculation { step } => {
                &&& step <= 2
                &&& self.reload_timings == untimed
                &&& self.rsb_top == CAPTURE_LOOP_ADDR
                &&& self.speculation_blocked == (step >= 1)
                &&& self.poison_round == BTB_POISON_ROUNDS
            },
            RetpolinePhase::ArchResolution => {
                &&& self.reload_timings == untimed
                &&& self.rsb_top == CAPTURE_LOOP_ADDR
                &&& self.speculation_blocked
                &&& self.poison_round == BTB_POISON_ROUNDS
            },
            RetpolinePhase::TimingProbe { step } => {
                &&& step < PROBE_SLOTS
                &&& self.reload_timings == missed_timings(step as int)
                &&& self.rsb_top == CAPTURE_LOOP_ADDR
                &&& self.speculation_blocked
                &&& self.poison_round == BTB_POISON_ROUNDS
            },
            RetpolinePhase::Blocked => {
                &&& self.reload_timings == missed_timings(256)
                &&& self.rsb_top == CAPTURE_LOOP_ADDR
                &&& self.speculation_blocked
                &&& self.poison_round == BTB_POISON_ROUNDS
            },
        }
    }
}

/// Every step but the last brings the simulation one step closer to its end:
/// the number of remaining steps falls by exactly one.
pub proof fn lemma_step_progress(s: RetpolineView)
    requires
        !s.quit,
    ensures
        s.rank() >= 1,
        s.next().rank() == s.rank() - 1,
{
}

/// Once the simulation has asked to quit in its final phase, stepping changes nothing.
pub proof fn lemma_finished_is_fixed(s: RetpolineView)
    requires
        s.finished(),
    ensures
        s.next() == s,
{
}

/// A fresh simulation meets the invariant and is `TOTAL_STEPS` steps from its end.
pub proof fn lemma_initial_invariant()
    ensures
        initial_view().inv(),
        initial_view().rank() == TOTAL_STEPS,
{
    assert(initial_view().reload_timings =~= missed_timings(0));
}

/// Stepping keeps the invariant.
pub proof fn lemma_step_keeps_invariant(s: RetpolineView)
    requires
        s.inv(),
    ensures
        s.next().inv(),
{
    match s.phase {
        RetpolinePhase::BTBPoisoning { step } => {
            lemma_log_push_bounded(s.narrative, poison_text(step as int), NarrativeStyle::Critical);
        },
        RetpolinePhase::TimingProbe { step } => {
            let end: int = chunk_end(step as int);
            assert(miss_range(s.reload_timings, step as int, end) =~= missed_timings(end));
            if end >= PROBE_SLOTS {
                assert(missed_timings(end) =~= missed_timings(256));
            }
        },
        _ => {},
    }
}

/// RETPOLINE leaks nothing: in every reachable state no probe slot is in the
/// cache, and every slot that has been timed was timed as a miss.
pub proof fn lemma_nothing_leaks(s: RetpolineView)
    requires
        s.inv(),
    ensures
        forall|i: int| 0 <= i < PROBE_SLOTS ==> #[trigger] s.cache[i] == CacheSlotState::Evicted,
        forall|i: int|
            0 <= i < PROBE_SLOTS ==> #[trigger] s.reload_timings[i] == None::<u32>
                || s.reload_timings[i] == Some(CACHE_MISS_CYCLES),
{
}

/// At the end every one of the probe slots has been timed, and every one was a miss.
pub proof fn lemma_all_slots_miss(s: RetpolineView)
    requires
        s.inv(),
        s.phase is Blocked,
    ensures
        forall|i: int|
            0 <= i < PROBE_SLOTS ==> #[trigger] s.reload_timings[i] == Some(CACHE_MISS_CYCLES),
        count_timed(s.reload_timings) == PROBE_SLOTS,
        count_timed_at(s.reload_timings, CACHE_MISS_CYCLES) == PROBE_SLOTS,
{
    lemma_count_misses(256, CACHE_MISS_CYCLES);
}

/// Once the thunk has been entered, the return stack buffer predicts the
/// capture loop, not the address that the attacker planted in the branch
/// target buffer; from the first trapped step on, speculation is blocked.
pub proof fn lemma_rsb_overrides_btb(s: RetpolineView)
    requires
        s.inv(),
        s.phase.kind() >= 3,
    ensures
        s.rsb_top == CAPTURE_LOOP_ADDR,
        s.rsb_top != s.btb_poisoned_addr,
        s.phase != (RetpolinePhase::SafeSpeculation { step: 0 }) ==> s.speculation_blocked,
{
}

proof fn lemma_run_from_initial(n: nat)
    requires
        n <= TOTAL_STEPS,
    ensures
        initial_view().run(n).inv(),
        initial_view().run(n).rank() == TOTAL_STEPS - n,
    decreases n,
{
    lemma_initial_invariant();
    if n > 0 {
        lemma_run_from_initial((n - 1) as nat);
        let s = initial_view().run((n - 1) as nat);
        lemma_step_keeps_invariant(s);
        lemma_step_progress(s);
    }
}

/// Pressing the step key `TOTAL_STEPS` times on a fresh simulation runs the
/// whole attempt: it ends blocked, and the simulation asks to quit.
pub proof fn lemma_attack_blocked()
    ensures
        initial_view().run(TOTAL_STEPS as nat).finished(),
        initial_view().run(TOTAL_STEPS as nat).inv(),
{
    lemma_run_from_initial(TOTAL_STEPS as nat);
}

impl SpectreRetpolineSim {
    /// Steps until the phase changes: stops after the step that enters another
    /// phase, or at once in the final phase or when the simulation asked to quit.
    pub fn step_phase(&mut self)
        requires
            old(self).wf(),
        ensures
            final(self).wf(),
            final(self)@ == old(self)@.finish_phase(old(self).phase.kind()),
    {
        let start: u8 = self.phase.kind_of();
        loop
            invariant_except_break
                self.phase.kind() == start,
                self@.finish_phase(start) == old(self)@.finish_phase(start),
            invariant
                self.wf(),
            ensures
                self.wf(),
                self@ == old(self)@.finish_phase(start),
            decreases self@.rank(),
        {
            if matches!(self.phase, RetpolinePhase::Blocked) || self.quit {
                break;
            }
            proof {
                lemma_step_progress(self@);
            }
            self.step();
            if self.phase.kind_of() != start {
                break;
            }
        }
    }

    /// The simulation's title.
    pub fn name(&self) -> (s: &'static str)
        ensures
            s@ == "Spectre + RETPOLINE"@,
    {
        "Spectre + RETPOLINE"
    }

    /// The vulnerability that the simulation shows.
    pub fn cve(&self) -> (s: &'static str)
        ensures
            s@ == "CVE-2017-5715"@,
    {
        "CVE-2017-5715"
    }

    /// A one-line summary of the attempted attack.
    pub fn description(&self) -> (s: &'static str)
        ensures
            s@ == "Branch Target Injection blocked by RETPOLINE \u{2014} speculation diverted to safe pause/lfence loop"@,
    {
        "Branch Target Injection blocked by RETPOLINE \u{2014} speculation diverted to safe pause/lfence loop"
    }

    /// The current phase as the header line shows it.
    pub fn phase_label(&self) -> (s: String)
        requires
            self.phase.printable(),
        ensures
            s@ == phase_text(self.phase),
    {
        self.phase.label()
    }

    /// One press of the step key: one step of the attempted attack.
    pub fn advance(&mut self)
        requires
            old(self).wf(),
        ensures
            final(self).wf(),
            final(self)@ == old(self)@.next(),
    {
        self.step();
    }

    /// The fast-forward key: runs to the end of the current phase.
    pub fn fast_forward(&mut self)
        requires
            old(self).wf(),
        ensures
            final(self).wf(),
            final(self)@ == old(self)@.finish_phase(old(self).phase.kind()),
    {
        self.step_phase();
    }

    /// The restart key: back to a fresh simulation.
    pub fn reset(&mut self)
        ensures
            final(self)@ == initial_view(),
            final(self).wf(),
    {
        *self = SpectreRetpolineSim::new();
    }

    /// Whether the simulation has asked to quit.
    pub fn wants_quit(&self) -> (b: bool)
        ensures
            b == self.quit,
    {
        self.quit
    }
}

/// Fast-forward ends in another phase: the state it leaves is in a phase other
/// than the one it started in, unless it stopped in the final phase or because
/// the simulation asked to quit.
pub proof fn lemma_fast_forward_leaves_phase(s: RetpolineView)
    requires
    ensures
        s.finish_phase(s.phase.kind()).phase.kind() != s.phase.kind()
            || s.finish_phase(s.phase.kind()).phase is Blocked
            || s.finish_phase(s.phase.kind()).quit,
{
    lemma_finish_phase_leaves(s, s.phase.kind());
}

proof fn lemma_finish_phase_leaves(s: RetpolineView, start: u8)
    requires
        s.phase.kind() == start,
    ensures
        s.finish_phase(start).phase.kind() != start || s.finish_phase(start).phase is Blocked
            || s.finish_phase(start).quit,
    decreases s.rank(),
{
    if !(s.phase is Blocked || s.quit) {
        lemma_step_progress(s);
        let t = s.next();
        if t.phase.kind() == start {
            lemma_finish_phase_leaves(t, start);
        }
    }
}

/// Stepping only moves instructions through the pipeline: the listing keeps
/// its instructions, addresses and texts.
pub proof fn lemma_step_keeps_listing(s: RetpolineView)
    requires
        s.gadget.len() >= 12,
    ensures
        same_listing(s.next().gadget, s.gadget),
{
}

impl RetpolineView {
    /// How many presses of the step key the current phase still takes.
    pub open spec fn steps_left_in_phase(self) -> int {
        match self.phase {
            RetpolinePhase::Setup => 1,
            RetpolinePhase::BTBPoisoning { step } => if step + 1 >= BTB_POISON_ROUNDS {
                1
            } else {
                BTB_POISON_ROUNDS - step
            },
            RetpolinePhase::ThunkEntry => 1,
            RetpolinePhase::SafeSpeculation { step } => if step >= 2 {
                1
            } else {
                3 - step
            },
            RetpolinePhase::ArchResolution => 1,
            RetpolinePhase::TimingProbe { step } => chunks_left(step as int),
            RetpolinePhase::Blocked => 0,
        }
    }
}

/// Stepping `n` times after one step is stepping `n + 1` times.
pub proof fn lemma_run_after_step(s: RetpolineView, n: nat)
    ensures
        s.next().run(n) == s.run(n + 1),
    decreases n,
{
    assert(s.run(0) == s);
    if n > 0 {
        lemma_run_after_step(s, (n - 1) as nat);
    }
}

proof fn lemma_phase_step(s: RetpolineView)
    requires
        !s.quit,
        !(s.phase is Blocked),
    ensures
        1 <= s.steps_left_in_phase() <= SLOTS_PER_STEP,
        (s.next().phase.kind() != s.phase.kind()) == (s.steps_left_in_phase() == 1),
        s.next().phase.kind() == s.phase.kind() ==> {
            &&& s.next().steps_left_in_phase() == s.steps_left_in_phase() - 1
            &&& !s.next().quit
            &&& !(s.next().phase is Blocked)
        },
        !s.next().quit,
{
}

proof fn lemma_finish_in_steps(s: RetpolineView, start: u8)
    requires
        !s.quit,
        !(s.phase is Blocked),
        s.phase.kind() == start,
    ensures
        s.finish_phase(start) == s.run(s.steps_left_in_phase() as nat),
        !s.finish_phase(start).quit,
        s.finish_phase(start).phase.kind() != start,
    decreases s.steps_left_in_phase(),
{
    lemma_step_progress(s);
    lemma_phase_step(s);
    let t = s.next();
    assert(s.run(0) == s);
    assert(s.run(1) == t);
    if t.phase.kind() == start {
        lemma_step_progress(t);
        lemma_finish_in_steps(t, start);
        lemma_run_after_step(s, t.steps_left_in_phase() as nat);
    }
}

/// Fast-forward finishes the current phase within sixteen steps: unless the
/// simulation is in its final phase or has asked to quit, it leaves the state
/// that pressing the step key `steps_left_in_phase` times gives, a number
/// between one and sixteen; that state is in another phase and has not asked
/// to quit. In the final phase, or once the simulation asked to quit, it
/// changes nothing.
pub proof fn lemma_fast_forward_bounded(s: RetpolineView)
    requires
    ensures
        s.phase is Blocked || s.quit ==> s.finish_phase(s.phase.kind()) == s,
        !(s.phase is Blocked || s.quit) ==> {
            &&& 1 <= s.steps_left_in_phase() <= SLOTS_PER_STEP
            &&& s.finish_phase(s.phase.kind()) == s.run(s.steps_left_in_phase() as nat)
            &&& s.finish_phase(s.phase.kind()).phase.kind() != s.phase.kind()
            &&& !s.finish_phase(s.phase.kind()).quit
        },
{
    if !(s.phase is Blocked || s.quit) {
        lemma_phase_step(s);
        lemma_finish_in_steps(s, s.phase.kind());
    }
}

/// Architectural resolution retires the real path and squashes only the
/// speculative one: the return-address patch (`mov [rsp], rdi`), the `ret`
/// and the real target are retired, the capture loop's `jmp` is squashed,
/// and every other instruction keeps its state.
pub proof fn lemma_resolution_retires_real_path(s: RetpolineView)
    requires
        s.phase == RetpolinePhase::ArchResolution,
        s.gadget.len() == 12,
    ensures
        s.next().gadget[8].state == InstructionState::Retired,
        s.next().gadget[9].state == InstructionState::Retired,
        s.next().gadget[11].state == InstructionState::Retired,
        s.next().gadget[6].state == InstructionState::Squashed,
        forall|i: int|
            0 <= i < 12 && i != 6 && i != 8 && i != 9 && i != 11 ==> #[trigger] s.next().gadget[i].state
                == s.gadget[i].state,
        forall|i: int|
            0 <= i < 12 && #[trigger] s.next().gadget[i].state == InstructionState::Squashed ==> i
                == 6 || s.gadget[i].state == InstructionState::Squashed,
{
}

/// Through the thunk the program counter follows the listing: entering the
/// thunk speculatively executes its `call` and loads the return stack buffer
/// with the capture loop; each trapped step marks the next instruction of the
/// capture loop as speculatively executing and retires the one before. Every
/// other instruction keeps its state.
pub proof fn lemma_thunk_pipeline(s: RetpolineView)
    requires
        s.gadget.len() == 12,
    ensures
        s.phase == RetpolinePhase::ThunkEntry ==> {
            &&& s.next().current_pc == 3
            &&& s.next().rsb_top == CAPTURE_LOOP_ADDR
            &&& s.next().gadget[3].state == InstructionState::SpeculativelyExecuting
            &&& forall|i: int| 0 <= i < 12 && i != 3 ==> #[trigger] s.next().gadget[i].state
                == s.gadget[i].state
        },
        s.phase matches RetpolinePhase::SafeSpeculation { step } ==> {
            let pc = if step >= 2 { 6int } else { step + 4 };
            &&& s.next().current_pc == pc
            &&& s.next().gadget[pc].state == InstructionState::SpeculativelyExecuting
            &&& s.next().gadget[pc - 1].state == InstructionState::Retired
            &&& s.next().rsb_top == s.rsb_top
            &&& forall|i: int| 0 <= i < 12 && i != pc && i != pc - 1 ==> #[trigger] s.next().gadget[i].state
                == s.gadget[i].state
        },
{
}

/// The setup step retires the function prologue, the first two
/// instructions of the listing, and changes no other instruction, the cache
/// or the timings.
pub proof fn lemma_setup_retires_prologue(s: RetpolineView)
    requires
        s.phase == RetpolinePhase::Setup,
        s.gadget.len() == 12,
    ensures
        s.next().gadget[0].state == InstructionState::Retired,
        s.next().gadget[1].state == InstructionState::Retired,
        forall|i: int| 2 <= i < 12 ==> #[trigger] s.next().gadget[i].state == s.gadget[i].state,
        s.next().current_pc == s.current_pc,
        s.next().cache == s.cache,
        s.next().reload_timings == s.reload_timings,
{
}

/// Each poisoning jump counts one round and changes nothing of the victim:
/// not its listing, the cache, the timings, the return stack buffer or the
/// planted branch target.
pub proof fn lemma_poisoning_touches_no_victim_state(s: RetpolineView, step: usize)
    requires
        s.phase == (RetpolinePhase::BTBPoisoning { step }),
        step < usize::MAX,
    ensures
        s.next().poison_round == step + 1,
        s.next().gadget == s.gadget,
        s.next().cache == s.cache,
        s.next().reload_timings == s.reload_timings,
        s.next().rsb_top == s.rsb_top,
        s.next().btb_poisoned_addr == s.btb_poisoned_addr,
        s.next().speculation_blocked == s.speculation_blocked,
{
}

} // verus!
