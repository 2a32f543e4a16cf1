use cpu_vuln_sim::sim::spectre_retpoline::{
    RetpolinePhase, SpectreRetpolineSim, BTB_POISON_ADDR, CACHE_MISS_CYCLES, CAPTURE_LOOP_ADDR,
    DISPATCH_TABLE_BASE, TOTAL_STEPS,
};
use cpu_vuln_sim::sim::{probed_count, timed_at_count, CacheSlotState, InstructionState, MAX_NARRATIVE};

fn texts(sim: &SpectreRetpolineSim) -> Vec<String> {
    sim.narrative.iter().map(|e| e.text.clone()).collect()
}

#[test]
fn retpoline_new_state() {
    let sim = SpectreRetpolineSim::new();
    assert_eq!(sim.phase, RetpolinePhase::Setup);
    assert_eq!(sim.btb_poisoned_addr, BTB_POISON_ADDR);
    assert_eq!(sim.rsb_top, 0);
    assert_eq!(sim.gadget.len(), 12);
    assert_eq!(sim.gadget[1].address, DISPATCH_TABLE_BASE + 8);
    assert_eq!(sim.gadget[4].address, CAPTURE_LOOP_ADDR);
    assert_eq!(
        texts(&sim)[1],
        format!("Victim dispatch table at {DISPATCH_TABLE_BASE:#018x}. Attacker controls the index into this table.")
    );
}

#[test]
fn retpoline_poisoning_then_thunk() {
    let mut sim = SpectreRetpolineSim::new();
    sim.step();
    sim.step();
    assert_eq!(sim.poison_round, 1);
    assert_eq!(
        texts(&sim).last().unwrap(),
        &format!("BTB POISON 1/4: attacker executes jmp [rax] with rax={BTB_POISON_ADDR:#018x}. BTB records: indirect dispatch \u{2192} {BTB_POISON_ADDR:#018x}.")
    );
    sim.step_phase();
    assert_eq!(sim.phase, RetpolinePhase::ThunkEntry);
    assert_eq!(sim.poison_round, 4);
    sim.step();
    assert_eq!(sim.rsb_top, CAPTURE_LOOP_ADDR);
    assert_eq!(sim.gadget[3].state, InstructionState::SpeculativelyExecuting);
    assert!(!sim.speculation_blocked);
    sim.step();
    assert!(sim.speculation_blocked);
    assert_eq!(sim.phase, RetpolinePhase::SafeSpeculation { step: 1 });
    sim.step_phase();
    assert_eq!(sim.phase, RetpolinePhase::ArchResolution);
    sim.step();
    assert_eq!(sim.gadget[6].state, InstructionState::Squashed);
    assert_eq!(sim.gadget[11].state, InstructionState::Retired);
    assert_eq!(sim.current_pc, 11);
}

#[test]
fn retpoline_full_run_all_misses() {
    let mut sim = SpectreRetpolineSim::new();
    for _ in 0..TOTAL_STEPS {
        assert!(!sim.quit);
        sim.step();
        assert!(sim.cache.iter().all(|c| *c == CacheSlotState::Evicted));
        assert!(sim.narrative.len() <= MAX_NARRATIVE);
    }
    assert!(sim.quit);
    assert_eq!(sim.phase, RetpolinePhase::Blocked);
    assert!(sim.reload_timings.iter().all(|t| *t == Some(CACHE_MISS_CYCLES)));
    assert_eq!(probed_count(&sim.reload_timings), 256);
    assert_eq!(timed_at_count(&sim.reload_timings, CACHE_MISS_CYCLES), 256);
    let t = texts(&sim);
    assert_eq!(t[t.len() - 3], "Timing probe complete: 256/256 slots \u{2014} ALL CACHE MISS. No speculative access occurred.");
}

#[test]
fn retpoline_labels() {
    assert_eq!(RetpolinePhase::BTBPoisoning { step: 2 }.label(), "BTB POISONING  (2/4 rounds)");
    assert_eq!(
        RetpolinePhase::SafeSpeculation { step: 0 }.label(),
        "SAFE SPECULATION  (step 1/3) \u{2014} CPU trapped in pause/lfence loop"
    );
    assert_eq!(RetpolinePhase::TimingProbe { step: 48 }.label(), "TIMING PROBE  (48/256)");
    assert_eq!(RetpolinePhase::Blocked.label(), "ATTACK BLOCKED \u{2014} RETPOLINE held the line");
    let sim = SpectreRetpolineSim::new();
    assert_eq!(sim.name(), "Spectre + RETPOLINE");
    assert_eq!(sim.cve(), "CVE-2017-5715");
}

#[test]
fn retpoline_partial_probe_counts() {
    let mut sim = SpectreRetpolineSim::new();
    for _ in 0..12 {
        sim.step();
    }
    assert_eq!(sim.phase, RetpolinePhase::TimingProbe { step: 32 });
    assert_eq!(probed_count(&sim.reload_timings), 32);
    assert_eq!(timed_at_count(&sim.reload_timings, CACHE_MISS_CYCLES), 32);
    assert_eq!(timed_at_count(&sim.reload_timings, 4), 0);
}
