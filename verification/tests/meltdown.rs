use cpu_vuln_sim::sim::meltdown::{
    MeltdownSim, SimPhase, CACHE_HIT_CYCLES, CACHE_MISS_CYCLES, KERNEL_SECRET_ADDR,
    PROBE_ARRAY_BASE, SECRET_BYTE, TOTAL_STEPS,
};
use cpu_vuln_sim::sim::{CacheSlotState, InstructionState, NarrativeStyle, RegisterValue, MAX_NARRATIVE};

fn texts(sim: &MeltdownSim) -> Vec<String> {
    sim.narrative.iter().map(|e| e.text.clone()).collect()
}

#[test]
fn meltdown_new_state() {
    let sim = MeltdownSim::new();
    assert_eq!(sim.phase, SimPhase::Setup);
    assert!(sim.cache.iter().all(|c| *c == CacheSlotState::Cached));
    assert!(sim.reload_timings.iter().all(|t| t.is_none()));
    assert_eq!(sim.secret_byte, 0x41);
    assert_eq!(sim.gadget.len(), 8);
    assert!(sim.gadget.iter().all(|g| g.state == InstructionState::Upcoming));
    assert_eq!(sim.gadget[2].operands, "rax, [kernel_secret]");
    assert_eq!(sim.narrative.len(), 4);
    let t = texts(&sim);
    assert_eq!(t[1], format!("Kernel secret at {KERNEL_SECRET_ADDR:#018x} (value hidden)"));
    assert_eq!(t[2], format!("Probe array at {PROBE_ARRAY_BASE:#018x}  (256 \u{d7} 4096-byte pages)"));
    assert_eq!(sim.narrative[3].style, NarrativeStyle::Warning);
    assert!(!sim.quit && !sim.secret_revealed);
}

#[test]
fn meltdown_setup_then_flush_blocks() {
    let mut sim = MeltdownSim::new();
    sim.step();
    assert_eq!(sim.phase, SimPhase::Flush { step: 0 });
    assert_eq!(sim.gadget[0].state, InstructionState::Retired);
    assert_eq!(sim.gadget[1].state, InstructionState::Retired);
    assert_eq!(sim.registers.current_pc, 2);
    sim.step();
    assert_eq!(sim.phase, SimPhase::Flush { step: 16 });
    for i in 0..256 {
        let expect = if i < 16 { CacheSlotState::Evicted } else { CacheSlotState::Cached };
        assert_eq!(sim.cache[i], expect);
    }
    assert_eq!(texts(&sim).last().unwrap(), &format!("CLFLUSH: evicted probe_array[0x{:02X}\u{2013}0x{:02X}]", 0, 15));
}

#[test]
fn meltdown_fast_forward_flush() {
    let mut sim = MeltdownSim::new();
    sim.step_phase();
    assert_eq!(sim.phase, SimPhase::Flush { step: 0 });
    sim.step_phase();
    assert_eq!(sim.phase, SimPhase::Speculative { step: 0 });
    assert!(sim.cache.iter().all(|c| *c == CacheSlotState::Evicted));
    let t = texts(&sim);
    assert_eq!(t[t.len() - 3], "CLFLUSH: evicted probe_array[0xF0\u{2013}0xFF]");
    assert_eq!(t[t.len() - 1], "Starting speculative execution gadget...");
}

#[test]
fn meltdown_speculative_window_installs_secret_line() {
    let mut sim = MeltdownSim::new();
    sim.step_phase();
    sim.step_phase();
    sim.step();
    assert!(matches!(&sim.registers.rax, RegisterValue::Speculative(s) if s == "???"));
    assert_eq!(sim.gadget[2].state, InstructionState::SpeculativelyExecuting);
    sim.step();
    sim.step();
    assert_eq!(sim.phase, SimPhase::Speculative { step: 3 });
    for i in 0..256 {
        let expect = if i == 0x41 { CacheSlotState::Cached } else { CacheSlotState::Evicted };
        assert_eq!(sim.cache[i], expect);
    }
    sim.step();
    assert_eq!(sim.phase, SimPhase::Reload { step: 0 });
    assert!(matches!(sim.registers.rax, RegisterValue::Cleared));
    assert!(matches!(sim.registers.rbx, RegisterValue::Cleared));
    assert_eq!(sim.cache[0x41], CacheSlotState::Cached);
    assert_eq!(sim.gadget[4].state, InstructionState::Faulted);
    assert_eq!(sim.gadget[7].state, InstructionState::Squashed);
}

#[test]
fn meltdown_full_run_recovers_secret() {
    let mut sim = MeltdownSim::new();
    for n in 0..TOTAL_STEPS {
        assert!(!sim.quit, "quit early at step {n}");
        sim.step();
        assert!(sim.narrative.len() <= MAX_NARRATIVE);
    }
    assert!(sim.quit);
    assert_eq!(sim.phase, SimPhase::Revealed);
    assert!(sim.secret_revealed);
    for i in 0..256 {
        let cycles = if i == SECRET_BYTE as usize { CACHE_HIT_CYCLES } else { CACHE_MISS_CYCLES };
        assert_eq!(sim.reload_timings[i], Some(cycles));
    }
    assert_eq!(sim.cache[0x41], CacheSlotState::Hit);
    let t = texts(&sim);
    assert!(t.contains(&"TIMING: probe_array[0x41] = 4 cycles  \u{2190} CACHE HIT! Secret = 0x41 ('A')".to_string()));
    assert_eq!(t[t.len() - 2], "Attack complete! Secret byte recovered: 0x41 ('A')");
    assert_eq!(t[t.len() - 1], "Press SPACE to exit, R to restart, B to return to menu.");
}

#[test]
fn meltdown_stepping_after_end_changes_nothing_but_quit() {
    let mut sim = MeltdownSim::new();
    for _ in 0..TOTAL_STEPS - 1 {
        sim.step();
    }
    assert_eq!(sim.phase, SimPhase::Revealed);
    assert!(!sim.quit);
    let before = sim.narrative.len();
    sim.step();
    assert!(sim.quit);
    sim.step();
    assert!(sim.quit);
    assert_eq!(sim.narrative.len(), before);
    sim.step_phase();
    assert_eq!(sim.phase, SimPhase::Revealed);
}

#[test]
fn meltdown_phase_labels() {
    assert_eq!(SimPhase::Setup.label(), "SETUP");
    assert_eq!(SimPhase::Flush { step: 32 }.label(), "FLUSH  (evicting probe_array... 32/256)");
    assert_eq!(SimPhase::Speculative { step: 2 }.label(), "SPECULATIVE EXECUTION  (step 2/4)");
    assert_eq!(SimPhase::Reload { step: 160 }.label(), "RELOAD + TIMING  (160/256)");
    assert_eq!(SimPhase::Revealed.label(), "ATTACK COMPLETE \u{2014} SECRET RECOVERED");
    let sim = MeltdownSim::new();
    assert_eq!(sim.phase_label(), "SETUP");
    assert_eq!(sim.name(), "Meltdown");
    assert_eq!(sim.cve(), "CVE-2017-5754");
}

#[test]
fn meltdown_reset_and_controls() {
    let mut sim = MeltdownSim::new();
    sim.advance();
    sim.fast_forward();
    assert_eq!(sim.phase, SimPhase::Speculative { step: 0 });
    sim.reset();
    assert_eq!(sim.phase, SimPhase::Setup);
    assert!(sim.cache.iter().all(|c| *c == CacheSlotState::Cached));
    assert_eq!(sim.narrative.len(), 4);
    assert!(!sim.wants_quit());
}

#[test]
fn meltdown_stalled_speculation_is_a_no_op() {
    let mut sim = MeltdownSim::new();
    sim.phase = SimPhase::Speculative { step: 9 };
    let log = sim.narrative.len();
    sim.step();
    assert_eq!(sim.phase, SimPhase::Speculative { step: 9 });
    assert_eq!(sim.narrative.len(), log);
}

#[test]
fn meltdown_listing_keeps_its_instructions() {
    let fresh = MeltdownSim::new();
    let mut sim = MeltdownSim::new();
    for _ in 0..TOTAL_STEPS {
        sim.step();
        assert_eq!(sim.gadget.len(), fresh.gadget.len());
        for (a, b) in sim.gadget.iter().zip(fresh.gadget.iter()) {
            assert_eq!(a.address, b.address);
            assert_eq!(a.mnemonic, b.mnemonic);
            assert_eq!(a.operands, b.operands);
            assert_eq!(a.comment, b.comment);
        }
    }
}

#[test]
fn meltdown_fast_forward_on_quit_changes_nothing() {
    let mut sim = MeltdownSim::new();
    sim.phase = SimPhase::Speculative { step: 9 };
    sim.quit = true;
    let log = sim.narrative.len();
    sim.step_phase();
    assert_eq!(sim.phase, SimPhase::Speculative { step: 9 });
    assert!(sim.quit);
    assert_eq!(sim.narrative.len(), log);
}

#[test]
fn meltdown_fast_forward_takes_at_most_sixteen_steps() {
    let mut fast = MeltdownSim::new();
    let mut slow = MeltdownSim::new();
    while fast.phase != SimPhase::Revealed {
        let start = std::mem::discriminant(&fast.phase);
        fast.step_phase();
        let mut n = 0;
        while std::mem::discriminant(&slow.phase) == start {
            slow.step();
            n += 1;
        }
        assert!((1..=16).contains(&n));
        assert_eq!(fast.phase, slow.phase);
        assert_eq!(fast.cache, slow.cache);
        assert_eq!(fast.reload_timings, slow.reload_timings);
        assert_ne!(std::mem::discriminant(&fast.phase), start);
        assert!(!fast.quit);
    }
}
