use cpu_vuln_sim::sim::spectre::{
    BranchPredictorState, SpectrePhase, SpectreSim, ARRAY1_BASE, CACHE_HIT_CYCLES,
    CACHE_MISS_CYCLES, PROBE_ARRAY_BASE, SECRET_ADDR, TOTAL_STEPS, TRAIN_ROUNDS,
};
use cpu_vuln_sim::sim::{CacheSlotState, InstructionState, RegisterValue, MAX_NARRATIVE};

fn texts(sim: &SpectreSim) -> Vec<String> {
    sim.narrative.iter().map(|e| e.text.clone()).collect()
}

fn speculative(r: &RegisterValue) -> String {
    match r {
        RegisterValue::Speculative(s) => s.clone(),
        _ => panic!("not speculative"),
    }
}

#[test]
fn spectre_new_state() {
    let sim = SpectreSim::new();
    assert_eq!(sim.phase, SpectrePhase::Setup);
    assert!(sim.cache.iter().all(|c| *c == CacheSlotState::Evicted));
    assert_eq!(sim.secret_byte, b'S');
    assert_eq!(sim.gadget.len(), 10);
    assert_eq!(sim.branch_predictor, BranchPredictorState::Untrained);
    let t = texts(&sim);
    assert_eq!(t.len(), 5);
    assert_eq!(t[1], format!("Victim array (array1) at {ARRAY1_BASE:#018x}  (16 bytes, bounds-checked)"));
    assert_eq!(t[2], format!("Secret string at {SECRET_ADDR:#018x}  (offset 256 past array1 end)"));
    assert_eq!(t[3], format!("Probe array (array2) at {PROBE_ARRAY_BASE:#018x}  (256 \u{d7} 512 B)"));
}

#[test]
fn spectre_training_rounds() {
    let mut sim = SpectreSim::new();
    sim.step();
    assert_eq!(sim.phase, SpectrePhase::Train { round: 0 });
    assert_eq!(
        texts(&sim).last().unwrap(),
        "Starting branch predictor training: call gadget with in-bounds values 8 times."
    );
    sim.step();
    assert_eq!(sim.train_round, 1);
    assert_eq!(sim.branch_predictor, BranchPredictorState::Training);
    assert!(matches!(sim.registers.rdi, RegisterValue::Known(0)));
    assert_eq!(
        texts(&sim).last().unwrap(),
        "TRAIN 1/8: x=0 (in-bounds). cmp: 0 < 16 = TRUE. jae NOT taken. Predictor records: NOT taken."
    );
    for _ in 1..TRAIN_ROUNDS {
        sim.step();
    }
    assert_eq!(sim.train_round, TRAIN_ROUNDS);
    assert_eq!(sim.branch_predictor, BranchPredictorState::Trained);
    assert_eq!(sim.phase, SpectrePhase::Speculative { step: 0 });
    assert!(matches!(sim.registers.rdi, RegisterValue::Known(3)));
    let t = texts(&sim);
    assert_eq!(t[t.len() - 2], "TRAIN 8/8: x=3 (in-bounds). cmp: 3 < 16 = TRUE. jae NOT taken. Predictor records: NOT taken.");
}

#[test]
fn spectre_speculative_registers() {
    let mut sim = SpectreSim::new();
    sim.step_phase();
    sim.step_phase();
    assert_eq!(sim.phase, SpectrePhase::Speculative { step: 0 });
    sim.step();
    assert_eq!(sim.branch_predictor, BranchPredictorState::Mispredicting);
    assert!(matches!(sim.registers.rdi, RegisterValue::Known(256)));
    sim.step();
    sim.step();
    assert_eq!(speculative(&sim.registers.rax), format!("array1[256] = 0x{:02X} '{}'", b'S', 'S'));
    assert_eq!(
        texts(&sim).last().unwrap(),
        &format!("SPECULATION: movzx rax, [array1+256] \u{2014} reads SECRET 0x{:02X} '{}' (out-of-bounds access!)", b'S', 'S')
    );
    sim.step();
    assert_eq!(speculative(&sim.registers.rax), format!("0x{:02X} \u{d7} 512 = 0x{:04X}", b'S', (b'S' as u32) * 512));
    sim.step();
    assert_eq!(speculative(&sim.registers.rbx), "mem[array2 + 0xA600]");
    assert_eq!(sim.cache[0x53], CacheSlotState::Cached);
    sim.step();
    assert_eq!(sim.phase, SpectrePhase::Reload { step: 0 });
    assert!(matches!(sim.registers.rax, RegisterValue::Cleared));
    assert_eq!(sim.gadget[6].state, InstructionState::Faulted);
    assert_eq!(sim.gadget[9].state, InstructionState::Squashed);
    assert_eq!(sim.cache[0x53], CacheSlotState::Cached);
}

#[test]
fn spectre_full_run_recovers_secret() {
    let mut sim = SpectreSim::new();
    for _ in 0..TOTAL_STEPS {
        assert!(!sim.wants_quit());
        sim.advance();
        assert!(sim.narrative.len() <= MAX_NARRATIVE);
    }
    assert!(sim.wants_quit());
    assert!(sim.secret_revealed);
    for i in 0..256 {
        let c = if i == 0x53 { CACHE_HIT_CYCLES } else { CACHE_MISS_CYCLES };
        assert_eq!(sim.reload_timings[i], Some(c));
    }
    let t = texts(&sim);
    assert!(t.contains(&"TIMING: array2[0x53\u{d7}512] = 4 cycles  \u{2190} CACHE HIT! Secret = 0x53 ('S')".to_string()));
    assert_eq!(t[t.len() - 2], "Attack complete! Secret byte recovered: 0x53 ('S')");
}

#[test]
fn spectre_labels() {
    assert_eq!(SpectrePhase::Train { round: 3 }.label(), "TRAIN  (branch predictor training \u{2014} 3/8 rounds)");
    assert_eq!(SpectrePhase::Speculative { step: 5 }.label(), "SPECULATIVE EXECUTION  (step 5/5)");
    let sim = SpectreSim::new();
    assert_eq!(sim.name(), "Spectre Variant 1");
    assert_eq!(sim.cve(), "CVE-2017-5753");
}

#[test]
fn spectre_reset() {
    let mut sim = SpectreSim::new();
    for _ in 0..12 {
        sim.step();
    }
    sim.reset();
    assert_eq!(sim.phase, SpectrePhase::Setup);
    assert_eq!(sim.train_round, 0);
    assert_eq!(sim.branch_predictor, BranchPredictorState::Untrained);
}
