use cpu_vuln_sim::controls::{
    handle_key, mitigation_command, running_command, splash_command, Action, Command, Key, Screen,
};
use cpu_vuln_sim::sim::{
    probed_count, push_narrative, timed_at_count, NarrativeEntry, NarrativeStyle, RegisterValue,
    MAX_NARRATIVE,
};
use cpu_vuln_sim::splash::{simulation_catalog, MitigationState, SimulationKind, SplashState};
use cpu_vuln_sim::text::{push_address, push_char, push_decimal, push_hex};
use std::collections::VecDeque;

#[test]
fn hex_matches_std_format() {
    for v in [0u64, 1, 9, 10, 15, 16, 0x41, 0xFF, 0x100, 0xA600, 0xFFFF, 0x1_0000, u64::MAX] {
        for w in 0..20usize {
            let mut s = String::new();
            push_hex(&mut s, v, w, true);
            assert_eq!(s, format!("{:0w$X}", v, w = w));
            let mut s = String::new();
            push_hex(&mut s, v, w, false);
            assert_eq!(s, format!("{:0w$x}", v, w = w));
        }
    }
}

#[test]
fn decimal_and_address_match_std_format() {
    for v in [0u64, 7, 10, 99, 100, 256, 4096, 123456789, u64::MAX] {
        let mut s = String::from("n=");
        push_decimal(&mut s, v);
        assert_eq!(s, format!("n={v}"));
        let mut a = String::new();
        push_address(&mut a, v);
        assert_eq!(a, format!("{v:#018x}"));
    }
}

#[test]
fn push_char_appends_the_character() {
    let mut s = String::from("x");
    push_char(&mut s, 'A');
    push_char(&mut s, '\u{e9}');
    assert_eq!(s, "xA\u{e9}");
    assert_eq!(s.chars().count(), 3);
}

#[test]
fn register_labels() {
    assert_eq!(RegisterValue::Known(0x1234).label(), "0x0000000000001234");
    assert_eq!(RegisterValue::Known(0x1234).label(), format!("0x{:016x}", 0x1234u64));
    assert_eq!(RegisterValue::Speculative("??? \u{d7} 4096".to_string()).label(), "??? \u{d7} 4096");
    assert_eq!(RegisterValue::Cleared.label(), "\u{2014}");
}

#[test]
fn narrative_keeps_the_last_sixty_lines() {
    let mut q: VecDeque<NarrativeEntry> = VecDeque::new();
    for i in 0..100 {
        push_narrative(&mut q, format!("line {i}"), NarrativeStyle::Info);
        assert!(q.len() <= MAX_NARRATIVE);
    }
    assert_eq!(q.len(), MAX_NARRATIVE);
    assert_eq!(q.front().unwrap().text, "line 40");
    assert_eq!(q.back().unwrap().text, "line 99");
}

#[test]
fn probe_counts() {
    let mut t = [None; 256];
    assert_eq!(probed_count(&t), 0);
    t[3] = Some(4);
    t[7] = Some(200);
    t[9] = Some(200);
    assert_eq!(probed_count(&t), 3);
    assert_eq!(timed_at_count(&t, 200), 2);
    assert_eq!(timed_at_count(&t, 4), 1);
}

#[test]
fn splash_cursor_clamps() {
    let mut s = SplashState::new();
    assert_eq!(s.selected, 0);
    s.move_up();
    assert_eq!(s.selected, 0);
    s.move_down();
    assert_eq!(s.selected, 1);
    s.move_down();
    assert_eq!(s.selected, 1);
    s.move_up();
    assert_eq!(s.selected, 0);
}

#[test]
fn mitigation_cursor_and_launch_choice() {
    let mut m = MitigationState::new(0);
    m.move_down();
    assert_eq!(m.selected, 0);
    assert_eq!(m.selected_simulation(), SimulationKind::Meltdown);
    let mut m = MitigationState::new(1);
    assert_eq!(m.selected_simulation(), SimulationKind::Spectre);
    m.move_down();
    assert_eq!(m.selected, 1);
    assert_eq!(m.selected_simulation(), SimulationKind::SpectreRetpoline);
    m.move_down();
    assert_eq!(m.selected, 1);
    m.move_up();
    m.move_up();
    assert_eq!(m.selected, 0);
}

#[test]
fn catalog_contents() {
    let c = simulation_catalog();
    assert_eq!(c.len(), 2);
    assert_eq!(c[0].name, "Meltdown");
    assert_eq!(c[0].cve, "CVE-2017-5754");
    assert_eq!(c[0].mitigations.len(), 1);
    assert_eq!(c[1].name, "Spectre Variant 1");
    assert_eq!(c[1].mitigations[1].name, "RETPOLINE");
}

#[test]
fn key_bindings() {
    assert_eq!(splash_command(Key::Up), Command::MoveUp);
    assert_eq!(splash_command(Key::Down), Command::MoveDown);
    assert_eq!(splash_command(Key::Enter), Command::Launch);
    assert_eq!(splash_command(Key::Esc), Command::Quit);
    assert_eq!(splash_command(Key::Char('q')), Command::Quit);
    assert_eq!(splash_command(Key::Char('Q')), Command::Quit);
    assert_eq!(running_command(Key::Char('Q')), Command::Quit);
    assert_eq!(mitigation_command(Key::Char('Q')), Command::Quit);
    assert_eq!(splash_command(Key::Char('x')), Command::Ignore);
    assert_eq!(splash_command(Key::Char('M')), Command::Mitigations);
    assert_eq!(running_command(Key::Char('m')), Command::Ignore);
    assert_eq!(running_command(Key::Char('q')), Command::Quit);
    assert_eq!(running_command(Key::Esc), Command::Back);
    assert_eq!(running_command(Key::Char('B')), Command::Back);
    assert_eq!(running_command(Key::Char(' ')), Command::Advance);
    assert_eq!(running_command(Key::Enter), Command::Advance);
    assert_eq!(running_command(Key::Char('F')), Command::FastForward);
    assert_eq!(running_command(Key::Char('r')), Command::Reset);
    assert_eq!(running_command(Key::Up), Command::Ignore);
    assert_eq!(mitigation_command(Key::Enter), Command::Launch);
    assert_eq!(mitigation_command(Key::Esc), Command::Back);
    assert_eq!(mitigation_command(Key::Char('b')), Command::Back);
    assert_eq!(mitigation_command(Key::Char('q')), Command::Quit);
    assert_eq!(mitigation_command(Key::Down), Command::MoveDown);
}

#[test]
fn screen_flow_from_menu_to_simulation_and_back() {
    let mut screen = Screen::Splash(SplashState::new());
    assert_eq!(handle_key(&mut screen, Key::Enter), Action::Start(SimulationKind::Meltdown));
    assert!(matches!(screen, Screen::Running));
    assert_eq!(handle_key(&mut screen, Key::Char('b')), Action::Nothing);
    assert!(matches!(screen, Screen::Splash(SplashState { selected: 0 })));
    assert_eq!(handle_key(&mut screen, Key::Down), Action::Nothing);
    assert!(matches!(screen, Screen::Splash(SplashState { selected: 1 })));
    assert_eq!(handle_key(&mut screen, Key::Enter), Action::Start(SimulationKind::Spectre));
    assert!(matches!(screen, Screen::Running));
    assert_eq!(handle_key(&mut screen, Key::Char(' ')), Action::Advance);
    assert_eq!(handle_key(&mut screen, Key::Char('F')), Action::FastForward);
    assert_eq!(handle_key(&mut screen, Key::Char('r')), Action::Reset);
    assert_eq!(handle_key(&mut screen, Key::Esc), Action::Nothing);
    assert!(matches!(screen, Screen::Splash(SplashState { selected: 0 })));
    assert_eq!(handle_key(&mut screen, Key::Char('Q')), Action::Quit);
}

#[test]
fn mitigation_menu_reached_with_m() {
    let mut screen = Screen::Splash(SplashState { selected: 1 });
    assert_eq!(handle_key(&mut screen, Key::Char('m')), Action::Nothing);
    assert!(matches!(screen, Screen::Mitigation(MitigationState { sim_idx: 1, selected: 0 })));
    assert_eq!(handle_key(&mut screen, Key::Down), Action::Nothing);
    assert_eq!(handle_key(&mut screen, Key::Enter), Action::Start(SimulationKind::SpectreRetpoline));
    assert!(matches!(screen, Screen::Running));
}

#[test]
fn mitigation_back_returns_to_that_simulation() {
    let mut screen = Screen::Mitigation(MitigationState::new(1));
    assert_eq!(handle_key(&mut screen, Key::Char('b')), Action::Nothing);
    assert!(matches!(screen, Screen::Splash(SplashState { selected: 1 })));
    let mut screen = Screen::Mitigation(MitigationState::new(0));
    assert_eq!(handle_key(&mut screen, Key::Enter), Action::Start(SimulationKind::Meltdown));
    let mut screen = Screen::Running;
    assert_eq!(handle_key(&mut screen, Key::Char('q')), Action::Quit);
}
