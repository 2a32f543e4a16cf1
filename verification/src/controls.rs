//! The key bindings: which command a key press gives on the menu and while a
//! simulation runs.

use vstd::prelude::*;

use crate::splash::{
    cursor_down, cursor_up, catalog, mitigation_count, MitigationState, SimulationKind, SplashState,
    SIMULATION_COUNT,
};

verus! {

/// A key press, as far as the bindings tell keys apart.
#[derive(Clone, Copy, Debug, PartialEq, Eq, Structural)]
pub enum Key {
    Up,
    Down,
    Enter,
    Esc,
    Char(char),
    Other,
}

/// What a key press asks for.
#[derive(Clone, Copy, Debug, PartialEq, Eq, Structural)]
pub enum Command {
    /// Move the menu cursor up.
    MoveUp,
    /// Move the menu cursor down.
    MoveDown,
    /// Start the simulation under the menu cursor.
    Launch,
    /// Open the mitigation menu of the simulation under the menu cursor.
    Mitigations,
    /// Leave the program.
    Quit,
    /// Leave the running simulation for the menu.
    Back,
    /// One step of the running simulation.
    Advance,
    /// Run to the end of the current phase.
    FastForward,
    /// Restart the running simulation.
    Reset,
    /// Nothing.
    Ignore,
}

/// The bindings on the menu: arrows move, Enter launches the simulation under
/// the cursor without a mitigation, `m`/`M` opens its mitigations, `q`/`Q` or
/// Esc quit.
pub open spec fn splash_binding(key: Key) -> Command {
    match key {
        Key::Up => Command::MoveUp,
        Key::Down => Command::MoveDown,
        Key::Enter => Command::Launch,
        Key::Esc => Command::Quit,
        Key::Char(c) => if c == 'q' || c == 'Q' {
            Command::Quit
        } else if c == 'm' || c == 'M' {
            Command::Mitigations
        } else {
            Command::Ignore
        },
        Key::Other => Command::Ignore,
    }
}

/// The bindings on a simulation's mitigation menu: arrows move, Enter
/// launches, `b` or Esc go back to the simulations, `q` quits (letters in
/// either case).
pub open spec fn mitigation_binding(key: Key) -> Command {
    match key {
        Key::Up => Command::MoveUp,
        Key::Down => Command::MoveDown,
        Key::Enter => Command::Launch,
        Key::Esc => Command::Back,
        Key::Char(c) => if c == 'q' || c == 'Q' {
            Command::Quit
        } else if c == 'b' || c == 'B' {
            Command::Back
        } else {
            Command::Ignore
        },
        Key::Other => Command::Ignore,
    }
}

/// The bindings while a simulation runs: `q` quits; `b` or Esc go back to the
/// menu; Enter or space step; `f` fast-forwards; `r` restarts (letters in
/// either case).
pub open spec fn running_binding(key: Key) -> Command {
    match key {
        Key::Esc => Command::Back,
        Key::Enter => Command::Advance,
        Key::Char(c) => if c == 'q' || c == 'Q' {
            Command::Quit
        } else if c == 'b' || c == 'B' {
            Command::Back
        } else if c == ' ' {
            Command::Advance
        } else if c == 'f' || c == 'F' {
            Command::FastForward
        } else if c == 'r' || c == 'R' {
            Command::Reset
        } else {
            Command::Ignore
        },
        _ => Command::Ignore,
    }
}

/// The command that a key press gives on the menu.
pub fn splash_command(key: Key) -> (c: Command)
    ensures
        c == splash_binding(key),
{
    match key {
        Key::Up => Command::MoveUp,
        Key::Down => Command::MoveDown,
        Key::Enter => Command::Launch,
        Key::Char('q') | Key::Char('Q') | Key::Esc => Command::Quit,
        Key::Char('m') | Key::Char('M') => Command::Mitigations,
        _ => Command::Ignore,
    }
}

/// The command that a key press gives on a mitigation menu.
pub fn mitigation_command(key: Key) -> (c: Command)
    ensures
        c == mitigation_binding(key),
{
    match key {
        Key::Up => Command::MoveUp,
        Key::Down => Command::MoveDown,
        Key::Enter => Command::Launch,
        Key::Char('q') | Key::Char('Q') => Command::Quit,
        Key::Char('b') | Key::Char('B') | Key::Esc => Command::Back,
        _ => Command::Ignore,
    }
}

/// The command that a key press gives while a simulation runs.
pub fn running_command(key: Key) -> (c: Command)
    ensures
        c == running_binding(key),
{
    match key {
        Key::Char('q') | Key::Char('Q') => Command::Quit,
        Key::Char('b') | Key::Char('B') | Key::Esc => Command::Back,
        Key::Enter | Key::Char(' ') => Command::Advance,
        Key::Char('f') | Key::Char('F') => Command::FastForward,
        Key::Char('r') | Key::Char('R') => Command::Reset,
        _ => Command::Ignore,
    }
}

/// `q` leaves the program wherever it is pressed, in either case, and it is
/// the only key that does so while a simulation runs.
pub proof fn lemma_q_always_quits(key: Key)
    ensures
        key == Key::Char('q') || key == Key::Char('Q') ==> {
            &&& splash_binding(key) == Command::Quit
            &&& mitigation_binding(key) == Command::Quit
            &&& running_binding(key) == Command::Quit
        },
        running_binding(key) == Command::Quit ==> key == Key::Char('q') || key == Key::Char('Q'),
        mitigation_binding(key) == Command::Quit ==> key == Key::Char('q') || key == Key::Char('Q'),
{
}

/// The menus' commands and the running simulation's commands do not mix: a
/// menu never steps, fast-forwards or restarts, the first menu has nothing to
/// go back to, only the first menu opens a mitigation menu, and a running
/// simulation never moves a menu cursor or launches.
pub proof fn lemma_bindings_apart(key: Key)
    ensures
        splash_binding(key) != Command::Advance && splash_binding(key) != Command::FastForward
            && splash_binding(key) != Command::Reset && splash_binding(key) != Command::Back,
        mitigation_binding(key) != Command::Advance && mitigation_binding(key)
            != Command::FastForward && mitigation_binding(key) != Command::Reset,
        running_binding(key) != Command::MoveUp && running_binding(key) != Command::MoveDown
            && running_binding(key) != Command::Launch,
        mitigation_binding(key) != Command::Mitigations && running_binding(key)
            != Command::Mitigations,
{
}

/// Which screen the program shows.
pub enum Screen {
    /// The menu of simulations.
    Splash(SplashState),
    /// The mitigations of one simulation.
    Mitigation(MitigationState),
    /// A simulation is running.
    Running,
}

/// What the program has to do after a key press, besides changing screen.
#[derive(Clone, Copy, Debug, PartialEq, Eq, Structural)]
pub enum Action {
    /// Nothing more.
    Nothing,
    /// Leave the program.
    Quit,
    /// Start a new simulation of this kind.
    Start(SimulationKind),
    /// One step of the running simulation.
    Advance,
    /// Run the running simulation to the end of its phase.
    FastForward,
    /// Restart the running simulation.
    Reset,
}

/// Each menu's cursor stands on one of its entries.
pub open spec fn screen_wf(screen: Screen) -> bool {
    match screen {
        Screen::Splash(s) => s.selected < SIMULATION_COUNT,
        Screen::Mitigation(m) => m.sim_idx < SIMULATION_COUNT && m.selected < mitigation_count(
            m.sim_idx as int,
        ),
        Screen::Running => true,
    }
}

/// The simulation that mitigation `selected` of simulation `sim_idx` starts.
pub open spec fn chosen_simulation(sim_idx: int, selected: int) -> SimulationKind {
    if sim_idx == 0 {
        SimulationKind::Meltdown
    } else if selected == 1 {
        SimulationKind::SpectreRetpoline
    } else {
        SimulationKind::Spectre
    }
}

/// The screen and action after a key press: on the menu, the arrows move
/// the cursor, Enter starts the simulation under it with no mitigation, and
/// `m` opens that simulation's mitigations; there, the arrows
/// move, Enter starts the chosen simulation and Back returns to the menu on
/// that simulation; while a simulation runs, Back returns to a fresh menu and
/// the other commands go to the simulation. Quit leaves from every screen.
pub open spec fn screen_step(screen: Screen, key: Key) -> (Screen, Action) {
    match screen {
        Screen::Splash(s) => match splash_binding(key) {
            Command::MoveUp => (
                Screen::Splash(SplashState { selected: cursor_up(s.selected as int) as usize }),
                Action::Nothing,
            ),
            Command::MoveDown => (
                Screen::Splash(
                    SplashState {
                        selected: cursor_down(s.selected as int, catalog().len() as int) as usize,
                    },
                ),
                Action::Nothing,
            ),
            Command::Launch => (
                Screen::Running,
                Action::Start(chosen_simulation(s.selected as int, 0)),
            ),
            Command::Mitigations => (
                Screen::Mitigation(MitigationState { sim_idx: s.selected, selected: 0 }),
                Action::Nothing,
            ),
            Command::Quit => (screen, Action::Quit),
            _ => (screen, Action::Nothing),
        },
        Screen::Mitigation(m) => match mitigation_binding(key) {
            Command::MoveUp => (
                Screen::Mitigation(
                    MitigationState { selected: cursor_up(m.selected as int) as usize, ..m },
                ),
                Action::Nothing,
            ),
            Command::MoveDown => (
                Screen::Mitigation(
                    MitigationState {
                        selected: cursor_down(
                            m.selected as int,
                            mitigation_count(m.sim_idx as int),
                        ) as usize,
                        ..m
                    },
                ),
                Action::Nothing,
            ),
            Command::Launch => (
                Screen::Running,
                Action::Start(chosen_simulation(m.sim_idx as int, m.selected as int)),
            ),
            Command::Back => (Screen::Splash(SplashState { selected: m.sim_idx }), Action::Nothing),
            Command::Quit => (screen, Action::Quit),
            _ => (screen, Action::Nothing),
        },
        Screen::Running => match running_binding(key) {
            Command::Quit => (screen, Action::Quit),
            Command::Back => (Screen::Splash(SplashState { selected: 0 }), Action::Nothing),
            Command::Advance => (screen, Action::Advance),
            Command::FastForward => (screen, Action::FastForward),
            Command::Reset => (screen, Action::Reset),
            _ => (screen, Action::Nothing),
        },
    }
}

/// Handles a key press: moves to the next screen and says what else to do.
pub fn handle_key(screen: &mut Screen, key: Key) -> (action: Action)
    requires
        screen_wf(*old(screen)),
    ensures
        (*final(screen), action) == screen_step(*old(screen), key),
        screen_wf(*final(screen)),
{
    proof {
        lemma_every_menu_nonempty();
    }
    match screen {
        Screen::Splash(s) => match splash_command(key) {
            Command::MoveUp => {
                s.move_up();
                Action::Nothing
            },
            Command::MoveDown => {
                s.move_down();
                Action::Nothing
            },
            Command::Launch => {
                let kind = MitigationState::new(s.selected).selected_simulation();
                *screen = Screen::Running;
                Action::Start(kind)
            },
            Command::Mitigations => {
                let sim_idx = s.selected;
                *screen = Screen::Mitigation(MitigationState::new(sim_idx));
                Action::Nothing
            },
            Command::Quit => Action::Quit,
            _ => Action::Nothing,
        },
        Screen::Mitigation(m) => match mitigation_command(key) {
            Command::MoveUp => {
                m.move_up();
                Action::Nothing
            },
            Command::MoveDown => {
                m.move_down();
                Action::Nothing
            },
            Command::Launch => {
                let kind = m.selected_simulation();
                *screen = Screen::Running;
                Action::Start(kind)
            },
            Command::Back => {
                let sim_idx = m.sim_idx;
                *screen = Screen::Splash(SplashState { selected: sim_idx });
                Action::Nothing
            },
            Command::Quit => Action::Quit,
            _ => Action::Nothing,
        },
        Screen::Running => match running_command(key) {
            Command::Quit => Action::Quit,
            Command::Back => {
                *screen = Screen::Splash(SplashState::new());
                Action::Nothing
            },
            Command::Advance => Action::Advance,
            Command::FastForward => Action::FastForward,
            Command::Reset => Action::Reset,
            _ => Action::Nothing,
        },
    }
}

proof fn lemma_every_menu_nonempty()
    ensures
        catalog().len() == SIMULATION_COUNT,
        forall|i: int| 0 <= i < SIMULATION_COUNT ==> #[trigger] mitigation_count(i) >= 1,
{
}

/// A simulation starts only on Enter, from one of the two menus: from the
/// simulation menu it is the simulation under the cursor with no mitigation,
/// from the mitigation menu it is the simulation with the chosen mitigation;
/// the running screen is entered only then.
pub proof fn lemma_start_only_on_launch(screen: Screen, key: Key, kind: SimulationKind)
    requires
        screen_wf(screen),
    ensures
        screen_step(screen, key).1 == Action::Start(kind) ==> key == Key::Enter,
        screen_step(screen, key).1 == Action::Start(kind) ==> (screen matches Screen::Splash(s)
            && kind == chosen_simulation(s.selected as int, 0)) || (screen matches Screen::Mitigation(m)
            && kind == chosen_simulation(m.sim_idx as int, m.selected as int)),
        (!(screen is Running) && screen_step(screen, key).0 is Running) ==> screen_step(
            screen,
            key,
        ).1 is Start,
{
}

/// Enter on the simulation menu launches the simulation under the cursor
/// without a mitigation: Meltdown on the first entry, unmitigated Spectre on
/// the second.
pub proof fn lemma_enter_launches_selected(s: SplashState)
    requires
        s.selected < SIMULATION_COUNT,
    ensures
        screen_step(Screen::Splash(s), Key::Enter) == (
            Screen::Running,
            Action::Start(chosen_simulation(s.selected as int, 0)),
        ),
        s.selected == 0 ==> chosen_simulation(s.selected as int, 0) == SimulationKind::Meltdown,
        s.selected == 1 ==> chosen_simulation(s.selected as int, 0) == SimulationKind::Spectre,
{
}

/// The screens' cursors always stand on an entry of their menu.
pub proof fn lemma_screen_stays_wf(screen: Screen, key: Key)
    requires
        screen_wf(screen),
    ensures
        screen_wf(screen_step(screen, key).0),
{
    lemma_every_menu_nonempty();
}

/// The upper-case form of an ASCII letter; any other character unchanged.
pub open spec fn ascii_upper(c: char) -> char {
    if 'a' <= c <= 'z' {
        ((c as u32) - 32) as char
    } else {
        c
    }
}

/// Letter keys mean the same in either case on every screen, and the running
/// screen answers the keys of the controls table: Enter or space step, `f`
/// fast-forwards, `r` restarts, `b` or Esc go back, `q` quits.
pub proof fn lemma_letters_in_either_case(c: char)
    requires
        'a' <= c <= 'z',
    ensures
        splash_binding(Key::Char(c)) == splash_binding(Key::Char(ascii_upper(c))),
        mitigation_binding(Key::Char(c)) == mitigation_binding(Key::Char(ascii_upper(c))),
        running_binding(Key::Char(c)) == running_binding(Key::Char(ascii_upper(c))),
        c == 'f' ==> running_binding(Key::Char(c)) == Command::FastForward,
        c == 'r' ==> running_binding(Key::Char(c)) == Command::Reset,
        c == 'b' ==> running_binding(Key::Char(c)) == Command::Back,
        c == 'q' ==> running_binding(Key::Char(c)) == Command::Quit,
        running_binding(Key::Enter) == Command::Advance,
        running_binding(Key::Char(' ')) == Command::Advance,
        running_binding(Key::Esc) == Command::Back,
        splash_binding(Key::Enter) == Command::Launch,
        splash_binding(Key::Esc) == Command::Quit,
        c == 'm' ==> splash_binding(Key::Char(c)) == Command::Mitigations,
        mitigation_binding(Key::Enter) == Command::Launch,
        mitigation_binding(Key::Esc) == Command::Back,
        c == 'b' ==> mitigation_binding(Key::Char(c)) == Command::Back,
{
    assert(('a' as u32) == 97 && ('z' as u32) == 122);
}

/// The selected entry of a menu screen, if it is one.
pub open spec fn menu_cursor(screen: Screen) -> int {
    match screen {
        Screen::Splash(s) => s.selected as int,
        Screen::Mitigation(m) => m.selected as int,
        Screen::Running => -1,
    }
}

/// The number of entries of a menu screen.
pub open spec fn menu_len(screen: Screen) -> int {
    match screen {
        Screen::Splash(s) => SIMULATION_COUNT as int,
        Screen::Mitigation(m) => mitigation_count(m.sim_idx as int),
        Screen::Running => 0,
    }
}

/// On either menu the arrow keys move the cursor one entry, staying inside
/// the list: Up goes to the entry above unless the cursor is on the first,
/// Down to the entry below unless it is on the last. The screen stays the same
/// menu (for the mitigation menu, of the same simulation) and nothing else happens.
pub proof fn lemma_arrows_move_cursor(screen: Screen)
    requires
        screen_wf(screen),
        !(screen is Running),
    ensures
        ({
            let up = screen_step(screen, Key::Up);
            &&& up.1 == Action::Nothing
            &&& menu_len(up.0) == menu_len(screen)
            &&& (screen is Splash ==> up.0 is Splash)
            &&& (screen matches Screen::Mitigation(m) ==> (up.0 matches Screen::Mitigation(m2)
                && m2.sim_idx == m.sim_idx))
            &&& (menu_cursor(screen) > 0 ==> menu_cursor(up.0) == menu_cursor(screen) - 1)
            &&& (menu_cursor(screen) == 0 ==> menu_cursor(up.0) == 0)
        }),
        ({
            let down = screen_step(screen, Key::Down);
            &&& down.1 == Action::Nothing
            &&& menu_len(down.0) == menu_len(screen)
            &&& (screen is Splash ==> down.0 is Splash)
            &&& (screen matches Screen::Mitigation(m) ==> (down.0 matches Screen::Mitigation(m2)
                && m2.sim_idx == m.sim_idx))
            &&& (menu_cursor(screen) + 1 < menu_len(screen) ==> menu_cursor(down.0) == menu_cursor(
                screen,
            ) + 1)
            &&& (menu_cursor(screen) + 1 == menu_len(screen) ==> menu_cursor(down.0)
                == menu_cursor(screen))
        }),
{
    lemma_every_menu_nonempty();
}

/// On either menu, Down then Up returns to the same entry unless the cursor
/// started on the last entry, and Up then Down returns to the same entry
/// unless it started on the first.
pub proof fn lemma_arrows_undo(screen: Screen)
    requires
        screen_wf(screen),
        !(screen is Running),
    ensures
        menu_cursor(screen) + 1 < menu_len(screen) ==> screen_step(
            screen_step(screen, Key::Down).0,
            Key::Up,
        ).0 == screen,
        menu_cursor(screen) > 0 ==> screen_step(screen_step(screen, Key::Up).0, Key::Down).0
            == screen,
{
    lemma_every_menu_nonempty();
}

} // verus!
