//! The menu: the catalog of simulations with their mitigations, and the
//! cursor over the simulations and over a simulation's mitigations.

use vstd::prelude::*;

verus! {

/// One way to run a simulation, with or without a mitigation.
pub struct MitigationDescriptor {
    pub name: &'static str,
    pub description: &'static str,
}

/// A mitigation entry with its texts as characters.
pub struct MitigationView {
    pub name: Seq<char>,
    pub description: Seq<char>,
}

impl View for MitigationDescriptor {
    type V = MitigationView;

    open spec fn view(&self) -> MitigationView {
        MitigationView { name: self.name@, description: self.description@ }
    }
}

/// One simulation of the menu, with the mitigations it can be run with.
pub struct SimDescriptor {
    pub name: &'static str,
    pub cve: &'static str,
    pub description: &'static str,
    pub mitigations: Vec<MitigationDescriptor>,
}

/// A menu entry with its texts as characters.
pub struct SimDescriptorView {
    pub name: Seq<char>,
    pub cve: Seq<char>,
    pub description: Seq<char>,
    pub mitigations: Seq<MitigationView>,
}

impl View for SimDescriptor {
    type V = SimDescriptorView;

    open spec fn view(&self) -> SimDescriptorView {
        SimDescriptorView {
            name: self.name@,
            cve: self.cve@,
            description: self.description@,
            mitigations: self.mitigations@.map_values(|m: MitigationDescriptor| m@),
        }
    }
}

/// The simulation that a menu choice starts.
#[derive(Clone, Copy, Debug, PartialEq, Eq, Structural)]
pub enum SimulationKind {
    Meltdown,
    Spectre,
    SpectreRetpoline,
}

/// The menu's entries, in order.
pub open spec fn catalog() -> Seq<SimDescriptorView> {
    seq![
        SimDescriptorView {
            name: "Meltdown"@,
            cve: "CVE-2017-5754"@,
            description: "Exploits out-of-order execution past a page fault to read kernel memory from user space. Affects most pre-2018 Intel CPUs."@,
            mitigations: seq![
                MitigationView {
                    name: "None"@,
                    description: "Run the simulation without mitigations applied \u{2014} observe the full out-of-order attack."@,
                },
            ],
        },
        SimDescriptorView {
            name: "Spectre Variant 1"@,
            cve: "CVE-2017-5753"@,
            description: "Exploits speculative execution past a mispredicted bounds check to leak memory across security boundaries. Affects nearly all modern CPUs."@,
            mitigations: seq![
                MitigationView {
                    name: "None"@,
                    description: "Run the vulnerable Spectre gadget without mitigations \u{2014} observe the full Bounds Check Bypass attack and successful cache-timing secret recovery."@,
                },
                MitigationView {
                    name: "RETPOLINE"@,
                    description: "Return Trampoline (CVE-2017-5715) \u{2014} replaces indirect branches with a return trampoline that forces speculative execution into a safe pause/lfence loop. The RSB (Return Stack Buffer) overrides the poisoned BTB (Branch Target Buffer), preventing attacker-controlled speculation. Designed by Google (2018)."@,
                },
            ],
        },
    ]
}

/// The cursor one entry up from `selected`, staying on the first entry.
pub open spec fn cursor_up(selected: int) -> int {
    if selected > 0 {
        selected - 1
    } else {
        selected
    }
}

/// The cursor one entry down from `selected` in a list of `count` entries,
/// staying on the last entry.
pub open spec fn cursor_down(selected: int, count: int) -> int {
    if selected < count - 1 {
        selected + 1
    } else {
        selected
    }
}

/// The number of simulations in the menu.
pub const SIMULATION_COUNT: usize = 2;

/// The menu's entries.
pub fn simulation_catalog() -> (c: Vec<SimDescriptor>)
    ensures
        c@.map_values(|d: SimDescriptor| d@) == catalog(),
        c@.len() == SIMULATION_COUNT,
{
    let c = vec![
        SimDescriptor {
            name: "Meltdown",
            cve: "CVE-2017-5754",
            description: "Exploits out-of-order execution past a page fault to read kernel memory from user space. Affects most pre-2018 Intel CPUs.",
            mitigations: vec![
                MitigationDescriptor {
                    name: "None",
                    description: "Run the simulation without mitigations applied \u{2014} observe the full out-of-order attack.",
                },
            ],
        },
        SimDescriptor {
            name: "Spectre Variant 1",
            cve: "CVE-2017-5753",
            description: "Exploits speculative execution past a mispredicted bounds check to leak memory across security boundaries. Affects nearly all modern CPUs.",
            mitigations: vec![
                MitigationDescriptor {
                    name: "None",
                    description: "Run the vulnerable Spectre gadget without mitigations \u{2014} observe the full Bounds Check Bypass attack and successful cache-timing secret recovery.",
                },
                MitigationDescriptor {
                    name: "RETPOLINE",
                    description: "Return Trampoline (CVE-2017-5715) \u{2014} replaces indirect branches with a return trampoline that forces speculative execution into a safe pause/lfence loop. The RSB (Return Stack Buffer) overrides the poisoned BTB (Branch Target Buffer), preventing attacker-controlled speculation. Designed by Google (2018).",
                },
            ],
        },
    ];
    assert(c@[0].mitigations@.map_values(|m: MitigationDescriptor| m@) =~= catalog()[0].mitigations);
    assert(c@[1].mitigations@.map_values(|m: MitigationDescriptor| m@) =~= catalog()[1].mitigations);
    assert(c@.map_values(|d: SimDescriptor| d@) =~= catalog());
    c
}

/// The cursor over the menu's simulations.
pub struct SplashState {
    pub selected: usize,
}

impl SplashState {
    /// The cursor on the first simulation.
    pub fn new() -> (s: Self)
        ensures
            s.selected == 0,
    {
        SplashState { selected: 0 }
    }

    /// Moves the cursor one entry up, staying on the first entry.
    pub fn move_up(&mut self)
        ensures
            final(self).selected == cursor_up(old(self).selected as int),
    {
        if self.selected > 0 {
            self.selected -= 1;
        }
    }

    /// Moves the cursor one entry down, staying on the last entry.
    pub fn move_down(&mut self)
        ensures
            final(self).selected == cursor_down(old(self).selected as int, catalog().len() as int),
    {
        let entries = simulation_catalog();
        if self.selected < entries.len() - 1 {
            self.selected += 1;
        }
    }
}

/// The cursor over the mitigations of simulation `sim_idx`.
pub struct MitigationState {
    pub sim_idx: usize,
    pub selected: usize,
}

/// How many mitigations simulation `sim_idx` offers.
pub open spec fn mitigation_count(sim_idx: int) -> int {
    catalog()[sim_idx].mitigations.len() as int
}

impl MitigationState {
    /// The cursor on the first mitigation of simulation `sim_idx`.
    pub fn new(sim_idx: usize) -> (s: Self)
        ensures
            s.sim_idx == sim_idx,
            s.selected == 0,
    {
        MitigationState { sim_idx, selected: 0 }
    }

    /// Moves the cursor one entry up, staying on the first entry.
    pub fn move_up(&mut self)
        ensures
            final(self).sim_idx == old(self).sim_idx,
            final(self).selected == cursor_up(old(self).selected as int),
    {
        if self.selected > 0 {
            self.selected -= 1;
        }
    }

    /// Moves the cursor one entry down, staying on the last entry.
    pub fn move_down(&mut self)
        requires
            old(self).sim_idx < SIMULATION_COUNT,
        ensures
            final(self).sim_idx == old(self).sim_idx,
            final(self).selected == cursor_down(
                old(self).selected as int,
                mitigation_count(old(self).sim_idx as int),
            ),
    {
        let entries = simulation_catalog();
        proof {
            assert(entries@[self.sim_idx as int]@ == catalog()[self.sim_idx as int]);
        }
        let max: usize = entries[self.sim_idx].mitigations.len().saturating_sub(1);
        if self.selected < max {
            self.selected += 1;
        }
    }

    /// Which simulation launching this choice starts: Meltdown has one way to
    /// run; Spectre runs unmitigated unless its second entry, RETPOLINE, is chosen.
    pub fn selected_simulation(&self) -> (k: SimulationKind)
        requires
            self.sim_idx < SIMULATION_COUNT,
        ensures
            self.sim_idx == 0 ==> k == SimulationKind::Meltdown,
            self.sim_idx == 1 && self.selected == 1 ==> k == SimulationKind::SpectreRetpoline,
            self.sim_idx == 1 && self.selected != 1 ==> k == SimulationKind::Spectre,
    {
        if self.sim_idx == 0 {
            SimulationKind::Meltdown
        } else if self.selected == 1 {
            SimulationKind::SpectreRetpoline
        } else {
            SimulationKind::Spectre
        }
    }
}

/// The cursor never leaves a non-empty list: moving it up or down from an
/// entry of the list lands on an entry of the list.
pub proof fn lemma_cursor_stays_in_list(selected: int, count: int)
    requires
        0 <= selected < count,
    ensures
        0 <= cursor_up(selected) < count,
        0 <= cursor_down(selected, count) < count,
{
}

/// Moving the cursor down and then up returns to the same entry, unless it
/// started on the last entry; moving up and then down returns to the same
/// entry, unless it started on the first.
pub proof fn lemma_cursor_moves_undo(selected: int, count: int)
    requires
        0 <= selected < count,
    ensures
        selected < count - 1 ==> cursor_up(cursor_down(selected, count)) == selected,
        selected > 0 ==> cursor_down(cursor_up(selected), count) == selected,
{
}

/// Each simulation of the menu offers at least one way to run it, and every
/// mitigation choice launches a simulation of that entry.
pub proof fn lemma_every_simulation_runs()
    ensures
        forall|i: int| 0 <= i < SIMULATION_COUNT ==> #[trigger] mitigation_count(i) >= 1,
        catalog().len() == SIMULATION_COUNT,
{
}

} // verus!
