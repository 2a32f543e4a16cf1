# cpu_vuln_sim

A terminal simulator of CPU speculative-execution attacks (Meltdown, Spectre
variant 1, and Spectre variant 2 blocked by RETPOLINE), with the simulations
written in Verus and proved against their specifications.

- `src/` is the verified library:
  - `text` formats numbers and addresses the way the display shows them;
  - `sim` holds the shared types (cache slots, pipeline states, registers, the
    bounded event log, the gadget listing) and one module per simulation. Each
    simulation has a mathematical view, a transition function `next` that
    `step` is proved to follow, a fast-forward that is proved to stop at the
    end of a phase, and proofs of what the attack shows: Meltdown and Spectre
    recover exactly the secret byte through the cache timings, RETPOLINE
    leaves every probe slot cold;
  - `splash` is the menu of simulations and mitigations;
  - `controls` maps key presses to commands and moves between the menu, the
    mitigation menu and the running simulation.
- `app/` is the terminal program around it: the event loop, the rendering with
  ratatui and crossterm, and the hand-off of actions to the running simulation.
- `tests/` runs the library on concrete scenarios.
