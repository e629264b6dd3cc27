# vaspsetup

A terminal assistant that prepares VASP calculations (single point,
optimisation, frequencies, Bader, PDOS, charge density, orbitals,
transition states) and submits them to an SGE cluster.

## Layout

- `src/` — the library, verified with Verus: text and number handling,
  the INCAR parameter table, the screen state machines and the flow
  between screens, job script rendering and `qsub` reply parsing, the
  interpreter and helper-reply checks, and the lines each screen shows.
  Laws of the library stand there as public proof functions (`lemma_*`).
- `app/` — the program around it: terminal setup and the event loop,
  drawing the library's lines with ratatui, reading and writing the
  configuration file, running the Python helper and `qsub`.
- `tests/` — tests of the library on concrete values.

Cluster settings live in `~/.vaspsetup/config.json`, created with defaults
on first run.
