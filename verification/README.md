# crystal_sim

Electrons moving through a lattice of ions in a box, simulated collision by
collision. The physics (positions, velocities and times as doubles) lives in
`app/`, a WebAssembly library; every discrete decision it makes is taken by the
verified library in `src/`:

- `sign`: the sign of a double, as comparisons with zero see it.
- `border`: the borders of the box, which borders an electron is tested
  against, and what a border does to an electron that reaches it.
- `ion_region`: in which part of the plane ions are tested against an electron.
- `selection`: each electron's earliest collision and the next collision of all,
  over integer keys that order the times.
- `counters`: how many electrons crossed the box to either side.
- `order`: the coordinate-by-coordinate order of points.
