# selene

A flight-dynamics toolkit (trimming, linearization, simulation and modal
analysis of aircraft models, after Stevens & Lewis) whose integer and
structural logic is a library verified with Verus.

- `src/` — the verified library: interpolation-row selection for lookup
  tables, the shape rules of state-space models and their error messages,
  the trim set-up checks, the state-vector layouts of the fixed-wing models,
  the report order and classification of eigenmodes, the initial simplex of
  the optimizer, the recorded simulation history, and the first builder
  stages of the trim, linearization and simulation problems.
- `tests/` — tests of the library.
- `app/` — the program: the floating-point models, atmosphere, engines,
  aerodynamic tables, Runge-Kutta integration, finite-difference
  linearization, Nelder-Mead trimming (argmin), plotting (plotters) and the
  worked examples, calling the library for its decisions.
