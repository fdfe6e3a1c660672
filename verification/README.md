# astro_tfc

Verified core of an Earth–Moon transfer engine built on the circular
restricted three-body problem, the L1 invariant manifolds and the Theory of
Functional Connections.

* `src/` — the library, verified with Verus. It holds the parts of the engine
  that do not compute in floating point:
  * `ephemeris::spice` — SPICE kernel configuration, the context's loaded
    state, `~` expansion of the kernel directory (through `shellexpand`), and
    the guard every query passes, the order of kernel loading and the law
    that only a completed load sets the loaded flag; `ephemeris::spice::naif_ids` — NAIF codes.
  * `ephemeris::bodies` — body names to NAIF codes, the analytical bodies, and
    the choice of SPICE or the analytical model for each body and mode.
  * `ephemeris::config`, `ephemeris::validation` — ephemeris modes and the
    strategy kinds of the reference missions.
  * `integration` — the Dormand–Prince 8(7) tableau as exact ratios, with its
    consistency conditions proved.
  * `manifold` — manifold branches, their sense of time and starting realm.
  * `tfc` — Chebyshev basis order, coefficient fingerprint, and the end-point
    cache, which serves only the coefficient vector it was filled for.
  * `mission` — the order in which the six mission stages may run.
* `tests/` — tests of the library.
* `app/` — the floating-point dynamics, integrators, solvers, the CSPICE
  calls and the Python bindings, built around the library.
