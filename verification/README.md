# bitwuzla

Rust bindings for the Bitwuzla SMT solver, split in two crates.

- `src/` is the library `bitwuzla`, verified with Verus. It holds every
  decision of the bindings that is made on plain values:
  - `solution`: model values as `0`/`1`/`x` bit strings (`BVSolution`),
    disambiguation, decoding to `u64` and `bool`;
  - `search`: the state machine that collects up to `limit` distinct
    solutions of a term inside one pushed context level, excluding each
    solution before the next check, and pops that level at the end;
  - `slice`, `sort`: the range check of bitvector slicing and the width
    checks of sort creation;
  - `option`, `options`: option values and the solver configuration
    (`BitwuzlaOptions`), kept as the ordered list of settings it applies;
  - `fp`, `fp_literal`: floating-point formats, symbol validity, and the
    decoding of constant floating-point literals into IEEE 754 bit patterns;
  - `capture`: what to make of solver output captured in a file;
  - `lambda`: the operand layout of lambda terms and applications;
  - `result`, `rounding_mode`: plain enums of the API.
- `app/` is the binding layer proper: the solver instance, terms (`BV`,
  `Bool`, `Array`, `FP`, `Lambda`), sorts and rounding-mode terms. Every call
  into `bitwuzla_sys` and `libc` is an `unsafe` foreign call and stands here;
  each one takes its arguments from, and hands its results to, the library.
- `tests/` runs the library on concrete values.
