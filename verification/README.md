# vortex_rows

Scalar functions over columnar data, and the rules of a benchmark suite for them, as a Verus
library: what a function does stands in its contract, and the contract is proved.

- `src/` holds types, values and columns (`dtype`, `value`, `wide`, `array`, `mask`,
  `bits`), expressions
  and the laws of their evaluation (`expr`), the scalar functions and the machinery that runs row
  kernels around nulls (`scalar_fn`), statistics of columns (`stats`), and the benchmark suite
  (`bench`): tables, scripts, locations, mounts and storage, and random access patterns.
- `tests/` runs the library on concrete values.
- `app/` is the program around it: arguments, files, downloads, engines and floating point.

A column is modelled by its type and its cells, where a cell is a payload and whether it is valid.
Contracts say what a function does to that model. Laws that relate several functions are public
proof functions, beside the functions or in modules of their own, such as `expr/locality.rs`,
`scalar_fn/strict_rows.rs` and `bench/render_laws.rs`.

Calls into other crates go through small wrappers whose contracts are believed. Each of them says
above it what it claims of the function that it calls.
