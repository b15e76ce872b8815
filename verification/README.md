# elephc back-end pieces, verified

Assembly-emitting parts of the elephc PHP compiler back end, written in Verus.

- `codegen::emit` — the `Emitter` (a listing of lines for one target) and the
  text it renders to. Every emitter's contract gives the exact lines it appends.
- `codegen::abi`, `codegen::text`, `codegen::platform` — calling-convention
  helpers, integer rendering, targets.
- `codegen::runtime`, `codegen_support::runtime` — the runtime helper emitters
  (arrays, strings, fibers, generators, output buffering, I/O filters, objects,
  system queries); each module proves that its emitters only append.
- `codegen::stmt::control_flow::foreach::iterator` — the choice of Iterator
  dispatch target, with interface extension proved reflexive and transitive.
- `codegen_ir` — the IR backend's error type, its entry point, the lowering
  decisions made from operand and declaration types (equality lowering, extern
  type validation, aggregate builtin checks) and the emission helpers that depend
  on the target alone.
- `explode_prelude` — when the three-argument `explode` prelude is prepended.
- `types` — the PHP types the code generator dispatches on, with a structural
  equality proved to be an equivalence.

`tests/` runs the emitters on every target and checks the rendered text.
