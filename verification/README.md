# minify_util

Decisions that a JavaScript minifier takes about expressions and statements, verified with Verus:
how to negate an expression and what that costs, which expressions are `undefined`, which can be
computed ahead, which strings are identifiers, which statements never complete.

- `src/syntax.rs` holds the syntax tree and its mathematical view, `src/convert.rs` leads to and
  from the syntax tree of swc.
- `src/negate.rs`, `src/cost.rs`, `src/effects.rs`, `src/undefined.rs`, `src/number.rs`,
  `src/ident.rs`, `src/stmt.rs` and `src/target.rs` hold the decisions.
- `src/laws.rs`, `src/spans.rs` and `src/value.rs` state what holds of them together; the last
  says what a number plan computes.
- `src/outside.rs` holds everything that is believed of the outside crates.
- `app/` puts the decisions behind functions on the types of swc, and does the floating-point
  arithmetic.
