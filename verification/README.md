# minitt

Mini-TT, a small dependently-typed lambda calculus: its evaluator, read-back, type
checker, pretty printer and the decisions of its interactive session, verified with
Verus. Every executable function in `src/` states what it returns in its contract,
over specification functions that define evaluation and checking with a step budget
(`fuel`); the functions without a budget require that the computation finishes.

Layout:

- `src/ast.rs`: expressions, values, closures, telescopes, case trees.
- `src/list.rs`: the persistent list and the sorted branch (name to entry) that the
  case trees and the typing context are made of, with its laws.
- `src/strings.rs`: comparing and ordering names.
- `src/eval.rs`: evaluation, instantiation, application, projection, levels.
- `src/equiv.rs`: structural equality of expressions and patterns.
- `src/check/`: read-back to normal forms, subtyping, `check`, `checkI`, `checkT`,
  `checkD`, the invariant that every check keeps (`state_wf.rs`), the proofs that
  the answers do not depend on the step budget once they are found (`fuel.rs`), and
  the documented rules of checking stated as laws (`rules.rs`).
- `src/parser.rs`: the concrete syntax as a parsing expression grammar over
  characters (`parse_s`), and `parse_str`, proved to follow it.
- `src/round_trip.rs`: what the printer writes of names, `0`, `1`, universes, projections,
  applications, pairs, lambdas, Pi and Sigma types, constructors and of `let` and
  `rec` declarations over them, the parser reads back.
- `src/pretty.rs`: how expressions, values, normal forms and errors are printed.
- `src/repl.rs`: reading the lines of the interactive session, the step from a
  command and a state to the next state and an action, completion, hints, and what
  the session shows.
- `app/`: the `minittc` command line and the interactive session (files, terminal,
  history).
- `tests/`: the test suite.

Application is right-associative (`f a b` is `f (a b)`), `A -> B` and `A * B`
(also `A \times B`, `A × B`) are the non-dependent function and pair types, and
`--` starts a comment that runs to the end of the line. `parse_str` reads the
expression at the start of its input; the text after it is not read.
