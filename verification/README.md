# corophage

Algebraic effects for Rust: a computation yields *effects*, and *handlers*,
one per effect type, answer them by resuming the computation with a value or
by cancelling it.

The library in `src/` is verified with Verus:

- `coproduct`, `hlist`: open sums of types with type-level indices (`Here`,
  `There<I>`), injection, extraction and removal of a position; heterogeneous
  lists and their concatenation.
- `effect`: effects, the coproduct of their resume types, and putting a resume
  value at the position of its effect.
- `control`: a handler's answer (`Control`), its lifted form (`CoControl`) and
  the `Cancelled` error.
- `dispatch`: dispatch of a yielded effect to the handler of its type (plain
  and stateful handlers), and the embedding and projection that forward the
  effects of a sub-program to the outer program.
- `run`: each step of a runner, and the yielder's sending of an effect and
  taking of the answer.
- `program`: a computation with the handlers attached so far and the effects
  still without one.
- `lifetimes`, `attr`: the decisions of the `#[effect]` and `#[effectful]`
  attributes (fresh lifetime names, the effects' lifetime, the argument
  grammar, the shape of the written code).

`app/` holds what Verus does not take: the coroutines (on `fauxgen`), the
loops of the runners, async handlers, the declarative macros, and the
attribute expansions over `syn` syntax trees.
