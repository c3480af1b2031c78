# therustymod

The verified core of TheRustyMod, which lets a Rust library be loaded as a mod
by The Dark Mod.

- `src/` is the library, verified with Verus:
  - `args`: the grammar of the module attribute's arguments, `daemon = <bool>`;
  - `wrapper`: the registered return types and the expressions that hand a
    function's result back to the game (parsed with `syn`);
  - `module`: which items a mod module may hold, which functions are exported
    and under which symbol, the crate's one definition, and the laws on them;
  - `runtime`: the runtime's state (module data, game ABI, daemon runtime) and
    its start and shutdown transitions, with their laws;
  - `syntax`: the module attribute on the compiler's tokens: the parse with
    `syn`, the description of the parsed module as plain values, and
    `therustymod_lib_tokens`, which runs the rules on that description;
  - `text`: string helpers.
- `app/` is the unverified edge: the argument tokens, code emission with `quote`, the tokio runtime and the C
  functions that the game calls.
- `tests/` runs the library on concrete inputs.
