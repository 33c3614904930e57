# rbf

A Brainfuck interpreter with a clamped cell pointer, a `*` instruction that
prints a cell in decimal, and instructions and commands that a Lua script
(`rbf.lua`) can define.

- `src/` is the verified library: the tape and its cells (`machine`,
  `interpreter`), the step-by-step evaluation of a line of code and its
  contract (`semantics`, `interpreter`), the report printed for a pointer that
  leaves the tape (`report`), coloured terminal text (`color`), the tables of
  script-defined names (`table`), the handling of lines typed at the prompt
  (`repl`), the texts shown at the prompt (`display`), and the laws the interpreter keeps (`laws`).
- `app/` is the program: it reads files and the terminal, runs the Lua
  script, and performs what each evaluation step asks for.
