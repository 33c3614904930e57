//! A Brainfuck interpreter with a tape of byte cells, a clamped cell pointer,
//! a jump stack for loops, and tables of script-defined commands and
//! instructions.

pub mod bounds;
pub mod text;
pub mod color;
pub mod table;
pub mod machine;
pub mod interpreter;
pub mod semantics;
pub mod report;
pub mod repl;
pub mod display;
pub mod laws;
