use vstd::prelude::*;
use crate::bounds::clamp_spec;

verus! {

/// The longest program, in characters, that an evaluation takes: its
/// positions, and the index after each, stay within `i32`.
pub const MAX_CODE_LEN: usize = 0x7fff_ffff;

/// The number of tape cells a new interpreter has.
pub const DEFAULT_CELLS: i32 = 30000;

/// The byte that a cell keeps of the value `v` written to it: its low eight
/// bits.
pub open spec fn byte_of(v: int) -> u8 {
    (v % 256) as u8
}

/// The interpreter's state, as values.
#[verifier::ext_equal]
pub struct MachineView {
    /// The tape.
    pub memory: Seq<u8>,
    /// The number of cells the tape is meant to have.
    pub cells: i32,
    /// The cell pointer.
    pub pointer: i32,
    /// The positions of the loops entered and not yet left.
    pub jumps: Seq<usize>,
    /// The pointer values at which a cell was changed, each once, in order.
    pub used: Seq<i32>,
    /// Whether the pointer goes unchecked.
    pub no_bounds: bool,
    /// Whether a loop entered on a zero cell is skipped.
    pub skip_null_loop: bool,
    /// Whether instructions are being skipped up to the next `]`.
    pub skip_loop: bool,
    /// Whether a pointer fault leaves the program running.
    pub repl_mode: bool,
    /// The script-defined commands, by name (with its leading `!`).
    pub commands: Map<Seq<char>, Seq<char>>,
    /// The script-defined instructions, by their one-character name.
    pub instructions: Map<Seq<char>, Seq<char>>,
}

impl MachineView {
    /// The cell that pointer value `p` reaches: `p` held within the tape.
    pub open spec fn cell_index(self, p: i32) -> int {
        clamp_spec(p as int, 0, self.cells - 1)
    }

    /// Whether pointer value `p` reaches a cell that the tape holds.
    pub open spec fn can_access(self, p: i32) -> bool {
        self.cells >= 1 && self.cell_index(p) < self.memory.len()
    }

    /// The byte of the cell that `p` reaches.
    pub open spec fn read(self, p: i32) -> u8 {
        self.memory[self.cell_index(p)]
    }

    /// The state after writing `v` to the cell that `p` reaches.
    pub open spec fn write(self, p: i32, v: int) -> MachineView {
        MachineView { memory: self.memory.update(self.cell_index(p), byte_of(v)), ..self }
    }

    /// The state after recording that the cell at the pointer was changed.
    pub open spec fn note_used(self) -> MachineView {
        if self.used.contains(self.pointer) {
            self
        } else {
            MachineView { used: self.used.push(self.pointer), ..self }
        }
    }

    /// The invariant the interpreter keeps.
    pub open spec fn wf(self) -> bool {
        &&& forall|i: int| 0 <= i < self.jumps.len() ==> self.jumps[i] < MAX_CODE_LEN
        &&& self.used.no_duplicates()
    }
}

/// A tape of `n` zero cells (none when `n` is not positive).
pub open spec fn zero_tape(n: int) -> Seq<u8> {
    Seq::new(if n > 0 { n as nat } else { 0 }, |i: int| 0u8)
}

/// The low eight bits of `v`.
pub fn byte(v: i32) -> (b: u8)
    ensures
        b == byte_of(v as int),
{
    let r: i32 = v % 256;
    let b: i32 = if r < 0 { r + 256 } else { r };
    b as u8
}

} // verus!
