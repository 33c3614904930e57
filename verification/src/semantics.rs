use vstd::prelude::*;
use crate::machine::{MachineView, MAX_CODE_LEN};
use crate::text::decimal;

verus! {

/// Where an evaluation stands within the instruction at its position.
#[derive(Clone, Copy, PartialEq, Eq, Debug, Structural)]
pub enum Stage {
    /// About to take the instruction at the position.
    Fetch,
    /// Waiting for the character that `,` reads.
    AwaitInput,
    /// The instruction's own work is done; a script-defined instruction of
    /// the same character is next.
    Custom,
    /// Only the move to the next position, and the pointer check, are left.
    Advance,
}

/// Which side of the tape the pointer left.
#[derive(Clone, Copy, PartialEq, Eq, Debug, Structural)]
pub enum FaultKind {
    /// Below the first cell.
    Underflow,
    /// Beyond the last cell.
    Overflow,
}

/// A pointer that left the tape: which side, and whether the program ends
/// on it (it does unless the interpreter is interactive).
#[derive(Clone, Copy, PartialEq, Eq, Debug, Structural)]
pub struct BoundsFault {
    pub kind: FaultKind,
    pub exit: bool,
}

/// A pointer fault met while running a line of code: the fault, the line's
/// number (counted from zero) and the position after the instruction that
/// caused it.
#[derive(Clone, Copy, PartialEq, Eq, Debug, Structural)]
pub struct FaultReport {
    pub fault: BoundsFault,
    pub line: i32,
    pub index: i32,
}

/// What an evaluation step asks of its caller.
#[derive(Debug, PartialEq, Eq)]
pub enum Action {
    /// The code has run to its end.
    Finished,
    /// Nothing: take the next step.
    Proceed,
    /// Print this text.
    Print(Vec<char>),
    /// Read a line and hand its first character to `supply_input`.
    ReadInput,
    /// Call the script function of this name, then take the next step.
    CallFunction(Vec<char>),
    /// Report this pointer fault, and end the program if it says so.
    Fault(FaultReport),
}

/// An `Action` as values.
#[verifier::ext_equal]
pub enum ActionView {
    Finished,
    Proceed,
    Print(Seq<char>),
    ReadInput,
    CallFunction(Seq<char>),
    Fault(FaultReport),
}

impl View for Action {
    type V = ActionView;

    open spec fn view(&self) -> ActionView {
        match self {
            Action::Finished => ActionView::Finished,
            Action::Proceed => ActionView::Proceed,
            Action::Print(t) => ActionView::Print(t@),
            Action::ReadInput => ActionView::ReadInput,
            Action::CallFunction(n) => ActionView::CallFunction(n@),
            Action::Fault(r) => ActionView::Fault(*r),
        }
    }
}

/// An evaluation of one line of code, as values.
#[verifier::ext_equal]
pub struct EvalView {
    /// The code.
    pub code: Seq<char>,
    /// The line's number.
    pub line: i32,
    /// The position of the instruction at hand.
    pub pos: usize,
    /// The instruction at hand, once taken.
    pub current: char,
    /// How far the instruction at hand has got.
    pub stage: Stage,
}

/// The invariant of an evaluation: its code and position fit the bounds.
pub open spec fn eval_wf(e: EvalView) -> bool {
    &&& e.code.len() <= MAX_CODE_LEN
    &&& e.stage == Stage::Fetch ==> e.pos <= MAX_CODE_LEN
    &&& e.stage != Stage::Fetch ==> e.pos < MAX_CODE_LEN
}

/// The characters that stand for Brainfuck instructions (with `*`, which
/// prints the cell as a number).
pub open spec fn is_command_char(c: char) -> bool {
    c == ',' || c == '.' || c == '<' || c == '>' || c == '[' || c == ']' || c == '*' || c == '+'
        || c == '-'
}

/// The instruction characters of `s`, in order.
pub open spec fn commands_only(s: Seq<char>) -> Seq<char>
    decreases s.len(),
{
    if s.len() == 0 {
        s
    } else if is_command_char(s.last()) {
        commands_only(s.drop_last()).push(s.last())
    } else {
        commands_only(s.drop_last())
    }
}

/// Code as it is run: only its instruction characters while no instruction
/// is script-defined, as it stands otherwise.
pub open spec fn cleaned(m: MachineView, s: Seq<char>) -> Seq<char> {
    if m.instructions == Map::<Seq<char>, Seq<char>>::empty() {
        commands_only(s)
    } else {
        s
    }
}

/// What an instruction other than `.`, `*` and `,` does to the state and to
/// the position: `+` and `-` change the cell by one (modulo 256) and record
/// the pointer, `>` and `<` move the pointer, `[` enters a loop on a nonzero
/// cell and otherwise starts skipping, `]` goes back to the innermost loop
/// on a nonzero cell and otherwise leaves it. Other characters do nothing.
pub open spec fn core_spec(m: MachineView, c: char, pos: usize) -> (MachineView, usize) {
    if c == '+' {
        (m.write(m.pointer, m.read(m.pointer) + 1).note_used(), pos)
    } else if c == '-' {
        (m.write(m.pointer, m.read(m.pointer) - 1).note_used(), pos)
    } else if c == '>' {
        (MachineView { pointer: (m.pointer + 1) as i32, ..m }, pos)
    } else if c == '<' {
        (MachineView { pointer: (m.pointer - 1) as i32, ..m }, pos)
    } else if c == '[' {
        if m.read(m.pointer) != 0 {
            (MachineView { jumps: m.jumps.push(pos), ..m }, pos)
        } else if m.skip_null_loop {
            (MachineView { skip_loop: true, ..m }, pos)
        } else {
            (m, pos)
        }
    } else if c == ']' {
        if m.jumps.len() > 0 {
            if m.read(m.pointer) > 0 {
                (m, m.jumps.last())
            } else {
                (MachineView { jumps: m.jumps.drop_last(), ..m }, pos)
            }
        } else {
            (m, pos)
        }
    } else {
        (m, pos)
    }
}

/// The pointer check after an instruction at the position before `index`:
/// unless bounds are off, a pointer below the tape goes to the first cell and
/// one beyond it to the last, and the fault is reported.
pub open spec fn check_spec(m: MachineView, line: i32, index: i32) -> (MachineView, Option<FaultReport>) {
    if m.no_bounds {
        (m, None)
    } else if m.pointer < 0 {
        (
            MachineView { pointer: 0, ..m },
            Some(
                FaultReport {
                    fault: BoundsFault { kind: FaultKind::Underflow, exit: !m.repl_mode },
                    line,
                    index,
                },
            ),
        )
    } else if m.pointer > m.cells - 1 {
        (
            MachineView { pointer: (m.cells - 1) as i32, ..m },
            Some(
                FaultReport {
                    fault: BoundsFault { kind: FaultKind::Overflow, exit: !m.repl_mode },
                    line,
                    index,
                },
            ),
        )
    } else {
        (m, None)
    }
}

/// The move to the next position, and the pointer check.
pub open spec fn advance_spec(m: MachineView, e: EvalView) -> (MachineView, EvalView, ActionView) {
    let pos = (e.pos + 1) as usize;
    let (m2, fault) = check_spec(m, e.line, pos as i32);
    (
        m2,
        EvalView { pos, stage: Stage::Fetch, ..e },
        match fault {
            Some(r) => ActionView::Fault(r),
            None => ActionView::Proceed,
        },
    )
}

/// The script-defined instruction of the character at hand, if there is one;
/// otherwise the move to the next position.
pub open spec fn custom_spec(m: MachineView, e: EvalView) -> (MachineView, EvalView, ActionView) {
    if m.instructions.contains_key(seq![e.current]) {
        (
            m,
            EvalView { stage: Stage::Advance, ..e },
            ActionView::CallFunction(m.instructions[seq![e.current]]),
        )
    } else {
        advance_spec(m, e)
    }
}

/// Taking the instruction at the position. At the end of the code the
/// evaluation is finished. While skipping, every character up to a `]` is
/// passed over, and that `]` ends the skip. Otherwise `.` prints the cell as
/// a character, `*` prints it in decimal, `,` asks for input, and the other
/// instructions do their work at once.
pub open spec fn fetch_spec(m: MachineView, e: EvalView) -> (MachineView, EvalView, ActionView) {
    if e.pos >= e.code.len() {
        (m, e, ActionView::Finished)
    } else {
        let c = e.code[e.pos as int];
        if m.skip_loop {
            if c == ']' {
                (
                    MachineView { skip_loop: false, ..m },
                    EvalView { pos: (e.pos + 1) as usize, ..e },
                    ActionView::Proceed,
                )
            } else {
                (m, EvalView { pos: (e.pos + 1) as usize, ..e }, ActionView::Proceed)
            }
        } else {
            let e1 = EvalView { current: c, ..e };
            if c == '.' {
                (
                    m,
                    EvalView { stage: Stage::Custom, ..e1 },
                    ActionView::Print(seq![m.read(m.pointer) as char]),
                )
            } else if c == '*' {
                (
                    m,
                    EvalView { stage: Stage::Custom, ..e1 },
                    ActionView::Print(decimal(m.read(m.pointer) as nat)),
                )
            } else if c == ',' {
                (m, EvalView { stage: Stage::AwaitInput, ..e1 }, ActionView::ReadInput)
            } else {
                let (m2, pos2) = core_spec(m, c, e.pos);
                custom_spec(m2, EvalView { pos: pos2, stage: Stage::Custom, ..e1 })
            }
        }
    }
}

/// One step of an evaluation: the next part of the instruction at hand, up
/// to the first thing the caller has to do.
pub open spec fn step_spec(m: MachineView, e: EvalView) -> (MachineView, EvalView, ActionView) {
    match e.stage {
        Stage::Fetch => fetch_spec(m, e),
        Stage::AwaitInput => (m, e, ActionView::ReadInput),
        Stage::Custom => custom_spec(m, e),
        Stage::Advance => advance_spec(m, e),
    }
}

/// Handing the input character `ch` to `,`: its code point, modulo 256, goes
/// to the cell.
pub open spec fn input_spec(m: MachineView, e: EvalView, ch: char) -> (MachineView, EvalView) {
    (m.write(m.pointer, ch as int), EvalView { stage: Stage::Custom, ..e })
}

/// The pointer check can run: `cells - 1` is computed only when it is
/// defined.
pub open spec fn check_ok(m: MachineView) -> bool {
    m.no_bounds || m.pointer < 0 || m.cells > i32::MIN
}

/// The script-defined instruction, or else the check, can run.
pub open spec fn custom_ok(m: MachineView, e: EvalView) -> bool {
    m.instructions.contains_key(seq![e.current]) || check_ok(m)
}

/// The instruction `c` can do its work: the cell it reads is on the tape,
/// and the pointer it moves stays within `i32`.
pub open spec fn core_ok(m: MachineView, c: char) -> bool {
    if c == '+' || c == '-' || c == '[' {
        m.can_access(m.pointer)
    } else if c == ']' {
        m.jumps.len() > 0 ==> m.can_access(m.pointer)
    } else if c == '>' {
        m.pointer < i32::MAX
    } else if c == '<' {
        m.pointer > i32::MIN
    } else {
        true
    }
}

/// The next step can run without failing.
pub open spec fn step_ok(m: MachineView, e: EvalView) -> bool {
    match e.stage {
        Stage::Fetch => {
            if e.pos >= e.code.len() || m.skip_loop {
                true
            } else {
                let c = e.code[e.pos as int];
                if c == '.' || c == '*' {
                    m.can_access(m.pointer)
                } else if c == ',' {
                    true
                } else {
                    core_ok(m, c) && custom_ok(
                        core_spec(m, c, e.pos).0,
                        EvalView { current: c, ..e },
                    )
                }
            }
        },
        Stage::AwaitInput => true,
        Stage::Custom => custom_ok(m, e),
        Stage::Advance => check_ok(m),
    }
}

/// The pointer check with no code at hand: unless bounds are off, a pointer
/// below zero goes to zero, and one above the number of cells goes to that
/// number.
pub open spec fn plain_check_spec(m: MachineView) -> (MachineView, Option<BoundsFault>) {
    if m.no_bounds {
        (m, None)
    } else if m.pointer < 0 {
        (
            MachineView { pointer: 0, ..m },
            Some(BoundsFault { kind: FaultKind::Underflow, exit: !m.repl_mode }),
        )
    } else if m.pointer > m.cells {
        (
            MachineView { pointer: m.cells, ..m },
            Some(BoundsFault { kind: FaultKind::Overflow, exit: !m.repl_mode }),
        )
    } else {
        (m, None)
    }
}

} // verus!
