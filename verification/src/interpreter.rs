use vstd::prelude::*;
use crate::bounds::clamp;
use crate::machine::{byte, zero_tape, MachineView, DEFAULT_CELLS, MAX_CODE_LEN};
use crate::semantics::{
    advance_spec, check_ok, check_spec, cleaned, commands_only, core_ok, core_spec, custom_ok, custom_spec, eval_wf,
    fetch_spec, input_spec, plain_check_spec, step_ok, step_spec, Action, BoundsFault, EvalView, FaultKind,
    FaultReport, Stage,
};
use crate::table::Table;
use crate::text::{decimal, push_all, push_decimal};

verus! {

/// A Brainfuck interpreter's state: the tape, the cell pointer, the loop
/// stack, the settings, and the tables of script-defined commands and
/// instructions.
pub struct Interpreter {
    memory: Vec<u8>,
    cells: i32,
    pointer: i32,
    jumps: Vec<usize>,
    used: Vec<i32>,
    no_bounds: bool,
    skip_null_loop: bool,
    skip_loop: bool,
    repl_mode: bool,
    commands: Table,
    instructions: Table,
}

impl View for Interpreter {
    type V = MachineView;

    closed spec fn view(&self) -> MachineView {
        MachineView {
            memory: self.memory@,
            cells: self.cells,
            pointer: self.pointer,
            jumps: self.jumps@,
            used: self.used@,
            no_bounds: self.no_bounds,
            skip_null_loop: self.skip_null_loop,
            skip_loop: self.skip_loop,
            repl_mode: self.repl_mode,
            commands: self.commands@,
            instructions: self.instructions@,
        }
    }
}

impl Interpreter {
    /// The invariant: that of the state, and of both tables.
    pub closed spec fn wf(&self) -> bool {
        &&& self@.wf()
        &&& self.commands.wf()
        &&& self.instructions.wf()
    }

    /// What every interpreter keeps, whatever was done to it: each changed
    /// cell's pointer value is recorded once, and every open loop's position
    /// is within the longest code.
    pub proof fn law_state_invariant(&self)
        requires
            self.wf(),
        ensures
            self@.used.no_duplicates(),
            forall|i: int| 0 <= i < self@.jumps.len() ==> self@.jumps[i] < MAX_CODE_LEN,
    {
    }

    /// A new interpreter: no tape yet, room for the default number of cells,
    /// the pointer at zero, bounds checked, zero-cell loops skipped, not in
    /// interactive mode, and no script-defined commands or instructions.
    pub fn new() -> (it: Interpreter)
        ensures
            it.wf(),
            it@.memory == Seq::<u8>::empty(),
            it@.cells == DEFAULT_CELLS,
            it@.pointer == 0,
            it@.jumps == Seq::<usize>::empty(),
            it@.used == Seq::<i32>::empty(),
            !it@.no_bounds,
            it@.skip_null_loop,
            !it@.skip_loop,
            !it@.repl_mode,
            it@.commands == Map::<Seq<char>, Seq<char>>::empty(),
            it@.instructions == Map::<Seq<char>, Seq<char>>::empty(),
    {
        let it = Interpreter {
            memory: Vec::new(),
            cells: DEFAULT_CELLS,
            pointer: 0,
            jumps: Vec::new(),
            used: Vec::new(),
            no_bounds: false,
            skip_null_loop: true,
            skip_loop: false,
            repl_mode: false,
            commands: Table::new(),
            instructions: Table::new(),
        };
        assert(it@.used.no_duplicates());
        it
    }

    /// The cell pointer.
    pub fn pointer(&self) -> (p: i32)
        ensures
            p == self@.pointer,
    {
        self.pointer
    }

    /// The number of cells the tape is meant to have.
    pub fn memory_len(&self) -> (n: i32)
        ensures
            n == self@.cells,
    {
        self.cells
    }

    /// Whether a pointer fault leaves the program running.
    pub fn repl_mode(&self) -> (b: bool)
        ensures
            b == self@.repl_mode,
    {
        self.repl_mode
    }

    /// Sets whether a pointer fault leaves the program running.
    pub fn set_repl_mode(&mut self, on: bool)
        requires
            old(self).wf(),
        ensures
            final(self).wf(),
            final(self)@ == (MachineView { repl_mode: on, ..old(self)@ }),
    {
        self.repl_mode = on;
    }

    /// Sets whether the pointer goes unchecked.
    pub fn set_no_bounds(&mut self, on: bool)
        requires
            old(self).wf(),
        ensures
            final(self).wf(),
            final(self)@ == (MachineView { no_bounds: on, ..old(self)@ }),
    {
        self.no_bounds = on;
    }

    /// Whether pointer value `p` reaches a cell that the tape holds.
    pub fn can_access(&self, p: i32) -> (b: bool)
        ensures
            b == self@.can_access(p),
    {
        if self.cells < 1 {
            return false;
        }
        let idx = clamp(p, 0, self.cells - 1);
        (idx as usize) < self.memory.len()
    }

    /// The value of the cell that `p` reaches.
    pub fn read_memory(&self, p: i32) -> (v: i32)
        requires
            self@.can_access(p),
        ensures
            v == self@.read(p) as i32,
            0 <= v < 256,
    {
        let idx = clamp(p, 0, self.cells - 1);
        self.memory[idx as usize] as i32
    }

    fn read_cell(&self, p: i32) -> (v: u8)
        requires
            self@.can_access(p),
        ensures
            v == self@.read(p),
    {
        let idx = clamp(p, 0, self.cells - 1);
        self.memory[idx as usize]
    }

    /// Writes the low eight bits of `v` to the cell that `p` reaches.
    pub fn write_memory(&mut self, p: i32, v: i32)
        requires
            old(self).wf(),
            old(self)@.can_access(p),
        ensures
            final(self).wf(),
            final(self)@ == old(self)@.write(p, v as int),
    {
        let idx = clamp(p, 0, self.cells - 1);
        let b = byte(v);
        self.memory.set(idx as usize, b);
        assert(self@.jumps == old(self)@.jumps);
    }

    fn used_contains(&self, p: i32) -> (b: bool)
        ensures
            b == self@.used.contains(p),
    {
        let mut i: usize = 0;
        while i < self.used.len()
            invariant
                i <= self.used.len(),
                forall|j: int| 0 <= j < i ==> self.used@[j] != p,
            decreases self.used.len() - i,
        {
            if self.used[i] == p {
                assert(self.used@[i as int] == p);
                return true;
            }
            i = i + 1;
        }
        false
    }

    /// Records that the cell at the pointer was changed, unless it already was.
    fn note_used(&mut self)
        requires
            old(self).wf(),
        ensures
            final(self).wf(),
            final(self)@ == old(self)@.note_used(),
    {
        if !self.used_contains(self.pointer) {
            self.used.push(self.pointer);
            assert(self@.jumps == old(self)@.jumps);
            assert(self@.used.no_duplicates()) by {
                assert(forall|j: int|
                    0 <= j < self@.used.len() - 1 ==> self@.used[j] == old(self)@.used[j]);
            }
        }
    }

    /// Moves the pointer by `steps` cells, unchecked.
    pub fn move_pointer(&mut self, steps: i32)
        requires
            old(self).wf(),
            i32::MIN <= old(self)@.pointer + steps <= i32::MAX,
        ensures
            final(self).wf(),
            final(self)@ == (MachineView { pointer: (old(self)@.pointer + steps) as i32, ..old(self)@ }),
    {
        self.pointer = self.pointer + steps;
    }

    /// Replaces the tape with as many zero cells as the interpreter is meant
    /// to have.
    pub fn reclear_memory(&mut self)
        requires
            old(self).wf(),
        ensures
            final(self).wf(),
            final(self)@ == (MachineView { memory: zero_tape(old(self)@.cells as int), ..old(self)@ }),
    {
        let n = self.cells;
        let mut tape: Vec<u8> = Vec::new();
        let mut i: i32 = 0;
        while i < n
            invariant
                0 <= i,
                n >= 0 ==> i <= n,
                n < 0 ==> i == 0,
                tape@ == zero_tape(i as int),
            decreases n - i,
        {
            tape.push(0);
            i = i + 1;
            assert(tape@ =~= zero_tape(i as int));
        }
        assert(tape@ =~= zero_tape(n as int));
        self.memory = tape;
        assert(self@.jumps == old(self)@.jumps);
    }

    /// Sets the number of cells and replaces the tape with that many zero
    /// cells.
    pub fn set_memory_len(&mut self, cells: i32)
        requires
            old(self).wf(),
        ensures
            final(self).wf(),
            final(self)@ == (MachineView { cells, memory: zero_tape(cells as int), ..old(self)@ }),
    {
        self.cells = cells;
        assert(self@.jumps == old(self)@.jumps);
        self.reclear_memory();
    }

    /// The tape, each cell as an `i32`.
    pub fn memory_values(&self) -> (vs: Vec<i32>)
        ensures
            vs@.len() == self@.memory.len(),
            forall|i: int| 0 <= i < vs@.len() ==> vs@[i] == self@.memory[i] as i32,
    {
        let mut vs: Vec<i32> = Vec::new();
        let mut i: usize = 0;
        while i < self.memory.len()
            invariant
                i <= self.memory.len(),
                vs@.len() == i,
                forall|j: int| 0 <= j < i ==> vs@[j] == self@.memory[j] as i32,
            decreases self.memory.len() - i,
        {
            vs.push(self.memory[i] as i32);
            i = i + 1;
        }
        vs
    }
}

} // verus!

verus! {

/// The run of one line of code: the code, the line's number, the position,
/// the instruction at hand and how far it has got.
pub struct Evaluation {
    code: Vec<char>,
    line: i32,
    pos: usize,
    current: char,
    stage: Stage,
}

impl View for Evaluation {
    type V = EvalView;

    closed spec fn view(&self) -> EvalView {
        EvalView {
            code: self.code@,
            line: self.line,
            pos: self.pos,
            current: self.current,
            stage: self.stage,
        }
    }
}

impl Evaluation {
    /// The invariant: the code and the position fit the bounds.
    pub open spec fn wf(&self) -> bool {
        eval_wf(self@)
    }

    /// The evaluation of `code` as line number `line`, at its start.
    pub fn new(code: Vec<char>, line: i32) -> (e: Evaluation)
        requires
            code@.len() <= MAX_CODE_LEN,
        ensures
            e.wf(),
            e@ == (EvalView { code: code@, line, pos: 0, current: ' ', stage: Stage::Fetch }),
    {
        Evaluation { code, line, pos: 0, current: ' ', stage: Stage::Fetch }
    }

    /// The code.
    pub fn code(&self) -> (c: &Vec<char>)
        ensures
            c@ == self@.code,
    {
        &self.code
    }

    /// The line's number.
    pub fn line(&self) -> (l: i32)
        ensures
            l == self@.line,
    {
        self.line
    }

    /// The position of the instruction at hand.
    pub fn position(&self) -> (p: usize)
        ensures
            p == self@.pos,
    {
        self.pos
    }

    /// How far the instruction at hand has got.
    pub fn stage(&self) -> (s: Stage)
        ensures
            s == self@.stage,
    {
        self.stage
    }
}

impl Interpreter {
    /// The pointer check after an instruction of a line of code (`index` is
    /// the position after it): a pointer off the tape is moved to the nearest
    /// end and the fault is reported, unless bounds are off.
    pub fn check_with_source(&mut self, line: i32, index: i32) -> (r: Option<FaultReport>)
        requires
            old(self).wf(),
            check_ok(old(self)@),
        ensures
            final(self).wf(),
            (final(self)@, r) == check_spec(old(self)@, line, index),
    {
        if self.no_bounds {
            return None;
        }
        if self.pointer < 0 {
            self.pointer = 0;
            assert(self@.jumps == old(self)@.jumps);
            return Some(
                FaultReport {
                    fault: BoundsFault { kind: FaultKind::Underflow, exit: !self.repl_mode },
                    line,
                    index,
                },
            );
        }
        if self.pointer > self.cells - 1 {
            self.pointer = self.cells - 1;
            assert(self@.jumps == old(self)@.jumps);
            return Some(
                FaultReport {
                    fault: BoundsFault { kind: FaultKind::Overflow, exit: !self.repl_mode },
                    line,
                    index,
                },
            );
        }
        None
    }

    /// The pointer check with no code at hand: a pointer below zero goes to
    /// zero, one above the number of cells goes to that number.
    pub fn check_pointer(&mut self) -> (r: Option<BoundsFault>)
        requires
            old(self).wf(),
        ensures
            final(self).wf(),
            (final(self)@, r) == plain_check_spec(old(self)@),
    {
        if self.no_bounds {
            return None;
        }
        if self.pointer < 0 {
            self.pointer = 0;
            assert(self@.jumps == old(self)@.jumps);
            return Some(BoundsFault { kind: FaultKind::Underflow, exit: !self.repl_mode });
        }
        if self.pointer > self.cells {
            self.pointer = self.cells;
            assert(self@.jumps == old(self)@.jumps);
            return Some(BoundsFault { kind: FaultKind::Overflow, exit: !self.repl_mode });
        }
        None
    }

    fn advance(&mut self, ev: &mut Evaluation) -> (a: Action)
        requires
            old(self).wf(),
            old(ev).wf(),
            old(ev)@.stage != Stage::Fetch,
            check_ok(old(self)@),
        ensures
            final(self).wf(),
            final(ev).wf(),
            (final(self)@, final(ev)@, a@) == advance_spec(old(self)@, old(ev)@),
    {
        ev.pos = ev.pos + 1;
        ev.stage = Stage::Fetch;
        let index = ev.pos as i32;
        match self.check_with_source(ev.line, index) {
            Some(r) => Action::Fault(r),
            None => Action::Proceed,
        }
    }

    fn custom_or_advance(&mut self, ev: &mut Evaluation) -> (a: Action)
        requires
            old(self).wf(),
            old(ev).wf(),
            old(ev)@.stage != Stage::Fetch,
            custom_ok(old(self)@, old(ev)@),
        ensures
            final(self).wf(),
            final(ev).wf(),
            (final(self)@, final(ev)@, a@) == custom_spec(old(self)@, old(ev)@),
    {
        let mut key: Vec<char> = Vec::new();
        key.push(ev.current);
        assert(key@ =~= seq![ev@.current]);
        match self.instructions.get(&key) {
            Some(name) => {
                ev.stage = Stage::Advance;
                Action::CallFunction(name)
            },
            None => self.advance(ev),
        }
    }

    /// The work of an instruction other than `.`, `*` and `,`.
    fn execute_core(&mut self, c: char, pos: &mut usize)
        requires
            old(self).wf(),
            *old(pos) < MAX_CODE_LEN,
            core_ok(old(self)@, c),
        ensures
            final(self).wf(),
            *final(pos) < MAX_CODE_LEN,
            (final(self)@, *final(pos)) == core_spec(old(self)@, c, *old(pos)),
    {
        if c == '+' {
            let v = self.read_cell(self.pointer) as i32;
            self.write_memory(self.pointer, v + 1);
            self.note_used();
        } else if c == '-' {
            let v = self.read_cell(self.pointer) as i32;
            self.write_memory(self.pointer, v - 1);
            self.note_used();
        } else if c == '>' {
            self.pointer = self.pointer + 1;
            assert(self@.jumps == old(self)@.jumps);
        } else if c == '<' {
            self.pointer = self.pointer - 1;
            assert(self@.jumps == old(self)@.jumps);
        } else if c == '[' {
            let v = self.read_cell(self.pointer);
            if v != 0 {
                self.jumps.push(*pos);
                assert(self@.jumps == old(self)@.jumps.push(*pos));
            } else if self.skip_null_loop {
                self.skip_loop = true;
                assert(self@.jumps == old(self)@.jumps);
            }
        } else if c == ']' {
            if self.jumps.len() > 0 {
                let v = self.read_cell(self.pointer);
                if v > 0 {
                    *pos = self.jumps[self.jumps.len() - 1];
                    assert(*pos == self@.jumps[self@.jumps.len() - 1]);
                } else {
                    self.jumps.pop();
                    assert(self@.jumps =~= old(self)@.jumps.drop_last());
                }
            }
        }
    }

    fn fetch(&mut self, ev: &mut Evaluation) -> (a: Action)
        requires
            old(self).wf(),
            old(ev).wf(),
            old(ev)@.stage == Stage::Fetch,
            step_ok(old(self)@, old(ev)@),
        ensures
            final(self).wf(),
            final(ev).wf(),
            (final(self)@, final(ev)@, a@) == fetch_spec(old(self)@, old(ev)@),
    {
        if ev.pos >= ev.code.len() {
            return Action::Finished;
        }
        let c = ev.code[ev.pos];
        if self.skip_loop {
            if c == ']' {
                self.skip_loop = false;
                assert(self@.jumps == old(self)@.jumps);
            }
            ev.pos = ev.pos + 1;
            return Action::Proceed;
        }
        ev.current = c;
        if c == '.' {
            let v = self.read_cell(self.pointer);
            let mut out: Vec<char> = Vec::new();
            out.push(v as char);
            ev.stage = Stage::Custom;
            assert(out@ =~= seq![self@.read(self@.pointer) as char]);
            return Action::Print(out);
        }
        if c == '*' {
            let v = self.read_cell(self.pointer);
            let mut out: Vec<char> = Vec::new();
            push_decimal(v as u64, &mut out);
            ev.stage = Stage::Custom;
            assert(out@ =~= decimal(self@.read(self@.pointer) as nat));
            return Action::Print(out);
        }
        if c == ',' {
            ev.stage = Stage::AwaitInput;
            return Action::ReadInput;
        }
        let mut pos = ev.pos;
        self.execute_core(c, &mut pos);
        ev.pos = pos;
        ev.stage = Stage::Custom;
        self.custom_or_advance(ev)
    }

    /// Takes one step of `ev`: the next part of the instruction at hand, up
    /// to the first thing the caller has to do, which the result names.
    pub fn step(&mut self, ev: &mut Evaluation) -> (a: Action)
        requires
            old(self).wf(),
            old(ev).wf(),
            step_ok(old(self)@, old(ev)@),
        ensures
            final(self).wf(),
            final(ev).wf(),
            (final(self)@, final(ev)@, a@) == step_spec(old(self)@, old(ev)@),
    {
        match ev.stage {
            Stage::Fetch => self.fetch(ev),
            Stage::AwaitInput => Action::ReadInput,
            Stage::Custom => self.custom_or_advance(ev),
            Stage::Advance => self.advance(ev),
        }
    }
}

} // verus!

verus! {

impl Interpreter {
    /// Whether the next step of `ev` can run: the cell it reads is on the
    /// tape, the pointer it moves stays within `i32`, and the pointer check
    /// is defined.
    pub fn can_step(&self, ev: &Evaluation) -> (b: bool)
        requires
            self.wf(),
            ev.wf(),
        ensures
            b == step_ok(self@, ev@),
    {
        match ev.stage {
            Stage::Fetch => {
                if ev.pos >= ev.code.len() || self.skip_loop {
                    return true;
                }
                let c = ev.code[ev.pos];
                if c == '.' || c == '*' {
                    return self.can_access(self.pointer);
                }
                if c == ',' {
                    return true;
                }
                let core = if c == '+' || c == '-' || c == '[' {
                    self.can_access(self.pointer)
                } else if c == ']' {
                    self.jumps.len() == 0 || self.can_access(self.pointer)
                } else if c == '>' {
                    self.pointer < i32::MAX
                } else if c == '<' {
                    self.pointer > i32::MIN
                } else {
                    true
                };
                if !core {
                    return false;
                }
                let mut key: Vec<char> = Vec::new();
                key.push(c);
                assert(key@ =~= seq![c]);
                if self.instructions.contains_key(&key) {
                    return true;
                }
                let moved: i64 = if c == '>' {
                    self.pointer as i64 + 1
                } else if c == '<' {
                    self.pointer as i64 - 1
                } else {
                    self.pointer as i64
                };
                self.no_bounds || moved < 0 || self.cells > i32::MIN
            },
            Stage::AwaitInput => true,
            Stage::Custom => {
                let mut key: Vec<char> = Vec::new();
                key.push(ev.current);
                assert(key@ =~= seq![ev@.current]);
                self.instructions.contains_key(&key) || self.no_bounds || self.pointer < 0
                    || self.cells > i32::MIN
            },
            Stage::Advance => self.no_bounds || self.pointer < 0 || self.cells > i32::MIN,
        }
    }

    /// Hands the character read for `,` to the evaluation: its code point,
    /// modulo 256, goes to the cell at the pointer.
    pub fn supply_input(&mut self, ev: &mut Evaluation, ch: char)
        requires
            old(self).wf(),
            old(ev).wf(),
            old(ev)@.stage == Stage::AwaitInput,
            old(self)@.can_access(old(self)@.pointer),
        ensures
            final(self).wf(),
            final(ev).wf(),
            (final(self)@, final(ev)@) == input_spec(old(self)@, old(ev)@, ch),
    {
        let code: u32 = ch as u32;
        let v: i32 = code as i32;
        self.write_memory(self.pointer, v);
        ev.stage = Stage::Custom;
    }

    /// Whether any instruction is script-defined.
    pub fn has_instructions(&self) -> (b: bool)
        requires
            self.wf(),
        ensures
            b == (self@.instructions != Map::<Seq<char>, Seq<char>>::empty()),
    {
        !self.instructions.is_empty()
    }

    /// Keeps only the instruction characters of `code`, while no instruction
    /// is script-defined; leaves it as it is otherwise.
    pub fn clean_code(&self, code: &mut Vec<char>)
        requires
            self.wf(),
        ensures
            final(code)@ == cleaned(self@, old(code)@),
    {
        if self.instructions.is_empty() {
            let cleaned_code = keep_commands(code);
            *code = cleaned_code;
        }
    }

    /// The function that the command `name` runs, if a script defined it.
    pub fn command(&self, name: &Vec<char>) -> (r: Option<Vec<char>>)
        requires
            self.wf(),
        ensures
            r is Some == self@.commands.contains_key(name@),
            r matches Some(f) ==> f@ == self@.commands[name@],
    {
        self.commands.get(name)
    }

    /// The function that the instruction `c` runs, if a script defined it.
    pub fn instruction(&self, c: char) -> (r: Option<Vec<char>>)
        requires
            self.wf(),
        ensures
            r is Some == self@.instructions.contains_key(seq![c]),
            r matches Some(f) ==> f@ == self@.instructions[seq![c]],
    {
        let mut key: Vec<char> = Vec::new();
        key.push(c);
        assert(key@ =~= seq![c]);
        self.instructions.get(&key)
    }

    /// Defines the command `!cmd`, which runs the script function `function`.
    pub fn register_command(&mut self, cmd: &Vec<char>, function: Vec<char>)
        requires
            old(self).wf(),
        ensures
            final(self).wf(),
            final(self)@ == (MachineView {
                commands: old(self)@.commands.insert(seq!['!'] + cmd@, function@),
                ..old(self)@
            }),
    {
        let mut name: Vec<char> = Vec::new();
        name.push('!');
        push_all(&mut name, cmd);
        assert(name@ =~= seq!['!'] + cmd@);
        self.commands.insert(name, function);
        assert(self@.jumps == old(self)@.jumps);
    }

    /// Defines the instruction named by the first character of `inst`, which
    /// runs the script function `function`.
    pub fn register_instruction(&mut self, inst: &Vec<char>, function: Vec<char>)
        requires
            old(self).wf(),
            inst@.len() > 0,
        ensures
            final(self).wf(),
            final(self)@ == (MachineView {
                instructions: old(self)@.instructions.insert(seq![inst@[0]], function@),
                ..old(self)@
            }),
    {
        let mut key: Vec<char> = Vec::new();
        key.push(inst[0]);
        assert(key@ =~= seq![inst@[0]]);
        self.instructions.insert(key, function);
        assert(self@.jumps == old(self)@.jumps);
    }

    /// Forgets every script-defined command and instruction.
    pub fn clear_custom(&mut self)
        requires
            old(self).wf(),
        ensures
            final(self).wf(),
            final(self)@ == (MachineView {
                commands: Map::empty(),
                instructions: Map::empty(),
                ..old(self)@
            }),
    {
        self.commands.clear();
        self.instructions.clear();
        assert(self@.jumps == old(self)@.jumps);
    }

    /// Prepares a run of `code` asked for by a script: a tape of zero cells
    /// when there is none yet, and the code cleaned, as line zero.
    pub fn begin_script_run(&mut self, code: &Vec<char>) -> (ev: Evaluation)
        requires
            old(self).wf(),
            code@.len() <= MAX_CODE_LEN,
        ensures
            final(self).wf(),
            final(self)@ == (if old(self)@.memory.len() == 0 {
                MachineView { memory: zero_tape(old(self)@.cells as int), ..old(self)@ }
            } else {
                old(self)@
            }),
            ev.wf(),
            ev@ == (EvalView {
                code: cleaned(old(self)@, code@),
                line: 0,
                pos: 0,
                current: ' ',
                stage: Stage::Fetch,
            }),
    {
        if self.memory.len() == 0 {
            self.reclear_memory();
        }
        let mut buf: Vec<char> = Vec::new();
        push_all(&mut buf, code);
        assert(buf@ =~= code@);
        self.clean_code(&mut buf);
        proof {
            lemma_commands_only_len(code@);
        }
        Evaluation::new(buf, 0)
    }

    /// Whether `inspect_memory` can read every cell it shows.
    pub fn can_inspect(&self) -> (b: bool)
        ensures
            b == (self@.can_access(self@.pointer) && forall|i: int|
                0 <= i < self@.used.len() ==> self@.can_access(#[trigger] self@.used[i])),
    {
        if !self.can_access(self.pointer) {
            return false;
        }
        let mut i: usize = 0;
        while i < self.used.len()
            invariant
                i <= self.used.len(),
                self@.can_access(self@.pointer),
                forall|j: int| 0 <= j < i ==> self@.can_access(#[trigger] self@.used[j]),
            decreases self.used.len() - i,
        {
            if !self.can_access(self.used[i]) {
                assert(!self@.can_access(self@.used[i as int]));
                return false;
            }
            i = i + 1;
        }
        true
    }

    /// The cell at the pointer, then each changed cell's pointer value with
    /// the cell it reaches, in the order they were first changed.
    pub fn inspect_memory(&self) -> (r: (u8, Vec<(i32, u8)>))
        requires
            self@.can_access(self@.pointer),
            forall|i: int| 0 <= i < self@.used.len() ==> self@.can_access(#[trigger] self@.used[i]),
        ensures
            r.0 == self@.read(self@.pointer),
            r.1@.len() == self@.used.len(),
            forall|i: int|
                0 <= i < r.1@.len() ==> #[trigger] r.1@[i] == (
                self@.used[i],
                self@.read(self@.used[i]),
            ),
    {
        let current = self.read_cell(self.pointer);
        let mut cells: Vec<(i32, u8)> = Vec::new();
        let mut i: usize = 0;
        while i < self.used.len()
            invariant
                i <= self.used.len(),
                cells@.len() == i,
                forall|j: int| 0 <= j < self@.used.len() ==> self@.can_access(#[trigger] self@.used[j]),
                forall|j: int|
                    0 <= j < i ==> #[trigger] cells@[j] == (self@.used[j], self@.read(self@.used[j])),
            decreases self.used.len() - i,
        {
            let p = self.used[i];
            assert(self@.can_access(self@.used[i as int]));
            let v = self.read_cell(p);
            cells.push((p, v));
            i = i + 1;
        }
        (current, cells)
    }
}

/// The instruction characters of `code`, in order.
pub fn keep_commands(code: &Vec<char>) -> (r: Vec<char>)
    ensures
        r@ == commands_only(code@),
{
    let mut r: Vec<char> = Vec::new();
    let mut i: usize = 0;
    while i < code.len()
        invariant
            i <= code.len(),
            r@ == commands_only(code@.take(i as int)),
        decreases code.len() - i,
    {
        let c = code[i];
        assert(code@.take(i as int + 1).drop_last() =~= code@.take(i as int));
        if c == ',' || c == '.' || c == '<' || c == '>' || c == '[' || c == ']' || c == '*' || c
            == '+' || c == '-' {
            r.push(c);
        }
        i = i + 1;
    }
    assert(code@.take(code.len() as int) =~= code@);
    r
}

/// Cleaning never lengthens code.
pub proof fn lemma_commands_only_len(s: Seq<char>)
    ensures
        commands_only(s).len() <= s.len(),
    decreases s.len(),
{
    if s.len() > 0 {
        lemma_commands_only_len(s.drop_last());
    }
}

} // verus!
