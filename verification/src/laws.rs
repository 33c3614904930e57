use vstd::prelude::*;
use crate::machine::{byte_of, zero_tape, MachineView};
use crate::text::{decimal, digit_char};
use crate::report::{window_end, window_start};
use crate::repl::{classify_spec, lemma_split_nonempty, split_on_newline, without_line_breaks, ReplCommandView};
use crate::semantics::{
    check_spec, commands_only, core_spec, eval_wf, FaultKind, fetch_spec, input_spec, step_ok, step_spec, is_command_char, ActionView, EvalView,
    Stage,
};

verus! {

/// A write to a cell is read back as the low eight bits of the value
/// written, and leaves every other cell as it was.
pub proof fn law_write_then_read(m: MachineView, p: i32, q: i32, v: int)
    requires
        m.can_access(p),
        m.can_access(q),
    ensures
        m.write(p, v).read(p) == byte_of(v),
        m.write(p, v).read(p) as int == v % 256,
        m.cell_index(q) != m.cell_index(p) ==> m.write(p, v).read(q) == m.read(q),
        m.write(p, v).memory.len() == m.memory.len(),
{
}

/// An evaluation at the end of its code stays there: a step changes
/// nothing and says it is finished.
pub proof fn law_finished_stays_finished(m: MachineView, e: EvalView)
    requires
        e.stage == Stage::Fetch,
        e.pos >= e.code.len(),
    ensures
        step_spec(m, e) == (m, e, ActionView::Finished),
{
}

/// A step leaves the script-defined names, the number of cells, the
/// settings, the length of the tape and the code as they were.
pub proof fn law_step_keeps_settings(m: MachineView, e: EvalView)
    requires
        step_ok(m, e),
    ensures
        step_spec(m, e).0.commands == m.commands,
        step_spec(m, e).0.instructions == m.instructions,
        step_spec(m, e).0.cells == m.cells,
        step_spec(m, e).0.no_bounds == m.no_bounds,
        step_spec(m, e).0.skip_null_loop == m.skip_null_loop,
        step_spec(m, e).0.repl_mode == m.repl_mode,
        step_spec(m, e).0.memory.len() == m.memory.len(),
        step_spec(m, e).1.code == e.code,
        step_spec(m, e).1.line == e.line,
{
}

/// `+` followed by `-` leaves the tape as it was.
pub proof fn law_increment_then_decrement(m: MachineView, pos: usize)
    requires
        m.can_access(m.pointer),
    ensures
        core_spec(core_spec(m, '+', pos).0, '-', pos).0.memory == m.memory,
        core_spec(core_spec(m, '+', pos).0, '-', pos).0.pointer == m.pointer,
{
    let m1 = core_spec(m, '+', pos).0;
    let m2 = core_spec(m1, '-', pos).0;
    let i = m.cell_index(m.pointer);
    let v = m.read(m.pointer);
    assert(m1.read(m1.pointer) == byte_of(v + 1));
    assert(byte_of(byte_of(v + 1) - 1) == v);
    assert(m2.memory =~= m.memory);
}

/// `>` followed by `<` leaves the pointer where it was.
pub proof fn law_right_then_left(m: MachineView, pos: usize)
    requires
        m.pointer < i32::MAX,
    ensures
        core_spec(core_spec(m, '>', pos).0, '<', pos).0 == m,
{
    assert(core_spec(core_spec(m, '>', pos).0, '<', pos).0 =~= m);
}

/// A loop entered on a nonzero cell is returned to by its `]` while the
/// cell is still nonzero: `]` goes back to the position of `[`.
pub proof fn law_loop_returns_to_open(m: MachineView, open: usize, close: usize)
    requires
        m.can_access(m.pointer),
        m.read(m.pointer) != 0,
    ensures
        core_spec(core_spec(m, '[', open).0, ']', close).1 == open,
        core_spec(core_spec(m, '[', open).0, ']', close).0 == core_spec(m, '[', open).0,
{
}

/// A loop is left, and its entry forgotten, when its `]` finds the cell at
/// zero.
pub proof fn law_loop_left_on_zero(m: MachineView, open: usize, close: usize)
    requires
        m.can_access(m.pointer),
        m.read(m.pointer) != 0,
    ensures
        ({
            let m1 = core_spec(m, '[', open).0;
            let m2 = MachineView { memory: m1.memory.update(m1.cell_index(m1.pointer), 0u8), ..m1 };
            core_spec(m2, ']', close) == (MachineView { jumps: m.jumps, ..m2 }, close)
        }),
{
    let m1 = core_spec(m, '[', open).0;
    let m2 = MachineView { memory: m1.memory.update(m1.cell_index(m1.pointer), 0u8), ..m1 };
    assert(m2.jumps.drop_last() =~= m.jumps);
    assert(core_spec(m2, ']', close).0 =~= MachineView { jumps: m.jumps, ..m2 });
}

/// A loop entered on a zero cell is skipped: every following character
/// but `]` is passed over with nothing else changed, and the first `]`
/// ends the skip.
pub proof fn law_zero_loop_skipped(m: MachineView, e: EvalView)
    requires
        m.skip_loop,
        e.stage == Stage::Fetch,
        e.pos < e.code.len(),
    ensures
        e.code[e.pos as int] != ']' ==> fetch_spec(m, e) == (
            m,
            EvalView { pos: (e.pos + 1) as usize, ..e },
            ActionView::Proceed,
        ),
        e.code[e.pos as int] == ']' ==> fetch_spec(m, e).0 == (MachineView { skip_loop: false, ..m }),
{
}

/// With bounds on, the check leaves the pointer on the tape: it is moved to
/// the nearest end, and a fault reported, exactly when it was off the tape.
pub proof fn law_check_keeps_pointer_on_tape(m: MachineView, line: i32, index: i32)
    requires
        !m.no_bounds,
        m.cells >= 1,
    ensures
        0 <= check_spec(m, line, index).0.pointer <= m.cells - 1,
        check_spec(m, line, index).1 is Some <==> (m.pointer < 0 || m.pointer > m.cells - 1),
        (0 <= m.pointer <= m.cells - 1) ==> check_spec(m, line, index).0 == m,
        check_spec(m, line, index).1 matches Some(r) ==> r.fault.exit == !m.repl_mode,
        check_spec(m, line, index).1 matches Some(r) ==> r.line == line && r.index == index,
        m.pointer < 0 ==> check_spec(m, line, index).0.pointer == 0,
        m.pointer < 0 ==> (check_spec(m, line, index).1 matches Some(r) && r.fault.kind
            == FaultKind::Underflow),
        m.pointer > m.cells - 1 ==> check_spec(m, line, index).0.pointer == m.cells - 1,
        m.pointer > m.cells - 1 ==> (check_spec(m, line, index).1 matches Some(r) && r.fault.kind
            == FaultKind::Overflow),
        check_spec(m, line, index).0 == (MachineView {
            pointer: check_spec(m, line, index).0.pointer,
            ..m
        }),
{
}

/// Cleaned code holds instruction characters only.
pub proof fn law_clean_keeps_commands(s: Seq<char>)
    ensures
        forall|i: int| 0 <= i < commands_only(s).len() ==> is_command_char(#[trigger] commands_only(s)[i]),
    decreases s.len(),
{
    if s.len() > 0 {
        law_clean_keeps_commands(s.drop_last());
        let r = commands_only(s.drop_last());
        assert forall|i: int| 0 <= i < commands_only(s).len() implies is_command_char(
            #[trigger] commands_only(s)[i],
        ) by {
            if i < r.len() {
                assert(commands_only(s)[i] == r[i]);
            }
        }
    }
}

/// Code made of instruction characters only is left as it is by cleaning.
pub proof fn law_clean_keeps_clean_code(s: Seq<char>)
    requires
        forall|i: int| 0 <= i < s.len() ==> is_command_char(#[trigger] s[i]),
    ensures
        commands_only(s) == s,
    decreases s.len(),
{
    if s.len() > 0 {
        law_clean_keeps_clean_code(s.drop_last());
        assert(s.drop_last().push(s.last()) =~= s);
    }
}

/// Cleaning twice is cleaning once.
pub proof fn law_clean_idempotent(s: Seq<char>)
    ensures
        commands_only(commands_only(s)) == commands_only(s),
{
    law_clean_keeps_commands(s);
    law_clean_keeps_clean_code(commands_only(s));
}

/// A stripped line holds no line feed and no carriage return.
pub proof fn law_stripped_has_no_line_breaks(s: Seq<char>)
    ensures
        forall|i: int|
            0 <= i < without_line_breaks(s).len() ==> #[trigger] without_line_breaks(s)[i] != '\n'
                && without_line_breaks(s)[i] != '\r',
    decreases s.len(),
{
    if s.len() > 0 {
        law_stripped_has_no_line_breaks(s.drop_last());
        let r = without_line_breaks(s.drop_last());
        assert forall|i: int| 0 <= i < without_line_breaks(s).len() implies #[trigger] without_line_breaks(s)[i] != '\n'
            && without_line_breaks(s)[i] != '\r' by {
            if i < r.len() {
                assert(without_line_breaks(s)[i] == r[i]);
            }
        }
    }
}

/// The pieces joined again with line feeds between them.
pub open spec fn join_lines(parts: Seq<Seq<char>>) -> Seq<char>
    decreases parts.len(),
{
    if parts.len() <= 1 {
        if parts.len() == 1 {
            parts[0]
        } else {
            Seq::empty()
        }
    } else {
        join_lines(parts.drop_last()) + seq!['\n'] + parts.last()
    }
}

/// Splitting a text into lines and joining them with line feeds gives the
/// text back; no line holds a line feed.
pub proof fn law_split_then_join(s: Seq<char>)
    ensures
        join_lines(split_on_newline(s)) == s,
        forall|i: int, j: int|
            0 <= i < split_on_newline(s).len() && 0 <= j < split_on_newline(s)[i].len()
                ==> #[trigger] split_on_newline(s)[i][j] != '\n',
    decreases s.len(),
{
    if s.len() > 0 {
        let t = s.drop_last();
        law_split_then_join(t);
        lemma_split_nonempty(t);
        let parts = split_on_newline(t);
        if s.last() == '\n' {
            let q = parts.push(Seq::<char>::empty());
            assert(q.drop_last() =~= parts);
            assert(join_lines(q) =~= join_lines(parts) + seq!['\n'] + Seq::<char>::empty());
            assert(join_lines(q) =~= s);
        } else {
            let n = parts.len();
            let q = parts.update(n - 1, parts.last().push(s.last()));
            if n == 1 {
                assert(join_lines(parts) == parts[0]);
                assert(q[0] == parts[0].push(s.last()));
                assert(join_lines(q) == q[0]);
                assert(t.push(s.last()) =~= s);
                assert(join_lines(q) =~= s);
            } else {
                assert(q.drop_last() =~= parts.drop_last());
                assert(join_lines(parts) == join_lines(parts.drop_last()) + seq!['\n'] + parts.last());
                assert(q.last() == parts.last().push(s.last()));
                assert(join_lines(q) =~= join_lines(parts.drop_last()) + seq!['\n'] + parts.last().push(s.last()));
                assert(join_lines(q) =~= t.push(s.last()));
                assert(t.push(s.last()) =~= s);
            }
        }
    }
}

/// A command a script defined is found by its name at the prompt, unless
/// the name is that of a built-in command.
pub proof fn law_defined_command_is_found(
    commands: Map<Seq<char>, Seq<char>>,
    cmd: Seq<char>,
    function: Seq<char>,
)
    requires
        seq!['!'] + cmd != "!q"@,
        seq!['!'] + cmd != "!cmds"@,
        seq!['!'] + cmd != "!meminspect"@,
        seq!['!'] + cmd != "!memclear"@,
        seq!['!'] + cmd != "!reload"@,
    ensures
        classify_spec(commands.insert(seq!['!'] + cmd, function), seq!['!'] + cmd)
            == ReplCommandView::Custom(function),
{
}

} // verus!

verus! {

/// One move of a run of a line of code with no script call in between: a
/// step that can run, or the input character handed to a waiting `,`.
pub open spec fn transition(m: MachineView, e: EvalView, m2: MachineView, e2: EvalView) -> bool {
    ||| (step_ok(m, e) && step_spec(m, e).0 == m2 && step_spec(m, e).1 == e2)
    ||| (e.stage == Stage::AwaitInput && m.can_access(m.pointer) && exists|ch: char|
        #[trigger] input_spec(m, e, ch) == (m2, e2))
}

/// A run: a list of states, each reached from the one before by one move.
pub open spec fn is_run(ms: Seq<MachineView>, es: Seq<EvalView>) -> bool {
    &&& ms.len() == es.len()
    &&& ms.len() >= 1
    &&& forall|i: int|
        #![trigger ms[i]]
        0 <= i < ms.len() - 1 ==> transition(ms[i], es[i], ms[i + 1], es[i + 1])
}

/// The pointer value at which a move runs `+` or `-`, if it does.
pub open spec fn plus_minus(m: MachineView, e: EvalView) -> Seq<i32> {
    if e.stage == Stage::Fetch && e.pos < e.code.len() && !m.skip_loop && (e.code[e.pos as int]
        == '+' || e.code[e.pos as int] == '-') {
        seq![m.pointer]
    } else {
        Seq::empty()
    }
}

/// The pointer values at which a move may write a cell: `+`, `-`, and the
/// input of `,`.
pub open spec fn writes(m: MachineView, e: EvalView) -> Seq<i32> {
    plus_minus(m, e) + if e.stage == Stage::AwaitInput {
        seq![m.pointer]
    } else {
        Seq::<i32>::empty()
    }
}

/// The pointer values of the `+` and `-` run by the first `k` moves, in order.
pub open spec fn plus_minus_along(ms: Seq<MachineView>, es: Seq<EvalView>, k: int) -> Seq<i32>
    decreases k,
{
    if k <= 0 {
        Seq::empty()
    } else {
        plus_minus_along(ms, es, k - 1) + plus_minus(ms[k - 1], es[k - 1])
    }
}

/// The pointer values at which the first `k` moves may write, in order.
pub open spec fn writes_along(ms: Seq<MachineView>, es: Seq<EvalView>, k: int) -> Seq<i32>
    decreases k,
{
    if k <= 0 {
        Seq::empty()
    } else {
        writes_along(ms, es, k - 1) + writes(ms[k - 1], es[k - 1])
    }
}

/// `u` with each value of `t` appended, in order, unless it is already there.
pub open spec fn add_new(u: Seq<i32>, t: Seq<i32>) -> Seq<i32>
    decreases t.len(),
{
    if t.len() == 0 {
        u
    } else {
        let v = add_new(u, t.drop_last());
        if v.contains(t.last()) {
            v
        } else {
            v.push(t.last())
        }
    }
}

proof fn lemma_add_new_concat(u: Seq<i32>, a: Seq<i32>, b: Seq<i32>)
    ensures
        add_new(u, a + b) == add_new(add_new(u, a), b),
    decreases b.len(),
{
    if b.len() == 0 {
        assert(a + b =~= a);
    } else {
        lemma_add_new_concat(u, a, b.drop_last());
        assert((a + b).drop_last() =~= a + b.drop_last());
        assert((a + b).last() == b.last());
    }
}

proof fn lemma_add_new_grows(u: Seq<i32>, t: Seq<i32>)
    requires
        u.no_duplicates(),
    ensures
        add_new(u, t).no_duplicates(),
        u.is_prefix_of(add_new(u, t)),
    decreases t.len(),
{
    if t.len() > 0 {
        lemma_add_new_grows(u, t.drop_last());
        let v = add_new(u, t.drop_last());
        if !v.contains(t.last()) {
            assert(v.push(t.last()).no_duplicates()) by {
                assert forall|i: int, j: int|
                    0 <= i < v.len() + 1 && 0 <= j < v.len() + 1 && i != j implies v.push(
                    t.last(),
                )[i] != v.push(t.last())[j] by {
                    if i < v.len() && j < v.len() {
                    } else if i == v.len() {
                        assert(v.contains(v[j]));
                    } else {
                        assert(v.contains(v[i]));
                    }
                }
            }
            assert(u.is_prefix_of(v.push(t.last()))) by {
                assert(v.push(t.last()).take(u.len() as int) =~= v.take(u.len() as int));
            }
        }
    }
}

proof fn lemma_step_used(m: MachineView, e: EvalView)
    requires
        step_ok(m, e),
    ensures
        step_spec(m, e).0.used == add_new(m.used, plus_minus(m, e)),
{
    if e.stage == Stage::Fetch && e.pos < e.code.len() && !m.skip_loop {
        let c = e.code[e.pos as int];
        if c == '+' || c == '-' {
            let t = seq![m.pointer];
            assert(t.drop_last() =~= Seq::<i32>::empty());
            assert(add_new(m.used, t.drop_last()) == m.used);
            assert(t.last() == m.pointer);
            assert(add_new(m.used, t) == m.note_used().used);
        } else {
            assert(plus_minus(m, e) =~= Seq::<i32>::empty());
        }
    } else {
        assert(plus_minus(m, e) =~= Seq::<i32>::empty());
    }
}

proof fn lemma_move_used(m: MachineView, e: EvalView, m2: MachineView, e2: EvalView)
    requires
        transition(m, e, m2, e2),
    ensures
        m2.used == add_new(m.used, plus_minus(m, e)),
{
    if step_ok(m, e) && step_spec(m, e).0 == m2 && step_spec(m, e).1 == e2 {
        lemma_step_used(m, e);
    } else {
        let ch = choose|ch: char| #[trigger] input_spec(m, e, ch) == (m2, e2);
        assert(input_spec(m, e, ch) == (m2, e2));
        assert(plus_minus(m, e) =~= Seq::<i32>::empty());
    }
}

/// What a move keeps, and the cells it may change.
proof fn lemma_move_keeps(m: MachineView, e: EvalView, m2: MachineView, e2: EvalView)
    requires
        transition(m, e, m2, e2),
    ensures
        m2.memory.len() == m.memory.len(),
        m2.cells == m.cells,
        m2.no_bounds == m.no_bounds,
        m2.skip_null_loop == m.skip_null_loop,
        m2.repl_mode == m.repl_mode,
        m2.commands == m.commands,
        m2.instructions == m.instructions,
        e2.code == e.code,
        e2.line == e.line,
        forall|i: int|
            0 <= i < m.memory.len() && (forall|j: int|
                0 <= j < writes(m, e).len() ==> m.cell_index(#[trigger] writes(m, e)[j]) != i)
                ==> m2.memory[i] == m.memory[i],
{
    if step_ok(m, e) && step_spec(m, e).0 == m2 && step_spec(m, e).1 == e2 {
        law_step_keeps_settings(m, e);
        if e.stage == Stage::Fetch && e.pos < e.code.len() && !m.skip_loop {
            let c = e.code[e.pos as int];
            if c == '+' || c == '-' {
                assert(writes(m, e)[0] == m.pointer);
            }
        }
    } else {
        let ch = choose|ch: char| #[trigger] input_spec(m, e, ch) == (m2, e2);
        assert(input_spec(m, e, ch) == (m2, e2));
        assert(writes(m, e)[0] == m.pointer);
    }
}

proof fn lemma_run_used(ms: Seq<MachineView>, es: Seq<EvalView>, k: int)
    requires
        is_run(ms, es),
        0 <= k < ms.len(),
    ensures
        ms[k].used == add_new(ms[0].used, plus_minus_along(ms, es, k)),
    decreases k,
{
    if k > 0 {
        lemma_run_used(ms, es, k - 1);
        assert(transition(ms[k - 1], es[k - 1], ms[k], es[k]));
        lemma_move_used(ms[k - 1], es[k - 1], ms[k], es[k]);
        lemma_add_new_concat(
            ms[0].used,
            plus_minus_along(ms, es, k - 1),
            plus_minus(ms[k - 1], es[k - 1]),
        );
    }
}

/// Over a run of a line of code with no script call in between, the record
/// of changed cells keeps what it held as a prefix, never holds a value
/// twice, and gains exactly the pointer values of the `+` and `-` run, in
/// order of their first use, each that it did not hold already.
pub proof fn law_run_records_changed_cells(ms: Seq<MachineView>, es: Seq<EvalView>)
    requires
        is_run(ms, es),
        ms[0].used.no_duplicates(),
    ensures
        ms.last().used == add_new(ms[0].used, plus_minus_along(ms, es, ms.len() - 1)),
        ms[0].used.is_prefix_of(ms.last().used),
        ms.last().used.no_duplicates(),
{
    lemma_run_used(ms, es, ms.len() - 1);
    lemma_add_new_grows(ms[0].used, plus_minus_along(ms, es, ms.len() - 1));
}

proof fn lemma_run_keeps(ms: Seq<MachineView>, es: Seq<EvalView>, k: int)
    requires
        is_run(ms, es),
        0 <= k < ms.len(),
    ensures
        ms[k].memory.len() == ms[0].memory.len(),
        ms[k].cells == ms[0].cells,
        ms[k].no_bounds == ms[0].no_bounds,
        ms[k].skip_null_loop == ms[0].skip_null_loop,
        ms[k].repl_mode == ms[0].repl_mode,
        ms[k].commands == ms[0].commands,
        ms[k].instructions == ms[0].instructions,
        es[k].code == es[0].code,
        es[k].line == es[0].line,
        forall|i: int|
            0 <= i < ms[0].memory.len() && (forall|j: int|
                0 <= j < writes_along(ms, es, k).len() ==> ms[0].cell_index(
                    #[trigger] writes_along(ms, es, k)[j],
                ) != i) ==> ms[k].memory[i] == ms[0].memory[i],
    decreases k,
{
    if k > 0 {
        lemma_run_keeps(ms, es, k - 1);
        assert(transition(ms[k - 1], es[k - 1], ms[k], es[k]));
        lemma_move_keeps(ms[k - 1], es[k - 1], ms[k], es[k]);
        let before = writes_along(ms, es, k - 1);
        let w = writes(ms[k - 1], es[k - 1]);
        assert(writes_along(ms, es, k) == before + w);
        assert forall|i: int|
            0 <= i < ms[0].memory.len() && (forall|j: int|
                0 <= j < writes_along(ms, es, k).len() ==> ms[0].cell_index(
                    #[trigger] writes_along(ms, es, k)[j],
                ) != i) implies ms[k].memory[i] == ms[0].memory[i] by {
            assert forall|j: int| 0 <= j < before.len() implies ms[0].cell_index(
                #[trigger] before[j],
            ) != i by {
                assert(writes_along(ms, es, k)[j] == before[j]);
            }
            assert forall|j: int| 0 <= j < w.len() implies ms[k - 1].cell_index(#[trigger] w[j])
                != i by {
                assert(writes_along(ms, es, k)[before.len() + j] == w[j]);
            }
        }
    }
}

/// Over a run of a line of code with no script call in between, the length
/// of the tape, the number of cells, the settings, the script-defined names
/// and the code stay as they were, and only the cells reached by the `+`,
/// `-` and `,` run may change.
pub proof fn law_run_keeps_tape(ms: Seq<MachineView>, es: Seq<EvalView>)
    requires
        is_run(ms, es),
    ensures
        ms.last().memory.len() == ms[0].memory.len(),
        ms.last().cells == ms[0].cells,
        ms.last().no_bounds == ms[0].no_bounds,
        ms.last().skip_null_loop == ms[0].skip_null_loop,
        ms.last().repl_mode == ms[0].repl_mode,
        ms.last().commands == ms[0].commands,
        ms.last().instructions == ms[0].instructions,
        es.last().code == es[0].code,
        forall|i: int|
            0 <= i < ms[0].memory.len() && (forall|j: int|
                0 <= j < writes_along(ms, es, ms.len() - 1).len() ==> ms[0].cell_index(
                    #[trigger] writes_along(ms, es, ms.len() - 1)[j],
                ) != i) ==> ms.last().memory[i] == ms[0].memory[i],
{
    lemma_run_keeps(ms, es, ms.len() - 1);
}

} // verus!

verus! {

/// A `[` met on a zero cell (with zero-cell loops skipped) only starts
/// skipping: the jump stack, the pointer, the tape, the record of changed
/// cells and the position stay as they were.
pub proof fn law_zero_open_only_skips(m: MachineView, pos: usize)
    requires
        m.can_access(m.pointer),
        m.read(m.pointer) == 0,
        m.skip_null_loop,
    ensures
        core_spec(m, '[', pos) == (MachineView { skip_loop: true, ..m }, pos),
        core_spec(m, '[', pos).0.jumps == m.jumps,
{
}

/// The jump stack changes only by a push of the position at a `[` on a
/// nonzero cell, and by a pop at a `]` on a zero cell; a `]` on a nonzero
/// cell goes to the position on top of the stack.
pub proof fn law_jump_stack_changes(m: MachineView, c: char, pos: usize)
    requires
        m.can_access(m.pointer),
    ensures
        core_spec(m, c, pos).0.jumps == (if c == '[' && m.read(m.pointer) != 0 {
            m.jumps.push(pos)
        } else if c == ']' && m.jumps.len() > 0 && m.read(m.pointer) == 0 {
            m.jumps.drop_last()
        } else {
            m.jumps
        }),
        core_spec(m, c, pos).1 == (if c == ']' && m.jumps.len() > 0 && m.read(m.pointer) != 0 {
            m.jumps[m.jumps.len() - 1]
        } else {
            pos
        }),
{
}

/// What each instruction does to the pointer and the tape: `+` and `-` add
/// and take one from the cell at the pointer (wrapping within a byte) and
/// change no other cell, `>` and `<` move the pointer by one and change no
/// cell, and the other characters change neither.
pub proof fn law_instruction_effects(m: MachineView, c: char, pos: usize)
    requires
        m.can_access(m.pointer),
        c == '>' ==> m.pointer < i32::MAX,
        c == '<' ==> m.pointer > i32::MIN,
    ensures
        c == '+' ==> core_spec(m, c, pos).0.read(m.pointer) as int == (m.read(m.pointer) as int + 1)
            % 256,
        c == '-' ==> core_spec(m, c, pos).0.read(m.pointer) as int == (m.read(m.pointer) as int
            + 255) % 256,
        (c == '+' || c == '-') ==> core_spec(m, c, pos).0.used.contains(m.pointer),
        (c == '+' || c == '-') ==> forall|i: int|
            0 <= i < m.memory.len() && i != m.cell_index(m.pointer) ==> #[trigger] core_spec(
                m,
                c,
                pos,
            ).0.memory[i] == m.memory[i],
        (c == '+' || c == '-') ==> core_spec(m, c, pos).0.pointer == m.pointer,
        c == '>' ==> core_spec(m, c, pos).0.pointer == m.pointer + 1,
        c == '<' ==> core_spec(m, c, pos).0.pointer == m.pointer - 1,
        (c != '+' && c != '-') ==> core_spec(m, c, pos).0.memory == m.memory,
        (c != '>' && c != '<') ==> core_spec(m, c, pos).0.pointer == m.pointer,
        core_spec(m, c, pos).0.memory.len() == m.memory.len(),
{
    if c == '+' || c == '-' {
        let v = m.read(m.pointer) as int;
        if c == '-' {
            assert(byte_of(v - 1) as int == (v + 255) % 256);
        }
        let m1 = m.write(m.pointer, if c == '+' { v + 1 } else { v - 1 });
        if !m1.used.contains(m1.pointer) {
            assert(m1.used.push(m1.pointer)[m1.used.len() as int] == m.pointer);
        }
    }
}

/// `.` asks to print exactly one character, the one whose code is the value
/// of the cell at the pointer, whatever that value is.
pub proof fn law_dot_prints_cell_character(m: MachineView, e: EvalView)
    requires
        e.stage == Stage::Fetch,
        e.pos < e.code.len(),
        !m.skip_loop,
        e.code[e.pos as int] == '.',
    ensures
        fetch_spec(m, e).2 matches ActionView::Print(t) && t.len() == 1 && t[0] as u32 == m.read(
            m.pointer,
        ) as u32,
        fetch_spec(m, e).0 == m,
{
}

/// The value that a text of decimal digits stands for.
pub open spec fn digits_value(s: Seq<char>) -> int
    decreases s.len(),
{
    if s.len() == 0 {
        0
    } else {
        digits_value(s.drop_last()) * 10 + (s.last() as int - 48)
    }
}

/// The decimal writing of `n` is made of digits, starts with a nonzero digit
/// unless it is "0", and stands for `n`.
pub proof fn law_decimal_reads_back(n: nat)
    ensures
        forall|i: int| 0 <= i < decimal(n).len() ==> '0' <= #[trigger] decimal(n)[i] <= '9',
        digits_value(decimal(n)) == n,
        decimal(n).len() >= 1,
        n > 0 ==> decimal(n)[0] != '0',
        n == 0 ==> decimal(n) == seq!['0'],
    decreases n,
{
    if n < 10 {
        assert(decimal(n) == seq![digit_char(n)]);
        assert(digit_char(n) as int == 48 + n);
        assert(decimal(n).drop_last() =~= Seq::<char>::empty());
        assert(digits_value(Seq::<char>::empty()) == 0);
        assert(digits_value(decimal(n)) == digits_value(decimal(n).drop_last()) * 10 + (
        decimal(n).last() as int - 48));
    } else {
        law_decimal_reads_back(n / 10);
        assert(digit_char(n % 10) as int == 48 + n % 10);
        let d = decimal(n / 10);
        assert(decimal(n) == d.push(digit_char(n % 10)));
        assert(decimal(n).drop_last() =~= d);
        assert(n == (n / 10) * 10 + n % 10);
        assert(digits_value(decimal(n)) == digits_value(d) * 10 + (digit_char(n % 10) as int
            - 48));
        assert(digits_value(d) == n / 10);
        assert(decimal(n)[0] == d[0]);
        assert forall|i: int| 0 <= i < decimal(n).len() implies '0' <= #[trigger] decimal(n)[i]
            <= '9' by {
            if i < d.len() {
                assert(decimal(n)[i] == d[i]);
            }
        }
    }
}

/// `*` asks to print the decimal writing of the cell at the pointer: digits
/// that stand for the cell's value.
pub proof fn law_star_prints_cell_value(m: MachineView, e: EvalView)
    requires
        e.stage == Stage::Fetch,
        e.pos < e.code.len(),
        !m.skip_loop,
        e.code[e.pos as int] == '*',
    ensures
        fetch_spec(m, e).2 matches ActionView::Print(t) && digits_value(t) == m.read(m.pointer)
            as int && t.len() >= 1 && (forall|i: int| 0 <= i < t.len() ==> '0' <= #[trigger] t[i]
            <= '9'),
        fetch_spec(m, e).0 == m,
{
    law_decimal_reads_back(m.read(m.pointer) as nat);
}

/// The input of `,` stores the low eight bits of the character's code
/// point in the cell at the pointer, and changes no other cell.
pub proof fn law_input_stores_code_point(m: MachineView, e: EvalView, ch: char)
    requires
        m.can_access(m.pointer),
    ensures
        input_spec(m, e, ch).0.read(m.pointer) == ((ch as u32) % 256) as u8,
        forall|i: int|
            0 <= i < m.memory.len() && i != m.cell_index(m.pointer) ==> #[trigger] input_spec(
                m,
                e,
                ch,
            ).0.memory[i] == m.memory[i],
        input_spec(m, e, ch).0.memory.len() == m.memory.len(),
        input_spec(m, e, ch).0.pointer == m.pointer,
{
}

/// Cleaning keeps exactly the instruction characters, in order: it is the
/// filter of the instruction characters.
pub proof fn law_clean_is_filter(s: Seq<char>)
    ensures
        commands_only(s) == s.filter(|c: char| is_command_char(c)),
    decreases s.len(),
{
    reveal(Seq::filter);
    if s.len() > 0 {
        law_clean_is_filter(s.drop_last());
    }
}

/// Cleaning code in two parts is cleaning each part: a character that is no
/// instruction drops out and changes nothing around it.
pub proof fn law_clean_distributes(a: Seq<char>, b: Seq<char>)
    ensures
        commands_only(a + b) == commands_only(a) + commands_only(b),
    decreases b.len(),
{
    if b.len() == 0 {
        assert(a + b =~= a);
        assert(commands_only(b) =~= Seq::<char>::empty());
    } else {
        law_clean_distributes(a, b.drop_last());
        assert((a + b).drop_last() =~= a + b.drop_last());
        assert((a + b).last() == b.last());
        if is_command_char(b.last()) {
            assert(commands_only(a) + commands_only(b) =~= (commands_only(a) + commands_only(
                b.drop_last(),
            )).push(b.last()));
        }
    }
}

/// A character that is no instruction cleans to nothing; an instruction
/// character cleans to itself.
pub proof fn law_clean_one_character(c: char)
    ensures
        commands_only(seq![c]) == (if is_command_char(c) {
            seq![c]
        } else {
            Seq::<char>::empty()
        }),
{
    assert(seq![c].drop_last() =~= Seq::<char>::empty());
    assert(seq![c].last() == c);
    assert(commands_only(Seq::<char>::empty()) == Seq::<char>::empty());
    if is_command_char(c) {
        assert(Seq::<char>::empty().push(c) =~= seq![c]);
    }
}

/// A typed line quits only when it is exactly `!q`; each built-in name gives
/// its command; a script-defined command is found by its name; and every
/// other line, the empty one among them, is code to run.
pub proof fn law_classify_lines(commands: Map<Seq<char>, Seq<char>>, line: Seq<char>)
    ensures
        (classify_spec(commands, line) == ReplCommandView::Quit) <==> line == "!q"@,
        (classify_spec(commands, line) == ReplCommandView::ListCommands) <==> line == "!cmds"@,
        (classify_spec(commands, line) == ReplCommandView::InspectMemory) <==> line
            == "!meminspect"@,
        (classify_spec(commands, line) == ReplCommandView::ClearMemory) <==> line == "!memclear"@,
        (classify_spec(commands, line) == ReplCommandView::Reload) <==> line == "!reload"@,
        (line != "!q"@ && line != "!cmds"@ && line != "!meminspect"@ && line != "!memclear"@
            && line != "!reload"@) ==> classify_spec(commands, line) == (if commands.contains_key(
            line,
        ) {
            ReplCommandView::Custom(commands[line])
        } else {
            ReplCommandView::Code
        }),
        line.len() == 0 && !commands.contains_key(line) ==> classify_spec(commands, line)
            == ReplCommandView::Code,
{
    reveal_strlit("!q");
    reveal_strlit("!cmds");
    reveal_strlit("!meminspect");
    reveal_strlit("!memclear");
    reveal_strlit("!reload");
    assert("!q"@.len() == 2);
    assert("!cmds"@.len() == 5);
    assert("!meminspect"@.len() == 11);
    assert("!memclear"@.len() == 9);
    assert("!reload"@.len() == 7);
    assert("!q"@ != "!cmds"@ && "!q"@ != "!meminspect"@ && "!q"@ != "!memclear"@ && "!q"@
        != "!reload"@);
    assert("!cmds"@ != "!meminspect"@ && "!cmds"@ != "!memclear"@ && "!cmds"@ != "!reload"@);
    assert("!meminspect"@ != "!memclear"@ && "!meminspect"@ != "!reload"@);
    assert("!memclear"@ != "!reload"@);
}

} // verus!

verus! {

/// After an instruction other than `.`, `*` and `,`, a script-defined
/// instruction of the same character is called; without one, the position
/// moves on by one from where the instruction left it, and the pointer check
/// runs with the index of that new position.
pub proof fn law_instruction_then_custom_or_move_on(m: MachineView, e: EvalView)
    requires
        m.wf(),
        eval_wf(e),
        e.stage == Stage::Fetch,
        e.pos < e.code.len(),
        !m.skip_loop,
        e.code[e.pos as int] != '.',
        e.code[e.pos as int] != '*',
        e.code[e.pos as int] != ',',
    ensures
        ({
            let c = e.code[e.pos as int];
            let (m1, p1) = core_spec(m, c, e.pos);
            if m.instructions.contains_key(seq![c]) {
                &&& fetch_spec(m, e).2 == ActionView::CallFunction(m.instructions[seq![c]])
                &&& fetch_spec(m, e).0 == m1
                &&& fetch_spec(m, e).1.pos == p1
                &&& fetch_spec(m, e).1.stage == Stage::Advance
            } else {
                &&& fetch_spec(m, e).1.pos == p1 + 1
                &&& fetch_spec(m, e).1.stage == Stage::Fetch
                &&& fetch_spec(m, e).0 == check_spec(m1, e.line, (p1 + 1) as i32).0
                &&& (fetch_spec(m, e).2 == ActionView::Proceed) <==> check_spec(
                    m1,
                    e.line,
                    (p1 + 1) as i32,
                ).1 is None
            }
        }),
{
}

/// Stripping a line keeps exactly its characters other than line feeds and
/// carriage returns, in order.
pub proof fn law_strip_is_filter(s: Seq<char>)
    ensures
        without_line_breaks(s) == s.filter(|c: char| c != '\n' && c != '\r'),
    decreases s.len(),
{
    reveal(Seq::filter);
    if s.len() > 0 {
        law_strip_is_filter(s.drop_last());
    }
}

/// The code shown around a fault is at most fifteen characters of the line,
/// and holds the instruction that caused it whenever that instruction is in
/// the line.
pub proof fn law_fault_window(len: int, index: int)
    requires
        0 <= len,
    ensures
        0 <= window_start(len, index) <= window_end(len, index) <= len,
        window_end(len, index) - window_start(len, index) <= 15,
        1 <= index <= len ==> window_start(len, index) <= index - 1 < window_end(len, index),
        0 <= index - 8 <= len ==> window_start(len, index) == index - 8,
        0 <= index + 7 <= len ==> window_end(len, index) == index + 7,
{
}

} // verus!

verus! {

/// A cleared tape has as many cells as asked for (none for a count below
/// one), and every cell reads zero.
pub proof fn law_cleared_tape_is_zero(n: int)
    ensures
        zero_tape(n).len() == if n > 0 { n } else { 0 },
        forall|i: int| 0 <= i < zero_tape(n).len() ==> #[trigger] zero_tape(n)[i] == 0,
{
}

} // verus!
