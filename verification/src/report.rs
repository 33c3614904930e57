use vstd::prelude::*;
use crate::bounds::{clamp, clamp_spec};
use crate::color::{colored, error_report, raise_error, rgb_text};
use crate::machine::MAX_CODE_LEN;
use crate::semantics::{BoundsFault, FaultKind, FaultReport};
use crate::text::{chars_of, push_all, push_repeated, push_signed_decimal, repeated, signed_decimal};

verus! {

/// The description of a pointer fault.
pub open spec fn fault_description(kind: FaultKind) -> Seq<char> {
    match kind {
        FaultKind::Underflow => "Cursor outside of memory boundaries (underflow)"@,
        FaultKind::Overflow => "Cursor outside of memory boundaries (overflow)"@,
    }
}

/// The printed error of a pointer fault: a memory error with its description.
pub open spec fn fault_message_spec(kind: FaultKind) -> Seq<char> {
    error_report("MemError"@, fault_description(kind))
}

/// The label before a line of code: its number counted from one, and a bar.
pub open spec fn line_label(line: i32) -> Seq<char> {
    signed_decimal(line + 1) + " | "@
}

/// The first position of the code shown around a fault.
pub open spec fn window_start(len: int, index: int) -> int {
    clamp_spec(index - 8, 0, len)
}

/// The position after the last of the code shown around a fault.
pub open spec fn window_end(len: int, index: int) -> int {
    clamp_spec(index + 7, 0, len)
}

/// The mark under the instruction that caused a fault.
pub open spec fn marker() -> Seq<char> {
    colored("┌─ occured here"@, 239, 76, 60)
}

/// The row under the code shown: the mark under position `target`, a space
/// under every other position from `from` up to `to`.
pub open spec fn marker_row(from: int, to: int, target: int) -> Seq<char>
    decreases to - from,
{
    if to <= from {
        Seq::empty()
    } else {
        marker_row(from, to - 1, target) + (if to - 1 == target {
            marker()
        } else {
            seq![' ']
        })
    }
}

/// The full printed report of a fault in `code`: the error; a row as wide
/// as the line label, then the mark under the instruction; and the label
/// followed by the code around the instruction (up to eight positions
/// before the index and six after the instruction).
pub open spec fn fault_text_spec(code: Seq<char>, r: FaultReport) -> Seq<char> {
    let start = window_start(code.len() as int, r.index as int);
    let end = window_end(code.len() as int, r.index as int);
    fault_message_spec(r.fault.kind) + repeated(' ', line_label(r.line).len()) + marker_row(
        start,
        end,
        r.index - 1,
    ) + seq!['\n'] + line_label(r.line) + code.subrange(start, end) + seq!['\n']
}

/// The printed error of a pointer fault.
pub fn fault_message(fault: BoundsFault) -> (out: Vec<char>)
    ensures
        out@ == fault_message_spec(fault.kind),
{
    let name = chars_of("MemError");
    let description = match fault.kind {
        FaultKind::Underflow => chars_of("Cursor outside of memory boundaries (underflow)"),
        FaultKind::Overflow => chars_of("Cursor outside of memory boundaries (overflow)"),
    };
    raise_error(&name, &description)
}

/// The printed report of the pointer fault `report`, met while running
/// `code`.
pub fn fault_text(code: &Vec<char>, report: &FaultReport) -> (out: Vec<char>)
    requires
        code@.len() <= MAX_CODE_LEN,
        report.line < i32::MAX,
        i32::MIN + 8 <= report.index <= i32::MAX - 7,
    ensures
        out@ == fault_text_spec(code@, *report),
{
    let mut out = fault_message(report.fault);
    let mut label: Vec<char> = Vec::new();
    push_signed_decimal(report.line as i64 + 1, &mut label);
    let bar = chars_of(" | ");
    push_all(&mut label, &bar);
    assert(label@ =~= line_label(report.line));
    push_repeated(&mut out, ' ', label.len());
    let len = code.len() as i32;
    let start = clamp(report.index - 8, 0, len);
    let end = clamp(report.index + 7, 0, len);
    let mark = rgb_text(&chars_of("┌─ occured here"), 239, 76, 60);
    let ghost head = out@;
    let mut i: i32 = start;
    while i < end
        invariant
            start <= i,
            start <= end ==> i <= end,
            out@ == head + marker_row(start as int, i as int, report.index - 1),
            mark@ == marker(),
            i32::MIN + 8 <= report.index,
        decreases end - i,
    {
        if i == report.index - 1 {
            push_all(&mut out, &mark);
        } else {
            out.push(' ');
        }
        i = i + 1;
        assert(out@ =~= head + marker_row(start as int, i as int, report.index - 1));
    }
    assert(i == end || start > end);
    out.push('\n');
    push_all(&mut out, &label);
    let ghost before = out@;
    let mut j: i32 = start;
    while j < end
        invariant
            0 <= start <= j,
            start <= end ==> j <= end,
            end <= code@.len(),
            out@ == before + code@.subrange(start as int, j as int),
        decreases end - j,
    {
        out.push(code[j as usize]);
        j = j + 1;
        assert(out@ =~= before + code@.subrange(start as int, j as int));
    }
    out.push('\n');
    assert(out@ =~= fault_text_spec(code@, *report));
    out
}

} // verus!
