use vstd::prelude::*;
use crate::color::{colored, rgb_line, rgb_text};
use crate::text::{chars_of, decimal, push_all, push_decimal, push_signed_decimal, signed_decimal};

verus! {

/// The banner of the interactive prompt, naming the number of cells.
pub open spec fn banner_spec(cells: i32) -> Seq<char> {
    colored("rBF v1.0 (repl, memlen: "@ + signed_decimal(cells as int) + ") !cmds - cmd list"@, 3, 252, 202)
        .push('\n')
}

/// The prompt: the pointer, then `>>`.
pub open spec fn prompt_spec(pointer: i32) -> Seq<char> {
    signed_decimal(pointer as int) + " >> "@
}

/// The list of built-in commands, as printed for `!cmds`.
pub open spec fn command_list_spec() -> Seq<char> {
    colored("Command list"@, 0, 255, 0).push('\n')
        + colored("!meminspect - view used memory"@, 3, 252, 202).push('\n')
        + colored("!memclear - clear memory"@, 3, 252, 202).push('\n')
        + colored("!reload - reload lua script"@, 3, 252, 202).push('\n')
        + colored("!q - quit repl"@, 3, 252, 202).push('\n')
}

/// The row that `!meminspect` prints for a changed cell: its pointer value,
/// the cell's value, and that value as a character.
pub open spec fn inspect_row(p: i32, v: u8) -> Seq<char> {
    colored("└─ "@ + signed_decimal(p as int) + " │ "@, 115, 108, 237) + colored(
        decimal(v as nat),
        100,
        182,
        172,
    ) + colored(" ( "@ + seq![v as char] + " )"@, 100, 182, 172) + seq!['\n']
}

/// The rows of `!meminspect`, in order.
pub open spec fn inspect_rows(cells: Seq<(i32, u8)>) -> Seq<char>
    decreases cells.len(),
{
    if cells.len() == 0 {
        Seq::empty()
    } else {
        inspect_rows(cells.drop_last()) + inspect_row(cells.last().0, cells.last().1)
    }
}

/// What `!meminspect` prints: a heading, the cell at the pointer, then a row
/// for each changed cell.
pub open spec fn inspect_spec(current: u8, cells: Seq<(i32, u8)>) -> Seq<char> {
    colored("Memory inspect:"@, 0, 255, 0).push('\n') + colored(
        "Pointer value: "@ + decimal(current as nat),
        3,
        252,
        202,
    ).push('\n') + inspect_rows(cells)
}

/// The banner of the interactive prompt.
pub fn banner_text(cells: i32) -> (out: Vec<char>)
    ensures
        out@ == banner_spec(cells),
{
    let mut t = chars_of("rBF v1.0 (repl, memlen: ");
    push_signed_decimal(cells as i64, &mut t);
    push_all(&mut t, &chars_of(") !cmds - cmd list"));
    assert(t@ =~= "rBF v1.0 (repl, memlen: "@ + signed_decimal(cells as int) + ") !cmds - cmd list"@);
    rgb_line(&t, 3, 252, 202)
}

/// The prompt.
pub fn prompt_text(pointer: i32) -> (out: Vec<char>)
    ensures
        out@ == prompt_spec(pointer),
{
    let mut t: Vec<char> = Vec::new();
    push_signed_decimal(pointer as i64, &mut t);
    push_all(&mut t, &chars_of(" >> "));
    assert(t@ =~= prompt_spec(pointer));
    t
}

/// The list of built-in commands.
pub fn command_list_text() -> (out: Vec<char>)
    ensures
        out@ == command_list_spec(),
{
    let mut out = rgb_line(&chars_of("Command list"), 0, 255, 0);
    push_all(&mut out, &rgb_line(&chars_of("!meminspect - view used memory"), 3, 252, 202));
    push_all(&mut out, &rgb_line(&chars_of("!memclear - clear memory"), 3, 252, 202));
    push_all(&mut out, &rgb_line(&chars_of("!reload - reload lua script"), 3, 252, 202));
    push_all(&mut out, &rgb_line(&chars_of("!q - quit repl"), 3, 252, 202));
    assert(out@ =~= command_list_spec());
    out
}

fn inspect_row_text(p: i32, v: u8) -> (out: Vec<char>)
    ensures
        out@ == inspect_row(p, v),
{
    let mut head = chars_of("└─ ");
    push_signed_decimal(p as i64, &mut head);
    push_all(&mut head, &chars_of(" │ "));
    assert(head@ =~= "└─ "@ + signed_decimal(p as int) + " │ "@);
    let mut value: Vec<char> = Vec::new();
    push_decimal(v as u64, &mut value);
    assert(value@ =~= decimal(v as nat));
    let mut shown = chars_of(" ( ");
    shown.push(v as char);
    push_all(&mut shown, &chars_of(" )"));
    assert(shown@ =~= " ( "@ + seq![v as char] + " )"@);
    let mut out = rgb_text(&head, 115, 108, 237);
    push_all(&mut out, &rgb_text(&value, 100, 182, 172));
    push_all(&mut out, &rgb_text(&shown, 100, 182, 172));
    out.push('\n');
    assert(out@ =~= inspect_row(p, v));
    out
}

/// What `!meminspect` prints for the cell at the pointer and the changed
/// cells (as `Interpreter::inspect_memory` gives them).
pub fn inspect_text(current: u8, cells: &Vec<(i32, u8)>) -> (out: Vec<char>)
    ensures
        out@ == inspect_spec(current, cells@),
{
    let mut out = rgb_line(&chars_of("Memory inspect:"), 0, 255, 0);
    let mut value = chars_of("Pointer value: ");
    push_decimal(current as u64, &mut value);
    assert(value@ =~= "Pointer value: "@ + decimal(current as nat));
    push_all(&mut out, &rgb_line(&value, 3, 252, 202));
    let ghost head = out@;
    let mut i: usize = 0;
    while i < cells.len()
        invariant
            i <= cells.len(),
            out@ == head + inspect_rows(cells@.take(i as int)),
        decreases cells.len() - i,
    {
        let (p, v) = cells[i];
        let row = inspect_row_text(p, v);
        push_all(&mut out, &row);
        assert(cells@.take(i as int + 1).drop_last() =~= cells@.take(i as int));
        i = i + 1;
        assert(out@ =~= head + inspect_rows(cells@.take(i as int)));
    }
    assert(cells@.take(cells.len() as int) =~= cells@);
    out
}

} // verus!
