use colorful::Colorful;
use colorful::RGB;
use vstd::prelude::*;
use crate::text::{chars_of, decimal, push_all};

verus! {

/// The terminal text that shows `text` in the 24-bit foreground colour
/// (`r`, `g`, `b`): the escape sequence `ESC [ 38 ; 2 ; r ; g ; b m`, the
/// text, and the reset sequence `ESC [ 0 m`.
pub open spec fn colored(text: Seq<char>, r: u8, g: u8, b: u8) -> Seq<char> {
    seq!['\x1b', '[', '3', '8', ';', '2', ';'] + decimal(r as nat) + seq![';'] + decimal(g as nat)
        + seq![';'] + decimal(b as nat) + seq!['m'] + text + seq!['\x1b', '[', '0', 'm']
}

/// Colours `text` with `colorful`: `Colorful::color` with `RGB::new(r, g, b)`,
/// written out through its `Display` impl. The contract states what that
/// impl writes for a string that carries only a foreground RGB colour (the
/// RGB foreground prefix, the colour as `r;g;b`, `m`, the text, the reset).
#[verifier::external_body]
fn colorize(text: &Vec<char>, r: u8, g: u8, b: u8) -> (out: Vec<char>)
    ensures
        out@ == colored(text@, r, g, b),
{
    let plain: String = text.iter().collect();
    let shown: String = format!("{}", plain.color(RGB::new(r, g, b)));
    shown.chars().collect()
}

/// `text` as it is printed in the colour (`r`, `g`, `b`).
pub fn rgb_text(text: &Vec<char>, r: u8, g: u8, b: u8) -> (out: Vec<char>)
    ensures
        out@ == colored(text@, r, g, b),
{
    colorize(text, r, g, b)
}

/// `text` as it is printed in the colour (`r`, `g`, `b`), as a line of its own.
pub fn rgb_line(text: &Vec<char>, r: u8, g: u8, b: u8) -> (out: Vec<char>)
    ensures
        out@ == colored(text@, r, g, b).push('\n'),
{
    let mut out = colorize(text, r, g, b);
    out.push('\n');
    out
}

/// The message of an error: an empty line, then `Error: name.description`.
pub open spec fn error_message(name: Seq<char>, description: Seq<char>) -> Seq<char> {
    "\nError: "@ + name + seq!['.'] + description
}

/// The printed report of an error: its message in red, as a line of its own.
pub open spec fn error_report(name: Seq<char>, description: Seq<char>) -> Seq<char> {
    colored(error_message(name, description), 255, 0, 0).push('\n')
}

/// The text printed for an error named `name` with the given description.
pub fn raise_error(name: &Vec<char>, description: &Vec<char>) -> (out: Vec<char>)
    ensures
        out@ == error_report(name@, description@),
{
    let mut message = chars_of("\nError: ");
    push_all(&mut message, name);
    message.push('.');
    push_all(&mut message, description);
    proof {
        assert(message@ =~= error_message(name@, description@));
    }
    rgb_line(&message, 255, 0, 0)
}

} // verus!
