use vstd::prelude::*;
use crate::interpreter::Interpreter;
use crate::text::{chars_of, same_text};

verus! {

/// `s` without its line feeds and carriage returns.
pub open spec fn without_line_breaks(s: Seq<char>) -> Seq<char>
    decreases s.len(),
{
    if s.len() == 0 {
        s
    } else if s.last() == '\n' || s.last() == '\r' {
        without_line_breaks(s.drop_last())
    } else {
        without_line_breaks(s.drop_last()).push(s.last())
    }
}

/// The pieces of `s` between its line feeds: one more piece than there are
/// line feeds, an empty one wherever two line feeds meet or one stands at
/// an end.
pub open spec fn split_on_newline(s: Seq<char>) -> Seq<Seq<char>>
    decreases s.len(),
{
    if s.len() == 0 {
        seq![Seq::empty()]
    } else {
        let parts = split_on_newline(s.drop_last());
        if s.last() == '\n' {
            parts.push(Seq::empty())
        } else {
            parts.update(parts.len() - 1, parts.last().push(s.last()))
        }
    }
}

/// Splitting always gives at least one piece.
pub proof fn lemma_split_nonempty(s: Seq<char>)
    ensures
        split_on_newline(s).len() >= 1,
    decreases s.len(),
{
    if s.len() > 0 {
        lemma_split_nonempty(s.drop_last());
    }
}

/// The texts of a list of texts.
pub open spec fn texts_view(v: Seq<Vec<char>>) -> Seq<Seq<char>> {
    v.map_values(|t: Vec<char>| t@)
}

/// What a line typed at the prompt asks for.
#[derive(Debug, PartialEq, Eq)]
pub enum ReplCommand {
    /// `!q`: leave.
    Quit,
    /// `!cmds`: list the commands.
    ListCommands,
    /// `!meminspect`: show the changed cells.
    InspectMemory,
    /// `!memclear`: clear the tape.
    ClearMemory,
    /// `!reload`: forget the script's definitions and run the script again.
    Reload,
    /// A script-defined command: call this script function.
    Custom(Vec<char>),
    /// Anything else: code to run.
    Code,
}

/// A `ReplCommand` as values.
pub enum ReplCommandView {
    Quit,
    ListCommands,
    InspectMemory,
    ClearMemory,
    Reload,
    Custom(Seq<char>),
    Code,
}

impl View for ReplCommand {
    type V = ReplCommandView;

    open spec fn view(&self) -> ReplCommandView {
        match self {
            ReplCommand::Quit => ReplCommandView::Quit,
            ReplCommand::ListCommands => ReplCommandView::ListCommands,
            ReplCommand::InspectMemory => ReplCommandView::InspectMemory,
            ReplCommand::ClearMemory => ReplCommandView::ClearMemory,
            ReplCommand::Reload => ReplCommandView::Reload,
            ReplCommand::Custom(f) => ReplCommandView::Custom(f@),
            ReplCommand::Code => ReplCommandView::Code,
        }
    }
}

/// What `line` asks for, given the script-defined commands: the built-in
/// commands first, then the script's, and code otherwise.
pub open spec fn classify_spec(commands: Map<Seq<char>, Seq<char>>, line: Seq<char>) -> ReplCommandView {
    if line == "!q"@ {
        ReplCommandView::Quit
    } else if line == "!cmds"@ {
        ReplCommandView::ListCommands
    } else if line == "!meminspect"@ {
        ReplCommandView::InspectMemory
    } else if line == "!memclear"@ {
        ReplCommandView::ClearMemory
    } else if line == "!reload"@ {
        ReplCommandView::Reload
    } else if commands.contains_key(line) {
        ReplCommandView::Custom(commands[line])
    } else {
        ReplCommandView::Code
    }
}

/// `line` without its line feeds and carriage returns.
pub fn strip_line_breaks(line: &Vec<char>) -> (r: Vec<char>)
    ensures
        r@ == without_line_breaks(line@),
{
    let mut r: Vec<char> = Vec::new();
    let mut i: usize = 0;
    while i < line.len()
        invariant
            i <= line.len(),
            r@ == without_line_breaks(line@.take(i as int)),
        decreases line.len() - i,
    {
        let c = line[i];
        assert(line@.take(i as int + 1).drop_last() =~= line@.take(i as int));
        if c != '\n' && c != '\r' {
            r.push(c);
        }
        i = i + 1;
    }
    assert(line@.take(line.len() as int) =~= line@);
    r
}

/// The lines of `text`: its pieces between line feeds.
pub fn split_lines(text: &Vec<char>) -> (lines: Vec<Vec<char>>)
    ensures
        texts_view(lines@) == split_on_newline(text@),
{
    let mut lines: Vec<Vec<char>> = Vec::new();
    let mut current: Vec<char> = Vec::new();
    let mut i: usize = 0;
    assert(text@.take(0) =~= Seq::<char>::empty());
    assert(texts_view(lines@).push(current@) =~= split_on_newline(text@.take(0)));
    while i < text.len()
        invariant
            i <= text.len(),
            texts_view(lines@).push(current@) == split_on_newline(text@.take(i as int)),
        decreases text.len() - i,
    {
        let c = text[i];
        let ghost s = text@.take(i as int + 1);
        assert(s.drop_last() =~= text@.take(i as int));
        if c == '\n' {
            let done = current;
            lines.push(done);
            current = Vec::new();
            assert(texts_view(lines@).push(current@) =~= split_on_newline(s));
        } else {
            current.push(c);
            assert(texts_view(lines@).push(current@) =~= split_on_newline(s));
        }
        i = i + 1;
    }
    assert(text@.take(text.len() as int) =~= text@);
    lines.push(current);
    assert(texts_view(lines@) =~= split_on_newline(text@));
    lines
}

/// What a line typed at the prompt asks for.
pub fn classify_input(interp: &Interpreter, line: &Vec<char>) -> (r: ReplCommand)
    requires
        interp.wf(),
    ensures
        r@ == classify_spec(interp@.commands, line@),
{
    if same_text(line, &chars_of("!q")) {
        ReplCommand::Quit
    } else if same_text(line, &chars_of("!cmds")) {
        ReplCommand::ListCommands
    } else if same_text(line, &chars_of("!meminspect")) {
        ReplCommand::InspectMemory
    } else if same_text(line, &chars_of("!memclear")) {
        ReplCommand::ClearMemory
    } else if same_text(line, &chars_of("!reload")) {
        ReplCommand::Reload
    } else {
        match interp.command(line) {
            Some(f) => ReplCommand::Custom(f),
            None => ReplCommand::Code,
        }
    }
}

} // verus!
