use rbf::bounds::clamp;
use rbf::color::{raise_error, rgb_line, rgb_text};
use rbf::display::{banner_text, command_list_text, inspect_text, prompt_text};
use rbf::interpreter::{keep_commands, Evaluation, Interpreter};
use rbf::machine::DEFAULT_CELLS;
use rbf::repl::{classify_input, split_lines, strip_line_breaks, ReplCommand};
use rbf::report::{fault_message, fault_text};
use rbf::semantics::{Action, BoundsFault, FaultKind, FaultReport, Stage};
use rbf::text::{chars_of, push_decimal, push_signed_decimal};

fn chars(s: &str) -> Vec<char> {
    s.chars().collect()
}

fn text(v: &[char]) -> String {
    v.iter().collect()
}

fn ready() -> Interpreter {
    let mut it = Interpreter::new();
    it.reclear_memory();
    it
}

/// Runs `code` as line `line` until it finishes, collecting what it prints
/// and the faults it reports; panics on input or script calls.
fn run(it: &mut Interpreter, code: &str, line: i32) -> (String, Vec<FaultReport>) {
    let mut ev = Evaluation::new(chars(code), line);
    let mut out = String::new();
    let mut faults = Vec::new();
    loop {
        assert!(it.can_step(&ev));
        match it.step(&mut ev) {
            Action::Finished => break,
            Action::Proceed => {}
            Action::Print(t) => out.push_str(&text(&t)),
            Action::Fault(r) => faults.push(r),
            other => panic!("unexpected action {:?}", other),
        }
    }
    (out, faults)
}

#[test]
fn clamp_holds_values_between_bounds() {
    assert_eq!(clamp(-3, 0, 10), 0);
    assert_eq!(clamp(13, 0, 10), 10);
    assert_eq!(clamp(7, 0, 10), 7);
    assert_eq!(clamp(5, 3, 1), 1);
    assert_eq!(clamp(0, 3, 1), 3);
}

#[test]
fn colored_text_uses_rgb_escape() {
    assert_eq!(text(&rgb_text(&chars("hi"), 1, 22, 255)), "\x1b[38;2;1;22;255mhi\x1b[0m");
    assert_eq!(text(&rgb_line(&chars("ok"), 0, 255, 0)), "\x1b[38;2;0;255;0mok\x1b[0m\n");
}

#[test]
fn raise_error_formats_message_in_red() {
    let out = raise_error(&chars("FileIOError"), &chars("Unable to read file"));
    assert_eq!(text(&out), "\x1b[38;2;255;0;0m\nError: FileIOError.Unable to read file\x1b[0m\n");
}

#[test]
fn decimal_writing() {
    let mut v = Vec::new();
    push_decimal(0, &mut v);
    push_decimal(255, &mut v);
    push_signed_decimal(-12, &mut v);
    push_signed_decimal(40, &mut v);
    assert_eq!(text(&v), "0255-1240");
    assert_eq!(chars_of("a┌b"), vec!['a', '┌', 'b']);
}

#[test]
fn new_interpreter_defaults() {
    let it = Interpreter::new();
    assert_eq!(it.pointer(), 0);
    assert_eq!(it.memory_len(), DEFAULT_CELLS);
    assert!(!it.repl_mode());
    assert!(!it.has_instructions());
    assert!(it.memory_values().is_empty());
    let it = ready();
    let mem = it.memory_values();
    assert_eq!(mem.len(), 30000);
    assert!(mem.iter().all(|v| *v == 0));
}

#[test]
fn print_instructions() {
    let mut it = ready();
    let (out, faults) = run(&mut it, "+++++++++++++++++++++++++++++++++.*", 0);
    assert_eq!(out, "!33");
    assert!(faults.is_empty());
}

#[test]
fn cells_wrap_modulo_256() {
    let mut it = ready();
    let (out, _) = run(&mut it, "-*", 0);
    assert_eq!(out, "255");
    let mut it = ready();
    let code: String = std::iter::repeat('+').take(256).collect::<String>() + "*";
    let (out, _) = run(&mut it, &code, 0);
    assert_eq!(out, "0");
}

#[test]
fn increment_then_decrement_restores_cell() {
    let mut it = ready();
    it.write_memory(0, 77);
    let (_, _) = run(&mut it, "+-", 0);
    assert_eq!(it.read_memory(0), 77);
}

#[test]
fn loops_run_until_cell_is_zero() {
    let mut it = ready();
    let (out, faults) = run(&mut it, "+++[->++<]>*", 0);
    assert_eq!(out, "6");
    assert!(faults.is_empty());
    assert_eq!(it.read_memory(0), 0);
}

#[test]
fn zero_cell_loop_is_skipped_to_first_close() {
    let mut it = ready();
    let (out, _) = run(&mut it, "[+++]*", 0);
    assert_eq!(out, "0");
    // the skip ends at the first `]`, not at the matching one
    let mut it = ready();
    let (out, _) = run(&mut it, "[[+]+]*", 0);
    assert_eq!(out, "1");
}

#[test]
fn used_cells_recorded_once_in_order() {
    let mut it = ready();
    let _ = run(&mut it, ">++<+>-", 0);
    let (current, cells) = it.inspect_memory();
    assert_eq!(current, 1);
    assert_eq!(cells, vec![(1, 1), (0, 1)]);
}

#[test]
fn underflow_is_reported_and_pointer_reset() {
    let mut it = ready();
    let (_, faults) = run(&mut it, "<", 4);
    assert_eq!(
        faults,
        vec![FaultReport {
            fault: BoundsFault { kind: FaultKind::Underflow, exit: true },
            line: 4,
            index: 1
        }]
    );
    assert_eq!(it.pointer(), 0);
}

#[test]
fn overflow_is_reported_and_pointer_held_at_last_cell() {
    let mut it = ready();
    it.set_repl_mode(true);
    it.set_memory_len(2);
    let (_, faults) = run(&mut it, ">>", 0);
    assert_eq!(
        faults,
        vec![FaultReport {
            fault: BoundsFault { kind: FaultKind::Overflow, exit: false },
            line: 0,
            index: 2
        }]
    );
    assert_eq!(it.pointer(), 1);
}

#[test]
fn no_bounds_lets_pointer_leave_tape() {
    let mut it = ready();
    it.set_no_bounds(true);
    let (_, faults) = run(&mut it, "<<+*", 0);
    assert!(faults.is_empty());
    assert_eq!(it.pointer(), -2);
    // the cell used is the one the pointer is held to
    assert_eq!(it.read_memory(0), 1);
}

#[test]
fn fault_text_shows_code_and_mark() {
    let code = chars("<");
    let report = FaultReport {
        fault: BoundsFault { kind: FaultKind::Underflow, exit: true },
        line: 0,
        index: 1,
    };
    let expected = String::from(
        "\x1b[38;2;255;0;0m\nError: MemError.Cursor outside of memory boundaries (underflow)\x1b[0m\n",
    ) + "    \x1b[38;2;239;76;60m┌─ occured here\x1b[0m\n1 | <\n";
    assert_eq!(text(&fault_text(&code, &report)), expected);
}

#[test]
fn fault_text_window_around_instruction() {
    let code = chars("++++++++++++++++++++<<<<<<<<<<<<<<<<<<<<<");
    let report = FaultReport {
        fault: BoundsFault { kind: FaultKind::Overflow, exit: false },
        line: 9,
        index: 20,
    };
    let out = text(&fault_text(&code, &report));
    let expected = String::from(
        "\x1b[38;2;255;0;0m\nError: MemError.Cursor outside of memory boundaries (overflow)\x1b[0m\n",
    ) + "     " + "       \x1b[38;2;239;76;60m┌─ occured here\x1b[0m       \n"
        + "10 | ++++++++<<<<<<<\n";
    assert_eq!(out, expected);
}

#[test]
fn fault_message_for_plain_check() {
    let out = fault_message(BoundsFault { kind: FaultKind::Overflow, exit: true });
    assert_eq!(
        text(&out),
        "\x1b[38;2;255;0;0m\nError: MemError.Cursor outside of memory boundaries (overflow)\x1b[0m\n"
    );
}

#[test]
fn plain_check_bounds_are_zero_and_cell_count() {
    let mut it = ready();
    it.move_pointer(-1);
    assert_eq!(
        it.check_pointer(),
        Some(BoundsFault { kind: FaultKind::Underflow, exit: true })
    );
    assert_eq!(it.pointer(), 0);
    it.move_pointer(30000);
    assert_eq!(it.check_pointer(), None);
    it.move_pointer(1);
    assert_eq!(
        it.check_pointer(),
        Some(BoundsFault { kind: FaultKind::Overflow, exit: true })
    );
    assert_eq!(it.pointer(), 30000);
}

#[test]
fn input_stores_low_byte_of_code_point() {
    let mut it = ready();
    let mut ev = Evaluation::new(chars(",*"), 0);
    assert_eq!(it.step(&mut ev), Action::ReadInput);
    assert_eq!(ev.stage(), Stage::AwaitInput);
    assert_eq!(it.step(&mut ev), Action::ReadInput);
    it.supply_input(&mut ev, 'A');
    assert_eq!(it.read_memory(0), 65);
    assert_eq!(it.step(&mut ev), Action::Proceed);
    assert_eq!(it.step(&mut ev), Action::Print(chars("65")));
    it.write_memory(0, 0);
    let mut ev = Evaluation::new(chars(","), 0);
    assert_eq!(it.step(&mut ev), Action::ReadInput);
    it.supply_input(&mut ev, '\u{141}');
    assert_eq!(it.read_memory(0), 0x41);
}

#[test]
fn memory_writes_keep_low_byte_and_clamp_index() {
    let mut it = ready();
    it.write_memory(3, 300);
    assert_eq!(it.read_memory(3), 44);
    it.write_memory(4, -1);
    assert_eq!(it.read_memory(4), 255);
    it.write_memory(-5, 7);
    assert_eq!(it.read_memory(0), 7);
    it.write_memory(99999, 9);
    assert_eq!(it.read_memory(29999), 9);
    assert_eq!(it.memory_values()[29999], 9);
}

#[test]
fn memory_len_change_replaces_tape() {
    let mut it = ready();
    it.write_memory(0, 5);
    it.set_memory_len(3);
    assert_eq!(it.memory_len(), 3);
    assert_eq!(it.memory_values(), vec![0, 0, 0]);
    it.set_memory_len(-4);
    assert!(it.memory_values().is_empty());
    assert!(!it.can_access(0));
}

#[test]
fn step_refused_without_tape() {
    let it = Interpreter::new();
    let ev = Evaluation::new(chars("+"), 0);
    assert!(!it.can_step(&ev));
    let ev = Evaluation::new(chars(">"), 0);
    assert!(it.can_step(&ev));
}

#[test]
fn custom_instruction_calls_script_function() {
    let mut it = ready();
    it.register_instruction(&chars("xyz"), chars("shout"));
    assert!(it.has_instructions());
    assert_eq!(it.instruction('x'), Some(chars("shout")));
    assert_eq!(it.instruction('y'), None);
    let mut code = chars("ax+");
    it.clean_code(&mut code);
    assert_eq!(code, chars("ax+"));
    let mut ev = Evaluation::new(code, 0);
    assert_eq!(it.step(&mut ev), Action::Proceed);
    assert_eq!(it.step(&mut ev), Action::CallFunction(chars("shout")));
    assert_eq!(it.step(&mut ev), Action::Proceed);
    assert_eq!(it.step(&mut ev), Action::Proceed);
    assert_eq!(it.step(&mut ev), Action::Finished);
    assert_eq!(it.read_memory(0), 1);
    it.clear_custom();
    assert!(!it.has_instructions());
}

#[test]
fn cleaning_keeps_instruction_characters() {
    let it = ready();
    let mut code = chars("hello +[-]>. world, *<");
    it.clean_code(&mut code);
    assert_eq!(code, chars("+[-]>.,*<"));
    let again = keep_commands(&code);
    assert_eq!(again, code);
}

#[test]
fn script_run_creates_tape_and_cleans() {
    let mut it = Interpreter::new();
    let ev = it.begin_script_run(&chars("a+b"));
    assert_eq!(ev.code(), &chars("+"));
    assert_eq!(ev.line(), 0);
    assert_eq!(ev.position(), 0);
    assert_eq!(it.memory_values().len(), 30000);
}

#[test]
fn commands_classified() {
    let mut it = ready();
    it.register_command(&chars("hello"), chars("greet"));
    assert_eq!(it.command(&chars("!hello")), Some(chars("greet")));
    assert_eq!(classify_input(&it, &chars("!hello")), ReplCommand::Custom(chars("greet")));
    assert_eq!(classify_input(&it, &chars("!q")), ReplCommand::Quit);
    assert_eq!(classify_input(&it, &chars("!cmds")), ReplCommand::ListCommands);
    assert_eq!(classify_input(&it, &chars("!meminspect")), ReplCommand::InspectMemory);
    assert_eq!(classify_input(&it, &chars("!memclear")), ReplCommand::ClearMemory);
    assert_eq!(classify_input(&it, &chars("!reload")), ReplCommand::Reload);
    assert_eq!(classify_input(&it, &chars("+++")), ReplCommand::Code);
    it.register_command(&chars("hello"), chars("wave"));
    assert_eq!(classify_input(&it, &chars("!hello")), ReplCommand::Custom(chars("wave")));
    it.clear_custom();
    assert_eq!(classify_input(&it, &chars("!hello")), ReplCommand::Code);
}

#[test]
fn line_breaks_stripped() {
    assert_eq!(strip_line_breaks(&chars("a\rb\n")), chars("ab"));
    assert_eq!(strip_line_breaks(&chars("")), chars(""));
}

#[test]
fn split_then_join_gives_text_back() {
    let lines = split_lines(&chars("a\n\nbc"));
    assert_eq!(lines, vec![chars("a"), chars(""), chars("bc")]);
    assert_eq!(split_lines(&chars("")), vec![chars("")]);
    assert_eq!(split_lines(&chars("x\n")), vec![chars("x"), chars("")]);
    let joined: Vec<String> = lines.iter().map(|l| text(l)).collect();
    assert_eq!(joined.join("\n"), "a\n\nbc");
}

#[test]
fn loop_stack_is_shared_across_lines() {
    let mut it = ready();
    let (_, _) = run(&mut it, "+[", 0);
    // `]` on a nonzero cell goes back to the position of the `[` of the
    // previous line, which is past this line's end
    let (out, _) = run(&mut it, "]*", 1);
    assert_eq!(out, "");
}

#[test]
fn right_then_left_returns_pointer() {
    let mut it = ready();
    let (_, faults) = run(&mut it, ">>><<<", 0);
    assert!(faults.is_empty());
    assert_eq!(it.pointer(), 0);
}

#[test]
fn loop_left_when_cell_reaches_zero() {
    let mut it = ready();
    let (out, _) = run(&mut it, "+[-]*", 0);
    assert_eq!(out, "0");
    // the loop's entry is forgotten: a later `]` does not go back to it
    let (out, _) = run(&mut it, "+]*", 1);
    assert_eq!(out, "1");
}

#[test]
fn finished_evaluation_stays_finished() {
    let mut it = ready();
    let mut ev = Evaluation::new(chars("+"), 0);
    assert_eq!(it.step(&mut ev), Action::Proceed);
    assert_eq!(it.step(&mut ev), Action::Finished);
    assert_eq!(it.step(&mut ev), Action::Finished);
    assert_eq!(ev.position(), 1);
    assert_eq!(it.memory_len(), 30000);
    assert_eq!(it.memory_values().len(), 30000);
}

#[test]
fn prompt_and_banner_texts() {
    assert_eq!(text(&prompt_text(-3)), "-3 >> ");
    assert_eq!(text(&prompt_text(12)), "12 >> ");
    assert_eq!(
        text(&banner_text(30000)),
        "\x1b[38;2;3;252;202mrBF v1.0 (repl, memlen: 30000) !cmds - cmd list\x1b[0m\n"
    );
}

#[test]
fn command_list_lines() {
    let expected = String::from("\x1b[38;2;0;255;0mCommand list\x1b[0m\n")
        + "\x1b[38;2;3;252;202m!meminspect - view used memory\x1b[0m\n"
        + "\x1b[38;2;3;252;202m!memclear - clear memory\x1b[0m\n"
        + "\x1b[38;2;3;252;202m!reload - reload lua script\x1b[0m\n"
        + "\x1b[38;2;3;252;202m!q - quit repl\x1b[0m\n";
    assert_eq!(text(&command_list_text()), expected);
}

#[test]
fn memory_inspect_report() {
    let out = text(&inspect_text(7, &vec![(-1, 65), (2, 0)]));
    let expected = String::from("\x1b[38;2;0;255;0mMemory inspect:\x1b[0m\n")
        + "\x1b[38;2;3;252;202mPointer value: 7\x1b[0m\n"
        + "\x1b[38;2;115;108;237m└─ -1 │ \x1b[0m\x1b[38;2;100;182;172m65\x1b[0m\x1b[38;2;100;182;172m ( A )\x1b[0m\n"
        + "\x1b[38;2;115;108;237m└─ 2 │ \x1b[0m\x1b[38;2;100;182;172m0\x1b[0m\x1b[38;2;100;182;172m ( \u{0} )\x1b[0m\n";
    assert_eq!(out, expected);
}

#[test]
fn check_with_source_keeps_pointer_on_tape() {
    let mut it = ready();
    it.move_pointer(-4);
    let r = it.check_with_source(2, 5);
    assert_eq!(
        r,
        Some(FaultReport { fault: BoundsFault { kind: FaultKind::Underflow, exit: true }, line: 2, index: 5 })
    );
    assert_eq!(it.pointer(), 0);
    assert_eq!(it.check_with_source(2, 6), None);
    assert_eq!(it.pointer(), 0);
    it.move_pointer(40000);
    it.set_repl_mode(true);
    let r = it.check_with_source(0, 1);
    assert_eq!(
        r,
        Some(FaultReport { fault: BoundsFault { kind: FaultKind::Overflow, exit: false }, line: 0, index: 1 })
    );
    assert_eq!(it.pointer(), 29999);
}

#[test]
fn run_changes_only_written_cells() {
    let mut it = ready();
    it.write_memory(5, 9);
    let (_, _) = run(&mut it, ">+>>-<<<", 0);
    let mem = it.memory_values();
    assert_eq!(mem.len(), 30000);
    assert_eq!(mem[1], 1);
    assert_eq!(mem[3], 255);
    assert_eq!(mem[5], 9);
    assert_eq!(mem.iter().filter(|v| **v != 0).count(), 3);
    let (_, cells) = it.inspect_memory();
    assert_eq!(cells, vec![(1, 1), (3, 255)]);
}
