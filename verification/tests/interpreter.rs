use tape_machine::machine::{Machine, MachineError, Operation, StepResult};
use tape_machine::program::parse_program;
use tape_machine::tape::Tape;

/// Drive a machine over the whole script, feeding it `input` byte by byte
/// and collecting everything it writes. Panics if the machine is still
/// running after a generous step budget.
fn run(script: &str, input: &[u8]) -> Result<(Machine, Vec<u8>), MachineError> {
    let ops = parse_program(script.as_bytes());
    let mut m = Machine::new(ops);
    let mut next_input: usize = 0;
    let mut out: Vec<u8> = Vec::new();
    let mut fuel: usize = 1_000_000;
    loop {
        assert!(fuel > 0, "machine did not halt within the step budget");
        fuel -= 1;
        match m.step() {
            Ok(StepResult::Halted) => return Ok((m, out)),
            Ok(StepResult::Stepped) => {}
            Ok(StepResult::NeedsInput) => {
                assert!(m.wants_input());
                assert!(next_input < input.len(), "input exhausted");
                m.feed_input(input[next_input]);
                next_input += 1;
            }
            Ok(StepResult::Output(b)) => out.push(b),
            Err(e) => return Err(e),
        }
    }
}

#[test]
fn parse_keeps_the_eight_characters_only() {
    let ops = parse_program(b"a+ b-[],.<> \n#x");
    assert_eq!(
        ops,
        vec![
            Operation::Add,
            Operation::Subtract,
            Operation::Start,
            Operation::End,
            Operation::Read,
            Operation::Write,
            Operation::Left,
            Operation::Right,
        ]
    );
}

#[test]
fn add_wraps_around_at_256() {
    let mut t = Tape::new();
    for _ in 0..255 {
        t.add(&1);
    }
    assert_eq!(t.read(), 255);
    t.add(&1);
    assert_eq!(t.read(), 0);
}

#[test]
fn add_and_subtract_follow_the_net_delta() {
    let mut t = Tape::new();
    t.add(&200);
    t.add(&100);
    t.subtract(&45);
    // (0 + 200 + 100 - 45) mod 256 == 255
    assert_eq!(t.read(), 255);
}

#[test]
fn subtract_from_zero_wraps_to_255() {
    let (m, out) = run("-", &[]).unwrap();
    assert_eq!(out, Vec::<u8>::new());
    assert_eq!(m.tape().read(), 255);
}

#[test]
fn right_then_left_returns_to_origin_and_keeps_values() {
    let mut t = Tape::new();
    t.write(&11);
    t.shift_right(&3);
    t.write(&22);
    t.shift_right(&2);
    t.write(&33);
    t.shift_left(&5);
    assert_eq!(t.head_pos(), 0);
    assert_eq!(t.read(), 11);
    assert_eq!(t.get(3), 22);
    assert_eq!(t.get(5), 33);
    assert_eq!(t.len(), 6);
}

#[test]
fn left_past_the_edge_grows_the_tape() {
    let mut t = Tape::new();
    t.write(&9);
    t.shift_left(&2);
    assert_eq!(t.head_pos(), 0);
    assert_eq!(t.len(), 3);
    assert_eq!(t.read(), 0);
    // The old cell moved right by the two prepended zeros.
    assert_eq!(t.get(2), 9);
}

#[test]
fn empty_loop_with_zero_guard_is_skipped() {
    let (m, out) = run("[]", &[]).unwrap();
    assert_eq!(out, Vec::<u8>::new());
    assert_eq!(m.position(), 2);
    assert_eq!(m.tape().len(), 1);
    assert_eq!(m.tape().read(), 0);
}

#[test]
fn transfer_loop_moves_the_count() {
    let (m, _) = run("+++++[->+<]", &[]).unwrap();
    assert_eq!(m.tape().get(0), 0);
    assert_eq!(m.tape().get(1), 5);
    assert_eq!(m.tape().head_pos(), 0);
}

#[test]
fn nested_loops_balance_in_normal_mode() {
    let (m, _) = run("++[[-]>]", &[]).unwrap();
    assert_eq!(m.tape().get(0), 0);
    assert_eq!(m.tape().head_pos(), 1);
}

#[test]
fn nested_loops_balance_in_skip_mode() {
    let (m, out) = run("[[-]>]", &[]).unwrap();
    assert_eq!(out, Vec::<u8>::new());
    assert_eq!(m.tape().len(), 1);
    assert_eq!(m.tape().read(), 0);
    assert_eq!(m.position(), 6);
}

#[test]
fn skipped_body_has_no_side_effects() {
    let (m, out) = run("[+>+.]", &[]).unwrap();
    assert_eq!(out, Vec::<u8>::new());
    assert_eq!(m.tape().len(), 1);
    assert_eq!(m.tape().read(), 0);
}

#[test]
fn lone_end_aborts_immediately() {
    match run("]", &[]) {
        Err(err) => assert_eq!(err, MachineError::UnmatchedEnd { position: 0 }),
        Ok(_) => panic!("a lone ] must abort the run"),
    }
}

#[test]
fn lone_end_leaves_the_machine_where_it_was() {
    let ops = parse_program(b"]++");
    let mut m = Machine::new(ops);
    assert_eq!(m.step(), Err(MachineError::UnmatchedEnd { position: 0 }));
    // Nothing was executed: the pointer did not move and the tape is fresh.
    assert_eq!(m.position(), 0);
    assert_eq!(m.tape().read(), 0);
}

#[test]
fn unmatched_end_after_work_reports_its_position() {
    match run("+]", &[]) {
        Err(err) => assert_eq!(err, MachineError::UnmatchedEnd { position: 1 }),
        Ok(_) => panic!("an unmatched ] must abort the run"),
    }
}

#[test]
fn unmatched_start_is_accepted_silently() {
    // A `[` never closed is not checked: the program simply ends.
    let (m, _) = run("+[", &[]).unwrap();
    assert_eq!(m.position(), 2);
}

#[test]
fn read_without_input_does_not_default_to_zero() {
    let ops = parse_program(b",");
    let mut m = Machine::new(ops);
    assert_eq!(m.step(), Ok(StepResult::NeedsInput));
    // The machine is stuck asking, not running on with a zeroed cell.
    assert_eq!(m.position(), 0);
    assert_eq!(m.tape().read(), 0);
    assert_eq!(m.step(), Ok(StepResult::NeedsInput));
    assert_eq!(m.position(), 0);
}

#[test]
fn feed_input_lands_in_the_current_cell() {
    let ops = parse_program(b",");
    let mut m = Machine::new(ops);
    assert_eq!(m.step(), Ok(StepResult::NeedsInput));
    assert!(m.wants_input());
    m.feed_input(7);
    assert_eq!(m.tape().read(), 7);
    assert_eq!(m.position(), 1);
    assert_eq!(m.step(), Ok(StepResult::Halted));
}

#[test]
fn read_then_write_echoes_the_byte() {
    let (_, out) = run(",.", &[65]).unwrap();
    assert_eq!(out, vec![65]);
}

#[test]
fn write_emits_the_current_cell() {
    let (_, out) = run("++.", &[]).unwrap();
    assert_eq!(out, vec![2]);
}

#[test]
fn reads_are_skipped_while_jumping() {
    // Guard is zero, so the `,` inside the loop must not ask for input.
    let (m, out) = run("[,.]", &[]).unwrap();
    assert_eq!(out, Vec::<u8>::new());
    assert_eq!(m.tape().read(), 0);
}

#[test]
fn render_shows_head_and_remaining_program() {
    let ops = parse_program(b"+-");
    let mut m = Machine::new(ops);
    assert_eq!(m.render(), b"<0>: +-".to_vec());
    m.step().unwrap();
    assert_eq!(m.render(), b"<1>: -".to_vec());
}

#[test]
fn render_marks_only_the_head_cell() {
    let (m, _) = run("+>++", &[]).unwrap();
    assert_eq!(m.tape().render(), b"1 <2>".to_vec());
}

#[test]
fn render_prints_all_decimal_widths() {
    let mut t = Tape::new();
    t.write(&255);
    t.shift_right(&1);
    t.write(&42);
    t.shift_right(&1);
    t.write(&7);
    assert_eq!(t.render(), b"255 42 <7>".to_vec());
}

#[test]
fn render_does_not_disturb_the_machine() {
    let ops = parse_program(b"++[->+<]");
    let mut m = Machine::new(ops);
    m.step().unwrap();
    let first = m.render();
    let second = m.render();
    assert_eq!(first, second);
    // The run continues exactly as if it had never been traced.
    assert_eq!(m.position(), 1);
    let (n, _) = run("++[->+<]", &[]).unwrap();
    assert_eq!(n.tape().get(1), 2);
}
