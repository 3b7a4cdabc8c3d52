use brainfuck::FatalError;
use brainfuck::Interpreter;
use brainfuck::RunOutcome;

const STEPS: u64 = 1_000_000;

fn run_program(source: &str, input: &[u8]) -> (RunOutcome, Vec<u8>, Interpreter) {
    let mut engine = Interpreter::new();
    engine.load_program(source).expect("source should hold instructions");
    let input: Vec<u8> = input.to_vec();
    let mut output: Vec<u8> = Vec::new();
    let outcome = engine.start(&input, &mut output, STEPS);
    (outcome, output, engine)
}

#[test]
fn plus3_outputs_3() {
    let (outcome, output, _) = run_program("+++.", &[]);
    assert_eq!(outcome, RunOutcome::Completed);
    assert_eq!(output, vec![3u8]);
}

#[test]
fn input_echo() {
    let (outcome, output, _) = run_program(",.", &[0x41]);
    assert_eq!(outcome, RunOutcome::Completed);
    assert_eq!(output, vec![0x41u8]);
}

#[test]
fn increment_wraps_255_to_0() {
    let mut engine = Interpreter::new();
    engine.decrement_value();
    assert_eq!(engine.memory[0], 255);
    engine.increment_value();
    assert_eq!(engine.memory[0], 0);
}

#[test]
fn decrement_wraps_0_to_255() {
    let mut engine = Interpreter::new();
    assert_eq!(engine.memory[0], 0);
    engine.decrement_value();
    assert_eq!(engine.memory[0], 255);
}

#[test]
fn decrement_wrap_is_observable_in_output() {
    let (outcome, output, _) = run_program("-.", &[]);
    assert_eq!(outcome, RunOutcome::Completed);
    assert_eq!(output, vec![255u8]);
}

#[test]
fn pointer_underflow_is_fatal() {
    let mut engine = Interpreter::new();
    assert_eq!(engine.decrement_pointer(), Err(FatalError::TapeUnderflow));
    assert_eq!(engine.data_pointer, 0);
}

#[test]
fn pointer_overflow_is_fatal() {
    let mut engine = Interpreter::new();
    for _ in 0..29999 {
        assert_eq!(engine.increment_pointer(), Ok(()));
    }
    assert_eq!(engine.data_pointer, 29999);
    assert_eq!(engine.increment_pointer(), Err(FatalError::TapeOverflow));
    assert_eq!(engine.data_pointer, 29999);
}

#[test]
fn run_of_move_left_at_zero_is_fatal() {
    let (outcome, output, _) = run_program("<", &[]);
    assert_eq!(outcome, RunOutcome::Fatal(FatalError::TapeUnderflow));
    assert!(output.is_empty());
}

#[test]
fn unmatched_open_entered_is_fatal() {
    let (outcome, _, _) = run_program("[+", &[]);
    assert_eq!(outcome, RunOutcome::Fatal(FatalError::MalformedProgram));
}

#[test]
fn unmatched_open_never_entered_completes() {
    let (outcome, _, _) = run_program("+[", &[]);
    assert_eq!(outcome, RunOutcome::Completed);
}

#[test]
fn unmatched_close_is_fatal() {
    let (outcome, _, _) = run_program("+]", &[]);
    assert_eq!(outcome, RunOutcome::Fatal(FatalError::MalformedProgram));
}

#[test]
fn copy_loop_leaves_expected_tape() {
    let (outcome, output, engine) = run_program("++[>+<-]", &[]);
    assert_eq!(outcome, RunOutcome::Completed);
    assert!(output.is_empty());
    assert_eq!(engine.memory[0], 0);
    assert_eq!(engine.memory[1], 2);
}

#[test]
fn second_run_without_reload_is_not_ready() {
    let mut engine = Interpreter::new();
    engine.load_program("+.").expect("source should hold instructions");
    let input: Vec<u8> = Vec::new();
    let mut output: Vec<u8> = Vec::new();
    assert_eq!(engine.start(&input, &mut output, STEPS), RunOutcome::Completed);
    assert_eq!(output, vec![1u8]);
    let memory_before = engine.memory.clone();
    assert_eq!(engine.start(&input, &mut output, STEPS), RunOutcome::NotReady);
    assert_eq!(output, vec![1u8]);
    assert_eq!(engine.memory, memory_before);
}

#[test]
fn reload_makes_a_second_run_possible() {
    let mut engine = Interpreter::new();
    engine.load_program(".").expect("source should hold instructions");
    let input: Vec<u8> = Vec::new();
    let mut output: Vec<u8> = Vec::new();
    assert_eq!(engine.start(&input, &mut output, STEPS), RunOutcome::Completed);
    engine.load_program("+.").expect("source should hold instructions");
    assert_eq!(engine.start(&input, &mut output, STEPS), RunOutcome::Completed);
    assert_eq!(output, vec![0u8, 1u8]);
}

#[test]
fn input_exhausted_is_fatal() {
    let (outcome, output, _) = run_program(",", &[]);
    assert_eq!(outcome, RunOutcome::Fatal(FatalError::InputExhausted));
    assert!(output.is_empty());
}

#[test]
fn each_read_takes_exactly_one_byte() {
    let (outcome, output, _) = run_program(",.,.,.", &[1, 2, 3]);
    assert_eq!(outcome, RunOutcome::Completed);
    assert_eq!(output, vec![1u8, 2u8, 3u8]);
}

#[test]
fn endless_loop_reports_step_limit() {
    let mut engine = Interpreter::new();
    engine.load_program("+[]").expect("source should hold instructions");
    let input: Vec<u8> = Vec::new();
    let mut output: Vec<u8> = Vec::new();
    assert_eq!(engine.start(&input, &mut output, 10_000), RunOutcome::StepLimit);
}

#[test]
fn output_appends_to_existing_buffer() {
    let mut engine = Interpreter::new();
    engine.load_program("+.").expect("source should hold instructions");
    let input: Vec<u8> = Vec::new();
    let mut output: Vec<u8> = vec![7u8];
    assert_eq!(engine.start(&input, &mut output, STEPS), RunOutcome::Completed);
    assert_eq!(output, vec![7u8, 1u8]);
}

#[test]
fn forward_scan_stops_at_nearest_close() {
    let mut engine = Interpreter::new();
    engine.load_program("[+]").expect("source should hold instructions");
    assert_eq!(engine.left_conditional(), Ok(()));
    assert_eq!(engine.program_pointer, 2);
}

#[test]
fn forward_scan_skips_when_cell_nonzero() {
    let mut engine = Interpreter::new();
    engine.load_program("[+]").expect("source should hold instructions");
    engine.increment_value();
    assert_eq!(engine.left_conditional(), Ok(()));
    assert_eq!(engine.program_pointer, 0);
}

#[test]
fn backward_scan_stops_at_nearest_open() {
    let mut engine = Interpreter::new();
    engine.load_program("[+]").expect("source should hold instructions");
    engine.increment_value();
    engine.program_pointer = 2;
    assert_eq!(engine.right_conditional(), Ok(()));
    assert_eq!(engine.program_pointer, 0);
}

#[test]
fn backward_scan_skips_when_cell_zero() {
    let mut engine = Interpreter::new();
    engine.load_program("[+]").expect("source should hold instructions");
    engine.program_pointer = 2;
    assert_eq!(engine.right_conditional(), Ok(()));
    assert_eq!(engine.program_pointer, 2);
}

#[test]
fn fetch_execute_reports_end_of_program() {
    let mut engine = Interpreter::new();
    engine.load_program("+-").expect("source should hold instructions");
    let input: Vec<u8> = Vec::new();
    let mut input_pointer: usize = 0;
    let mut output: Vec<u8> = Vec::new();
    assert_eq!(engine.fetch_execute(&input, &mut input_pointer, &mut output), Ok(false));
    assert_eq!(engine.program_pointer, 1);
    assert_eq!(engine.fetch_execute(&input, &mut input_pointer, &mut output), Ok(true));
    assert_eq!(engine.program_pointer, 2);
}
