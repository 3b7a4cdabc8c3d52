use brainfuck::Instruction;
use brainfuck::Interpreter;
use brainfuck::LoadError;
use brainfuck::RunOutcome;

#[test]
fn load_empty_source_fails() {
    let mut engine = Interpreter::new();
    assert_eq!(engine.load_program(""), Err(LoadError::EmptyProgram));
}

#[test]
fn load_source_without_instructions_fails() {
    let mut engine = Interpreter::new();
    assert_eq!(
        engine.load_program("hello world 123 \t\n ()!?"),
        Err(LoadError::EmptyProgram)
    );
}

#[test]
fn load_failure_leaves_engine_unready() {
    let mut engine = Interpreter::new();
    assert_eq!(engine.load_program("no instructions"), Err(LoadError::EmptyProgram));
    assert!(!engine.ready);
    let input: Vec<u8> = Vec::new();
    let mut output: Vec<u8> = Vec::new();
    assert_eq!(engine.start(&input, &mut output, 1_000_000), RunOutcome::NotReady);
    assert!(output.is_empty());
}

#[test]
fn load_filters_in_order() {
    let mut engine = Interpreter::new();
    assert_eq!(engine.load_program("a+b[c]> x,.<-"), Ok(()));
    assert_eq!(
        engine.program,
        vec![
            Instruction::Increment,
            Instruction::Open,
            Instruction::Close,
            Instruction::Right,
            Instruction::Read,
            Instruction::Print,
            Instruction::Left,
            Instruction::Decrement,
        ]
    );
}

#[test]
fn load_sets_ready_and_resets_instruction_pointer() {
    let mut engine = Interpreter::new();
    assert_eq!(engine.load_program("+++"), Ok(()));
    assert!(engine.ready);
    assert_eq!(engine.program_pointer, 0);
    assert_eq!(engine.data_pointer, 0);
}

#[test]
fn reload_replaces_program() {
    let mut engine = Interpreter::new();
    assert_eq!(engine.load_program("+"), Ok(()));
    assert_eq!(engine.load_program(">-"), Ok(()));
    assert_eq!(engine.program, vec![Instruction::Right, Instruction::Decrement]);
}

#[test]
fn new_engine_is_zeroed_and_unready() {
    let engine = Interpreter::new();
    assert_eq!(engine.memory.len(), 30000);
    assert!(engine.memory.iter().all(|&b| b == 0));
    assert!(engine.program.is_empty());
    assert!(!engine.ready);
    assert_eq!(engine.data_pointer, 0);
    assert_eq!(engine.program_pointer, 0);
}
