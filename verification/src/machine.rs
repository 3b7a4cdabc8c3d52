//! The mathematical model of execution: a deterministic small-step state
//! machine over the loaded program, the tape, the two pointers and the input
//! and output byte streams.
//!
//! The executable engine in [`crate::interpreter`] is specified against this
//! model: every fetch-execute step of the engine is one [`step`] of the
//! model, and a whole run is some number of iterations of [`advance`].

use vstd::prelude::*;

use crate::instruction::Instruction;

verus! {

/// The number of cells on the tape. The tape never grows or shrinks.
pub const TAPE_LEN: usize = 30000;

/// A fatal run-time condition. Once one arises, the engine executes no
/// further instruction.
#[derive(Clone, Copy, Debug, PartialEq, Eq, Structural)]
pub enum FatalError {
    /// The data pointer would move right past the last cell.
    TapeOverflow,
    /// The data pointer would move left past the first cell.
    TapeUnderflow,
    /// A jump scan ran off the program without finding its bracket.
    MalformedProgram,
    /// A read instruction found no input byte available.
    InputExhausted,
}

/// The complete state of an executing machine, with the input consumed so
/// far and the output produced so far.
#[verifier::ext_equal]
pub struct MachineState {
    /// The loaded program; never changed by execution.
    pub program: Seq<Instruction>,
    /// The tape of [`TAPE_LEN`] cells.
    pub memory: Seq<u8>,
    /// The index of the current cell.
    pub data_pointer: int,
    /// The index of the next instruction to execute.
    pub program_pointer: int,
    /// The whole input stream; never changed by execution.
    pub input: Seq<u8>,
    /// How many input bytes have been consumed.
    pub input_pointer: int,
    /// The bytes output so far, in execution order.
    pub output: Seq<u8>,
}

/// A cell increment, wrapping 255 to 0.
pub open spec fn wrap_inc(v: u8) -> u8 {
    if v == 255 {
        0
    } else {
        (v + 1) as u8
    }
}

/// A cell decrement, wrapping 0 to 255.
pub open spec fn wrap_dec(v: u8) -> u8 {
    if v == 0 {
        255
    } else {
        (v - 1) as u8
    }
}

/// The index of the nearest `]` at or after `i`, if any. The forward jump
/// scan resolves to this index: the nearest close bracket by linear scan,
/// with no nesting-depth tracking.
pub open spec fn find_close(p: Seq<Instruction>, i: int) -> Option<int>
    decreases p.len() - i,
{
    if i < 0 || i >= p.len() {
        None
    } else if p[i] == Instruction::Close {
        Some(i)
    } else {
        find_close(p, i + 1)
    }
}

/// The index of the nearest `[` at or before `i`, if any. The backward jump
/// scan resolves to this index: the nearest open bracket by linear scan,
/// with no nesting-depth tracking.
pub open spec fn find_open(p: Seq<Instruction>, i: int) -> Option<int>
    decreases i + 1,
{
    if i < 0 || i >= p.len() {
        None
    } else if p[i] == Instruction::Open {
        Some(i)
    } else {
        find_open(p, i - 1)
    }
}

/// A found close bracket lies between the scan's start and the program's
/// end, and is a close bracket.
pub proof fn lemma_find_close_range(p: Seq<Instruction>, i: int)
    ensures
        match find_close(p, i) {
            Some(j) => i <= j < p.len() && p[j] == Instruction::Close,
            None => true,
        },
    decreases p.len() - i,
{
    if 0 <= i < p.len() && p[i] != Instruction::Close {
        lemma_find_close_range(p, i + 1);
    }
}

/// A found open bracket lies between the program's start and the scan's
/// start, and is an open bracket.
pub proof fn lemma_find_open_range(p: Seq<Instruction>, i: int)
    ensures
        match find_open(p, i) {
            Some(j) => 0 <= j <= i && j < p.len() && p[j] == Instruction::Open,
            None => true,
        },
    decreases i + 1,
{
    if 0 <= i < p.len() && p[i] != Instruction::Open {
        lemma_find_open_range(p, i - 1);
    }
}

/// The result of attempting one instruction step.
#[verifier::ext_equal]
pub enum StepResult {
    /// The instruction executed; execution continues in the given state.
    Next(MachineState),
    /// The instruction could not execute: a fatal condition arose and the
    /// state is unchanged.
    Fail(FatalError),
}

/// One fetch-execute step: the effect of the instruction at the program
/// pointer, which must be in range. Every instruction but the two brackets
/// advances the program pointer by one; a taken jump moves it to just past
/// the bracket the scan found.
pub open spec fn step(m: MachineState) -> StepResult {
    let pp = m.program_pointer;
    let dp = m.data_pointer;
    let cell = m.memory[dp];
    match m.program[pp] {
        Instruction::Right => if dp + 1 < TAPE_LEN {
            StepResult::Next(
                MachineState { data_pointer: dp + 1, program_pointer: pp + 1, ..m },
            )
        } else {
            StepResult::Fail(FatalError::TapeOverflow)
        },
        Instruction::Left => if dp > 0 {
            StepResult::Next(
                MachineState { data_pointer: dp - 1, program_pointer: pp + 1, ..m },
            )
        } else {
            StepResult::Fail(FatalError::TapeUnderflow)
        },
        Instruction::Increment => StepResult::Next(
            MachineState {
                memory: m.memory.update(dp, wrap_inc(cell)),
                program_pointer: pp + 1,
                ..m
            },
        ),
        Instruction::Decrement => StepResult::Next(
            MachineState {
                memory: m.memory.update(dp, wrap_dec(cell)),
                program_pointer: pp + 1,
                ..m
            },
        ),
        Instruction::Print => StepResult::Next(
            MachineState { output: m.output.push(cell), program_pointer: pp + 1, ..m },
        ),
        Instruction::Read => if m.input_pointer < m.input.len() {
            StepResult::Next(
                MachineState {
                    memory: m.memory.update(dp, m.input[m.input_pointer]),
                    input_pointer: m.input_pointer + 1,
                    program_pointer: pp + 1,
                    ..m
                },
            )
        } else {
            StepResult::Fail(FatalError::InputExhausted)
        },
        Instruction::Open => if cell != 0 {
            StepResult::Next(MachineState { program_pointer: pp + 1, ..m })
        } else {
            match find_close(m.program, pp) {
                Some(j) => StepResult::Next(MachineState { program_pointer: j + 1, ..m }),
                None => StepResult::Fail(FatalError::MalformedProgram),
            }
        },
        Instruction::Close => if cell == 0 {
            StepResult::Next(MachineState { program_pointer: pp + 1, ..m })
        } else {
            match find_open(m.program, pp) {
                Some(j) => StepResult::Next(MachineState { program_pointer: j + 1, ..m }),
                None => StepResult::Fail(FatalError::MalformedProgram),
            }
        },
    }
}

/// A whole run described as iterated steps: either still running in some
/// state, or completed (the program pointer reached the program's end), or
/// stopped by a fatal condition, in the state that could not step.
#[verifier::ext_equal]
pub enum RunState {
    /// Execution has not yet passed the program's end.
    Running(MachineState),
    /// The program pointer reached the program's length: the run is over.
    Completed(MachineState),
    /// A fatal condition stopped the run in the given state.
    Failed(FatalError, MachineState),
}

/// One transition of a whole run: a completed or failed run stays as it is;
/// a running machine completes when the program pointer has reached the
/// end, and otherwise takes one [`step`].
pub open spec fn advance(r: RunState) -> RunState {
    match r {
        RunState::Running(m) => {
            if m.program_pointer >= m.program.len() {
                RunState::Completed(m)
            } else {
                match step(m) {
                    StepResult::Next(m2) => RunState::Running(m2),
                    StepResult::Fail(e) => RunState::Failed(e, m),
                }
            }
        },
        _ => r,
    }
}

/// The run after `n` transitions from the initial state `m`.
pub open spec fn run_n(m: MachineState, n: nat) -> RunState
    decreases n,
{
    if n == 0 {
        RunState::Running(m)
    } else {
        advance(run_n(m, (n - 1) as nat))
    }
}

/// A run that has completed or failed stays so: once an iteration of the
/// model reaches a terminal state, every later iteration is that same
/// state. The model is a deterministic function, so with this a run has at
/// most one reachable terminal state, and the outcome the engine reports
/// is that state.
pub proof fn lemma_terminal_stable(m: MachineState, n1: nat, n2: nat)
    requires
        n1 <= n2,
        !(run_n(m, n1) is Running),
    ensures
        run_n(m, n2) == run_n(m, n1),
    decreases n2 - n1,
{
    if n2 > n1 {
        lemma_terminal_stable(m, n1, (n2 - 1) as nat);
    }
}

} // verus!
