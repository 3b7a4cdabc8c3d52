//! The executable engine: program loading and the fetch-execute cycle,
//! specified against the small-step model in [`crate::machine`].

use vstd::pervasive::VecAdditionalExecFns;
use vstd::prelude::*;
use vstd::string::StrSliceExecFns;

use crate::instruction::{classify_char, parse_spec, Instruction};
use crate::machine::{
    find_close, find_open, lemma_find_close_range, lemma_find_open_range, run_n, step, wrap_dec,
    wrap_inc, FatalError, MachineState, RunState, StepResult, TAPE_LEN,
};

verus! {

/// A load-time, recoverable error.
#[derive(Clone, Copy, Debug, PartialEq, Eq, Structural)]
pub enum LoadError {
    /// The source contained none of the eight instruction characters, so the
    /// filtered program was empty.
    EmptyProgram,
}

/// The outcome of one run.
#[derive(Clone, Copy, Debug, PartialEq, Eq, Structural)]
pub enum RunOutcome {
    /// The program pointer passed the program's end: the run is over.
    Completed,
    /// No successful load has happened since the last run; nothing executed.
    NotReady,
    /// A fatal condition stopped the run; no further instruction executed.
    Fatal(FatalError),
    /// The step budget ran out before the run ended.
    StepLimit,
}

/// The execution engine. It owns the tape, the loaded program and both
/// pointers; input and output streams are passed to [`Interpreter::start`]
/// as plain byte buffers by the caller.
pub struct Interpreter {
    /// The tape: always exactly [`TAPE_LEN`] cells.
    pub memory: Vec<u8>,
    /// The loaded program; empty until the first successful load.
    pub program: Vec<Instruction>,
    /// True after a successful load and before the next run.
    pub ready: bool,
    /// The index of the current cell.
    pub data_pointer: usize,
    /// The index of the next instruction to execute.
    pub program_pointer: usize,
}

impl Interpreter {
    /// The engine's invariant: the tape has its fixed length, both pointers
    /// are in range, and a ready engine holds a non-empty program.
    pub open spec fn wf(&self) -> bool {
        &&& self.memory@.len() == TAPE_LEN
        &&& self.data_pointer < TAPE_LEN
        &&& self.program_pointer <= self.program@.len()
        &&& (self.ready ==> self.program@.len() > 0)
    }

    /// The machine-model state this engine is in, joined with an input
    /// stream, the input consumed so far and the output produced so far.
    pub open spec fn abs(&self, input: Seq<u8>, input_pointer: int, output: Seq<u8>) -> MachineState {
        MachineState {
            program: self.program@,
            memory: self.memory@,
            data_pointer: self.data_pointer as int,
            program_pointer: self.program_pointer as int,
            input,
            input_pointer,
            output,
        }
    }

    /// The machine-model state at the start of a run: the program pointer
    /// and the input position reset to zero, the output stream continuing
    /// from `out0` (the bytes the caller's buffer already held).
    pub open spec fn start_state(&self, input: Seq<u8>, out0: Seq<u8>) -> MachineState {
        MachineState {
            program: self.program@,
            memory: self.memory@,
            data_pointer: self.data_pointer as int,
            program_pointer: 0,
            input,
            input_pointer: 0,
            output: out0,
        }
    }

    /// A fresh engine: zeroed tape, both pointers at zero, no program, not
    /// ready.
    pub fn new() -> (r: Interpreter)
        ensures
            r.wf(),
            r.memory@.len() == TAPE_LEN,
            forall|i: int| 0 <= i < TAPE_LEN ==> r.memory@[i] == 0u8,
            r.program@.len() == 0,
            !r.ready,
            r.data_pointer == 0,
            r.program_pointer == 0,
    {
        let mut memory: Vec<u8> = Vec::new();
        let mut i: usize = 0;
        while i < TAPE_LEN
            invariant
                i <= TAPE_LEN,
                memory@.len() == i,
                forall|k: int| 0 <= k < i ==> memory@[k] == 0u8,
            decreases TAPE_LEN - i,
        {
            memory.push(0u8);
            i = i + 1;
        }
        Interpreter {
            memory,
            program: Vec::new(),
            ready: false,
            data_pointer: 0,
            program_pointer: 0,
        }
    }

    /// Load a source text. Each of the eight instruction characters is
    /// appended, in order, to a fresh program; every other character is
    /// dropped silently. An empty filtered program is a load-time error and
    /// leaves the engine exactly as it was; otherwise the program is
    /// replaced, the instruction pointer reset and the engine made ready.
    pub fn load_program(&mut self, source: &str) -> (r: Result<(), LoadError>)
        requires
            old(self).wf(),
        ensures
            final(self).wf(),
            final(self).memory@ == old(self).memory@,
            final(self).data_pointer == old(self).data_pointer,
            match r {
                Ok(()) => {
                    &&& parse_spec(source@).len() > 0
                    &&& final(self).program@ == parse_spec(source@)
                    &&& final(self).program_pointer == 0
                    &&& final(self).ready
                },
                Err(LoadError::EmptyProgram) => {
                    &&& parse_spec(source@).len() == 0
                    &&& *final(self) == *old(self)
                },
            },
    {
        let n: usize = source.unicode_len();
        let mut program: Vec<Instruction> = Vec::new();
        let mut i: usize = 0;
        while i < n
            invariant
                i <= n,
                n == source@.len(),
                program@ == parse_spec(source@.take(i as int)),
            decreases n - i,
        {
            let c = source.get_char(i);
            match classify_char(c) {
                Some(ins) => program.push(ins),
                None => {},
            }
            proof {
                assert(source@.take(i + 1).drop_last() =~= source@.take(i as int));
                assert(source@.take(i + 1).last() == source@[i as int]);
            }
            i = i + 1;
        }
        proof {
            assert(source@.take(n as int) =~= source@);
        }
        if program.len() == 0 {
            return Err(LoadError::EmptyProgram);
        }
        self.program = program;
        self.program_pointer = 0;
        self.ready = true;
        Ok(())
    }

    /// Move the data pointer one cell to the right; moving right from the
    /// last cell is fatal, never a wrap or a clamp.
    pub fn increment_pointer(&mut self) -> (r: Result<(), FatalError>)
        requires
            old(self).wf(),
        ensures
            final(self).wf(),
            final(self).memory@ == old(self).memory@,
            final(self).program@ == old(self).program@,
            final(self).ready == old(self).ready,
            final(self).program_pointer == old(self).program_pointer,
            match r {
                Ok(()) => {
                    &&& old(self).data_pointer + 1 < TAPE_LEN
                    &&& final(self).data_pointer == old(self).data_pointer + 1
                },
                Err(e) => {
                    &&& e == FatalError::TapeOverflow
                    &&& old(self).data_pointer == TAPE_LEN - 1
                    &&& *final(self) == *old(self)
                },
            },
    {
        if self.data_pointer + 1 < TAPE_LEN {
            self.data_pointer = self.data_pointer + 1;
            Ok(())
        } else {
            Err(FatalError::TapeOverflow)
        }
    }

    /// Move the data pointer one cell to the left; moving left from the
    /// first cell is fatal, never a wrap to the far end.
    pub fn decrement_pointer(&mut self) -> (r: Result<(), FatalError>)
        requires
            old(self).wf(),
        ensures
            final(self).wf(),
            final(self).memory@ == old(self).memory@,
            final(self).program@ == old(self).program@,
            final(self).ready == old(self).ready,
            final(self).program_pointer == old(self).program_pointer,
            match r {
                Ok(()) => {
                    &&& old(self).data_pointer > 0
                    &&& final(self).data_pointer == old(self).data_pointer - 1
                },
                Err(e) => {
                    &&& e == FatalError::TapeUnderflow
                    &&& old(self).data_pointer == 0
                    &&& *final(self) == *old(self)
                },
            },
    {
        if self.data_pointer > 0 {
            self.data_pointer = self.data_pointer - 1;
            Ok(())
        } else {
            Err(FatalError::TapeUnderflow)
        }
    }

    /// Increment the current cell, wrapping 255 to 0. Never fails.
    pub fn increment_value(&mut self)
        requires
            old(self).wf(),
        ensures
            final(self).wf(),
            final(self).memory@ == old(self).memory@.update(
                old(self).data_pointer as int,
                wrap_inc(old(self).memory@[old(self).data_pointer as int]),
            ),
            final(self).program@ == old(self).program@,
            final(self).ready == old(self).ready,
            final(self).data_pointer == old(self).data_pointer,
            final(self).program_pointer == old(self).program_pointer,
    {
        let v: u8 = self.memory[self.data_pointer];
        let nv: u8 = if v == 255 {
            0
        } else {
            v + 1
        };
        self.memory.set(self.data_pointer, nv);
    }

    /// Decrement the current cell, wrapping 0 to 255. Never fails.
    pub fn decrement_value(&mut self)
        requires
            old(self).wf(),
        ensures
            final(self).wf(),
            final(self).memory@ == old(self).memory@.update(
                old(self).data_pointer as int,
                wrap_dec(old(self).memory@[old(self).data_pointer as int]),
            ),
            final(self).program@ == old(self).program@,
            final(self).ready == old(self).ready,
            final(self).data_pointer == old(self).data_pointer,
            final(self).program_pointer == old(self).program_pointer,
    {
        let v: u8 = self.memory[self.data_pointer];
        let nv: u8 = if v == 0 {
            255
        } else {
            v - 1
        };
        self.memory.set(self.data_pointer, nv);
    }

    /// Emit the current cell as one output byte, appended to `output`.
    pub fn print_data(&self, output: &mut Vec<u8>)
        requires
            self.wf(),
        ensures
            final(output)@ == old(output)@.push(self.memory@[self.data_pointer as int]),
    {
        let b: u8 = self.memory[self.data_pointer];
        output.push(b);
    }

    /// Read the next input byte into the current cell and advance the input
    /// position; finding no byte left is fatal.
    pub fn scan_data(&mut self, input: &Vec<u8>, input_pointer: &mut usize) -> (r: Result<
        (),
        FatalError,
    >)
        requires
            old(self).wf(),
            *old(input_pointer) <= input@.len(),
        ensures
            final(self).wf(),
            final(self).program@ == old(self).program@,
            final(self).ready == old(self).ready,
            final(self).data_pointer == old(self).data_pointer,
            final(self).program_pointer == old(self).program_pointer,
            match r {
                Ok(()) => {
                    &&& *old(input_pointer) < input@.len()
                    &&& *final(input_pointer) == *old(input_pointer) + 1
                    &&& final(self).memory@ == old(self).memory@.update(
                        old(self).data_pointer as int,
                        input@[*old(input_pointer) as int],
                    )
                },
                Err(e) => {
                    &&& e == FatalError::InputExhausted
                    &&& *old(input_pointer) == input@.len()
                    &&& *final(input_pointer) == *old(input_pointer)
                    &&& *final(self) == *old(self)
                },
            },
    {
        if *input_pointer < input.len() {
            let b: u8 = input[*input_pointer];
            self.memory.set(self.data_pointer, b);
            *input_pointer = *input_pointer + 1;
            Ok(())
        } else {
            Err(FatalError::InputExhausted)
        }
    }

    /// The forward jump for `[`. When the current cell is non-zero nothing
    /// happens; when it is zero the program pointer moves to the nearest
    /// `]` at or after it, found by linear scan with no depth tracking, and
    /// a scan that runs off the program's end is fatal.
    #[verifier::loop_isolation(false)]
    pub fn left_conditional(&mut self) -> (r: Result<(), FatalError>)
        requires
            old(self).wf(),
            old(self).program_pointer < old(self).program@.len(),
        ensures
            final(self).wf(),
            final(self).memory@ == old(self).memory@,
            final(self).program@ == old(self).program@,
            final(self).ready == old(self).ready,
            final(self).data_pointer == old(self).data_pointer,
            match r {
                Ok(()) => {
                    if old(self).memory@[old(self).data_pointer as int] != 0 {
                        final(self).program_pointer == old(self).program_pointer
                    } else {
                        find_close(old(self).program@, old(self).program_pointer as int) == Some(
                            final(self).program_pointer as int,
                        )
                    }
                },
                Err(e) => {
                    &&& e == FatalError::MalformedProgram
                    &&& old(self).memory@[old(self).data_pointer as int] == 0
                    &&& find_close(old(self).program@, old(self).program_pointer as int) is None
                    &&& *final(self) == *old(self)
                },
            },
    {
        if self.memory[self.data_pointer] != 0 {
            return Ok(());
        }
        let mut i: usize = self.program_pointer;
        loop
            invariant
                self.program_pointer <= i < self.program@.len(),
                find_close(self.program@, self.program_pointer as int) == find_close(
                    self.program@,
                    i as int,
                ),
            decreases self.program@.len() - i,
        {
            match self.program[i] {
                Instruction::Close => {
                    break ;
                },
                _ => {
                    if i >= self.program.len() - 1 {
                        proof {
                            assert(find_close(self.program@, i as int + 1) is None);
                            assert(find_close(self.program@, i as int) is None);
                        }
                        return Err(FatalError::MalformedProgram);
                    }
                    i = i + 1;
                },
            }
        }
        self.program_pointer = i;
        Ok(())
    }

    /// The backward jump for `]`. When the current cell is zero nothing
    /// happens; when it is non-zero the program pointer moves to the
    /// nearest `[` at or before it, found by linear scan with no depth
    /// tracking, and a scan that runs off the program's start is fatal.
    #[verifier::loop_isolation(false)]
    pub fn right_conditional(&mut self) -> (r: Result<(), FatalError>)
        requires
            old(self).wf(),
            old(self).program_pointer < old(self).program@.len(),
        ensures
            final(self).wf(),
            final(self).memory@ == old(self).memory@,
            final(self).program@ == old(self).program@,
            final(self).ready == old(self).ready,
            final(self).data_pointer == old(self).data_pointer,
            match r {
                Ok(()) => {
                    if old(self).memory@[old(self).data_pointer as int] == 0 {
                        final(self).program_pointer == old(self).program_pointer
                    } else {
                        find_open(old(self).program@, old(self).program_pointer as int) == Some(
                            final(self).program_pointer as int,
                        )
                    }
                },
                Err(e) => {
                    &&& e == FatalError::MalformedProgram
                    &&& old(self).memory@[old(self).data_pointer as int] != 0
                    &&& find_open(old(self).program@, old(self).program_pointer as int) is None
                    &&& *final(self) == *old(self)
                },
            },
    {
        if self.memory[self.data_pointer] == 0 {
            return Ok(());
        }
        let mut i: usize = self.program_pointer;
        loop
            invariant
                i <= self.program_pointer,
                find_open(self.program@, self.program_pointer as int) == find_open(
                    self.program@,
                    i as int,
                ),
            decreases i,
        {
            match self.program[i] {
                Instruction::Open => {
                    break ;
                },
                _ => {
                    if i == 0 {
                        proof {
                            assert(find_open(self.program@, -1) is None);
                            assert(find_open(self.program@, i as int) is None);
                        }
                        return Err(FatalError::MalformedProgram);
                    }
                    i = i - 1;
                },
            }
        }
        self.program_pointer = i;
        Ok(())
    }

    /// One fetch-execute step: dispatch the instruction at the program
    /// pointer to its primitive, then advance the program pointer past it.
    /// On success, the engine together with the input position and the
    /// output buffer has taken exactly one [`step`] of the machine model,
    /// and the result says whether the program pointer reached the
    /// program's end. On a fatal condition nothing is changed.
    pub fn fetch_execute(&mut self, input: &Vec<u8>, input_pointer: &mut usize, output: &mut Vec<
        u8,
    >) -> (r: Result<bool, FatalError>)
        requires
            old(self).wf(),
            old(self).program_pointer < old(self).program@.len(),
            *old(input_pointer) <= input@.len(),
        ensures
            final(self).wf(),
            final(self).ready == old(self).ready,
            *final(input_pointer) <= input@.len(),
            match r {
                Ok(done) => {
                    &&& step(old(self).abs(input@, *old(input_pointer) as int, old(output)@))
                        == StepResult::Next(
                        final(self).abs(input@, *final(input_pointer) as int, final(output)@),
                    )
                    &&& (done <==> final(self).program_pointer == final(self).program@.len())
                },
                Err(e) => {
                    &&& step(old(self).abs(input@, *old(input_pointer) as int, old(output)@))
                        == StepResult::Fail(e)
                    &&& *final(self) == *old(self)
                    &&& *final(input_pointer) == *old(input_pointer)
                    &&& final(output)@ == old(output)@
                },
            },
    {
        proof {
            lemma_find_close_range(self.program@, self.program_pointer as int);
            lemma_find_open_range(self.program@, self.program_pointer as int);
        }
        match self.program[self.program_pointer] {
            Instruction::Right => {
                match self.increment_pointer() {
                    Ok(()) => {},
                    Err(e) => {
                        return Err(e);
                    },
                }
            },
            Instruction::Left => {
                match self.decrement_pointer() {
                    Ok(()) => {},
                    Err(e) => {
                        return Err(e);
                    },
                }
            },
            Instruction::Increment => {
                self.increment_value();
            },
            Instruction::Decrement => {
                self.decrement_value();
            },
            Instruction::Print => {
                self.print_data(output);
            },
            Instruction::Read => {
                match self.scan_data(input, input_pointer) {
                    Ok(()) => {},
                    Err(e) => {
                        return Err(e);
                    },
                }
            },
            Instruction::Open => {
                match self.left_conditional() {
                    Ok(()) => {},
                    Err(e) => {
                        return Err(e);
                    },
                }
            },
            Instruction::Close => {
                match self.right_conditional() {
                    Ok(()) => {},
                    Err(e) => {
                        return Err(e);
                    },
                }
            },
        }
        let n: usize = self.program.len();
        self.program_pointer = self.program_pointer + 1;
        proof {
            let pre = old(self).abs(input@, *old(input_pointer) as int, old(output)@);
            let post = self.abs(input@, *input_pointer as int, output@);
            assert(step(pre) =~= StepResult::Next(post));
        }
        Ok(self.program_pointer == n)
    }

    /// Run the loaded program. If the engine is not ready — there has been
    /// no successful load since the last run — nothing executes and the run
    /// reports `NotReady`. Otherwise the readiness flag is consumed at
    /// once, the instruction pointer is reset to the program's start, and
    /// instructions are fetch-executed one by one until the instruction
    /// pointer passes the program's end (`Completed`) or a fatal condition
    /// stops the run (`Fatal`); after a fatal condition no further
    /// instruction executes. Input bytes are consumed from `input` in
    /// order; each output byte is appended to `output` in execution order.
    ///
    /// `max_steps` bounds the number of fetch-execute steps, making the run
    /// a total computation; a run still going when the budget is spent
    /// reports `StepLimit`, and a caller may pass `u64::MAX` for a
    /// practically unbounded run. Whatever the outcome, the final tape,
    /// pointers and output are exactly those of the machine model iterated
    /// from the run's start state.
    #[verifier::loop_isolation(false)]
    pub fn start(&mut self, input: &Vec<u8>, output: &mut Vec<u8>, max_steps: u64) -> (r:
        RunOutcome)
        requires
            old(self).wf(),
        ensures
            final(self).wf(),
            !final(self).ready,
            final(self).program@ == old(self).program@,
            old(output)@.is_prefix_of(final(output)@),
            match r {
                RunOutcome::NotReady => {
                    &&& !old(self).ready
                    &&& *final(self) == *old(self)
                    &&& final(output)@ == old(output)@
                },
                RunOutcome::Completed => {
                    &&& old(self).ready
                    &&& final(self).program_pointer == final(self).program@.len()
                    &&& exists|n: nat, ip: int|
                        run_n(old(self).start_state(input@, old(output)@), n)
                            == RunState::Completed(final(self).abs(input@, ip, final(output)@))
                },
                RunOutcome::Fatal(e) => {
                    &&& old(self).ready
                    &&& exists|n: nat, ip: int|
                        run_n(old(self).start_state(input@, old(output)@), n) == RunState::Failed(
                            e,
                            final(self).abs(input@, ip, final(output)@),
                        )
                },
                RunOutcome::StepLimit => {
                    &&& old(self).ready
                    &&& exists|ip: int|
                        run_n(old(self).start_state(input@, old(output)@), max_steps as nat)
                            == RunState::Running(final(self).abs(input@, ip, final(output)@))
                },
            },
    {
        if !self.ready {
            return RunOutcome::NotReady;
        }
        self.ready = false;
        self.program_pointer = 0;
        let ghost init = old(self).start_state(input@, old(output)@);
        let mut input_pointer: usize = 0;
        let mut steps: u64 = 0;
        proof {
            assert(init =~= self.abs(input@, 0, output@));
        }
        loop
            invariant
                self.wf(),
                !self.ready,
                self.program@ == old(self).program@,
                self.program_pointer < self.program@.len(),
                input_pointer <= input@.len(),
                steps <= max_steps,
                old(output)@.is_prefix_of(output@),
                run_n(init, steps as nat) == RunState::Running(
                    self.abs(input@, input_pointer as int, output@),
                ),
            decreases max_steps - steps,
        {
            if steps == max_steps {
                return RunOutcome::StepLimit;
            }
            match self.fetch_execute(input, &mut input_pointer, output) {
                Ok(done) => {
                    proof {
                        assert(run_n(init, steps as nat + 1) == RunState::Running(
                            self.abs(input@, input_pointer as int, output@),
                        ));
                        assert(old(output)@.is_prefix_of(output@)) by {
                            assert(old(output)@ =~= output@.subrange(
                                0,
                                old(output)@.len() as int,
                            ));
                        }
                    }
                    steps = steps + 1;
                    if done {
                        proof {
                            assert(run_n(init, steps as nat + 1) == RunState::Completed(
                                self.abs(input@, input_pointer as int, output@),
                            ));
                        }
                        return RunOutcome::Completed;
                    }
                },
                Err(e) => {
                    proof {
                        assert(run_n(init, steps as nat + 1) == RunState::Failed(
                            e,
                            self.abs(input@, input_pointer as int, output@),
                        ));
                    }
                    return RunOutcome::Fatal(e);
                },
            }
        }
    }
}

} // verus!

