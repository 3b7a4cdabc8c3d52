//! The instruction alphabet and the loader's filtering semantics.
//!
//! A source text denotes a program by keeping exactly its instruction
//! characters, in their original order, and dropping every other character
//! (whitespace, comments, anything at all) silently.

use vstd::prelude::*;

verus! {

/// One instruction of the tape-machine language, produced at load time from
/// its source character and immutable thereafter.
#[derive(Clone, Copy, Debug, PartialEq, Eq, Structural)]
pub enum Instruction {
    /// `>`: move the data pointer one cell to the right.
    Right,
    /// `<`: move the data pointer one cell to the left.
    Left,
    /// `+`: increment the current cell, wrapping 255 to 0.
    Increment,
    /// `-`: decrement the current cell, wrapping 0 to 255.
    Decrement,
    /// `.`: emit the current cell as one output byte.
    Print,
    /// `,`: read one input byte into the current cell.
    Read,
    /// `[`: when the current cell is zero, jump forward past the nearest `]`.
    Open,
    /// `]`: when the current cell is non-zero, jump back to just past the
    /// nearest `[`.
    Close,
}

/// The instruction denoted by a source character, if any. Every character
/// outside the eight-letter alphabet denotes none and is dropped by the
/// loader.
pub open spec fn instruction_of(c: char) -> Option<Instruction> {
    if c == '>' {
        Some(Instruction::Right)
    } else if c == '<' {
        Some(Instruction::Left)
    } else if c == '+' {
        Some(Instruction::Increment)
    } else if c == '-' {
        Some(Instruction::Decrement)
    } else if c == '.' {
        Some(Instruction::Print)
    } else if c == ',' {
        Some(Instruction::Read)
    } else if c == '[' {
        Some(Instruction::Open)
    } else if c == ']' {
        Some(Instruction::Close)
    } else {
        None
    }
}

/// Whether `c` is one of the eight instruction characters.
pub open spec fn is_instruction_char(c: char) -> bool {
    instruction_of(c) is Some
}

/// The program denoted by a source text: its instruction characters mapped to
/// instructions, in order, with every other character removed.
pub open spec fn parse_spec(s: Seq<char>) -> Seq<Instruction>
    decreases s.len(),
{
    if s.len() == 0 {
        Seq::<Instruction>::empty()
    } else {
        let rest = parse_spec(s.drop_last());
        match instruction_of(s.last()) {
            Some(i) => rest.push(i),
            None => rest,
        }
    }
}

/// The executable classification of one source character, equal to the
/// specification-level [`instruction_of`].
pub fn classify_char(c: char) -> (r: Option<Instruction>)
    ensures
        r == instruction_of(c),
{
    match c {
        '>' => Some(Instruction::Right),
        '<' => Some(Instruction::Left),
        '+' => Some(Instruction::Increment),
        '-' => Some(Instruction::Decrement),
        '.' => Some(Instruction::Print),
        ',' => Some(Instruction::Read),
        '[' => Some(Instruction::Open),
        ']' => Some(Instruction::Close),
        _ => None,
    }
}

/// A source text that contains no instruction character denotes the empty
/// program, so loading it must fail.
pub proof fn lemma_no_instruction_chars_empty(s: Seq<char>)
    requires
        forall|i: int| 0 <= i < s.len() ==> !is_instruction_char(s[i]),
    ensures
        parse_spec(s).len() == 0,
    decreases s.len(),
{
    if s.len() > 0 {
        assert forall|i: int| 0 <= i < s.drop_last().len() implies !is_instruction_char(
            s.drop_last()[i],
        ) by {
            assert(s.drop_last()[i] == s[i]);
        }
        lemma_no_instruction_chars_empty(s.drop_last());
        assert(!is_instruction_char(s.last()));
    }
}

/// Filtering is order-preserving and total: the parsed program is exactly the
/// subsequence of instruction characters of the source, each mapped to its
/// instruction.
pub proof fn lemma_parse_is_filter_map(s: Seq<char>)
    ensures
        parse_spec(s) == s.filter(|c: char| is_instruction_char(c)).map_values(
            |c: char| instruction_of(c).unwrap(),
        ),
    decreases s.len(),
{
    reveal(Seq::filter);
    let pred = |c: char| is_instruction_char(c);
    let f = |c: char| instruction_of(c).unwrap();
    if s.len() == 0 {
        assert(parse_spec(s) =~= s.filter(pred).map_values(f));
    } else {
        lemma_parse_is_filter_map(s.drop_last());
        assert(s.filter(pred) == if pred(s.last()) {
            s.drop_last().filter(pred).push(s.last())
        } else {
            s.drop_last().filter(pred)
        });
        if pred(s.last()) {
            assert(s.drop_last().filter(pred).push(s.last()).map_values(f) =~= s.drop_last().filter(
                pred,
            ).map_values(f).push(f(s.last())));
        }
        assert(parse_spec(s) =~= s.filter(pred).map_values(f));
    }
}

} // verus!
