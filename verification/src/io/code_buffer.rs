use vstd::prelude::*;
use crate::vector::Vector3;

verus! {

/// An unsigned 32-bit Unicode codepoint.
pub type Codepoint = u32;

/// CodeBuffer contains a loaded funge program (one source file)
pub struct CodeBuffer {
    pub lines: Vec<CodeBufferLine>,
    pub bounding_box: Vector3<u32>,
    pub dimensionality: u32,
}

impl CodeBuffer {
    /// A program of the lines `lines`, with its extent and its number of
    /// dimensions.
    pub fn new(lines: Vec<CodeBufferLine>, bounding_box: Vector3<u32>, dimensionality: u32) -> (buffer:
        Self)
        ensures
            buffer.lines == lines,
            buffer.bounding_box == bounding_box,
            buffer.dimensionality == dimensionality,
    {
        return CodeBuffer { lines, bounding_box, dimensionality };
    }
}

/// One line of a program: its cells, and what ends it.
pub struct CodeBufferLine {
    pub data: Vec<Codepoint>,
    pub terminator: LineTerminator,
}

impl CodeBufferLine {
    /// An empty line with room for `capacity` cells, which ends the program.
    pub fn new(capacity: u32) -> (line: Self)
        ensures
            line.data@ == Seq::<Codepoint>::empty(),
            line.terminator == LineTerminator::End,
    {
        return CodeBufferLine {
            data: Vec::with_capacity(capacity as usize),
            terminator: LineTerminator::End,
        }
    }
}

/// What ends a line of a program: the step to the next row, the step to the
/// next plane, or the end of the program.
#[derive(Copy, Clone, PartialEq, Eq, Structural, Debug)]
pub enum LineTerminator {
    FeedY,
    FeedZ,
    End,
}

} // verus!
