use vstd::prelude::*;
use crate::interpreter::fingerprint::fingerprint::FingerprintData;
use crate::interpreter::funge_address::{FungeAddress, wrapping_sum};
use crate::interpreter::funge_stack_stack::FungeStackStack;
use crate::interpreter::instruction::alphabet_instruction_table::AlphabetInstructionTable;
use crate::vector::Vector3;

verus! {

/// The position of an instruction pointer.
pub type InstructionPointer = FungeAddress;

/// The step that an instruction pointer takes with each instruction.
pub type InstructionDelta = Vector3<i32>;

/// What an instruction pointer is at one moment.
pub struct ThreadState {
    /// Where it stands.
    pub ip: (i32, i32, i32),
    /// The step that it takes.
    pub delta: (i32, i32, i32),
    /// Its stacks from the top down, each from its bottom to its top.
    pub stacks: Seq<Seq<i32>>,
    /// The fingerprints that it has loaded, the last one last.
    pub fingerprints: Seq<FingerprintData>,
    /// The origin of the addresses that its programs get from and put to.
    pub storage_offset: (i32, i32, i32),
    /// Whether it reads cells as characters of a string.
    pub string_mode: bool,
}

impl ThreadState {
    /// The top stack.
    pub open spec fn toss(self) -> Seq<i32> {
        self.stacks[0]
    }

    /// The same state with `toss` for the top stack.
    pub open spec fn with_toss(self, toss: Seq<i32>) -> ThreadState {
        ThreadState { stacks: self.stacks.update(0, toss), ..self }
    }

    /// The same state at the position `ip`.
    pub open spec fn with_ip(self, ip: (i32, i32, i32)) -> ThreadState {
        ThreadState { ip, ..self }
    }

    /// The same state with the step `delta`.
    pub open spec fn with_delta(self, delta: (i32, i32, i32)) -> ThreadState {
        ThreadState { delta, ..self }
    }
}

/// An instruction pointer with all that belongs to it.
pub struct FungeThread {
    pub ip: InstructionPointer,
    pub delta: InstructionDelta,
    pub stack_stack: FungeStackStack,
    pub alphabet_inst_table: AlphabetInstructionTable,
    pub storage_offset: FungeAddress,
    pub string_mode: bool,
}

impl View for FungeThread {
    type V = ThreadState;

    open spec fn view(&self) -> ThreadState {
        ThreadState {
            ip: self.ip@,
            delta: self.delta@,
            stacks: self.stack_stack@,
            fingerprints: self.alphabet_inst_table@,
            storage_offset: self.storage_offset@,
            string_mode: self.string_mode,
        }
    }
}

impl InstructionPointer {
    /// Takes the step `delta`. A component that leaves the range of a cell
    /// comes back in at the other end.
    pub fn add_delta_wrapping(&mut self, delta: &InstructionDelta)
        ensures
            final(self)@ == wrapping_sum(old(self)@, delta@),
    {
        self.add_wrapping(delta);
    }
}

impl FungeThread {
    /// An instruction pointer at `ip` that moves by `delta`: it has one empty
    /// stack, no fingerprint, the storage offset zero, and reads
    /// instructions.
    pub fn new(ip: InstructionPointer, delta: InstructionDelta) -> (thread: Self)
        ensures
            thread@ == (ThreadState {
                ip: ip@,
                delta: delta@,
                stacks: seq![Seq::<i32>::empty()],
                fingerprints: Seq::<FingerprintData>::empty(),
                storage_offset: (0i32, 0i32, 0i32),
                string_mode: false,
            }),
    {
        FungeThread {
            ip,
            delta,
            stack_stack: FungeStackStack::new(),
            alphabet_inst_table: AlphabetInstructionTable::new(),
            storage_offset: FungeAddress::new_value(0),
            string_mode: false,
        }
    }

    /// The storage offset: where the addresses of get and put count from.
    pub fn get_storage_offset(&self) -> (offset: FungeAddress)
        ensures
            offset == self.storage_offset,
    {
        self.storage_offset
    }
}

} // verus!
