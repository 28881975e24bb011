pub mod course;
pub mod fingerprint;
pub mod funge_address;
pub mod funge_dimension;
pub mod funge_interpreter;
pub mod funge_space;
pub mod funge_space_accessor;
pub mod funge_stack;
pub mod funge_stack_stack;
pub mod funge_thread;
pub mod funge_value;
pub mod instruction;
pub mod thread_list;

pub use funge_address::{FungeAddress, FungePageAddress};
pub use funge_dimension::{FungeDim1, FungeDim2, FungeDim3, FungeDimension};
pub use funge_interpreter::{
    FungeInterpreter,
    HostReply,
    HostRequest,
    StepResult,
    TickResult,
};
pub use funge_space::{FungeSpace, FungeSpacePage};
pub use funge_space_accessor::{FungeSpaceAccessor, SpaceAccessorDim2, SpaceAccessorDim3};
pub use funge_stack::FungeStack;
pub use funge_stack_stack::FungeStackStack;
pub use funge_thread::{FungeThread, InstructionDelta, InstructionPointer};
pub use funge_value::FungeValue;
pub use thread_list::ThreadList;
