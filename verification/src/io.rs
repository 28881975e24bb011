pub mod code_buffer;
pub mod code_loader;
pub mod code_source;

pub use code_buffer::{CodeBuffer, CodeBufferLine, Codepoint, LineTerminator};
pub use code_loader::{CodeLoader, CodeReadError};
pub use code_source::CodeSource;
