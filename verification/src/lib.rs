//! The verified core of a binding to the Keystone assembler engine.
//!
//! The engine is a native library: it parses assembly and encodes
//! instructions, and it is reached through a handful of C entry points. A
//! binding adds no assembling of its own. Its work is at the boundary: to open
//! and close engine handles in order, to check the engine's version, to put
//! text and options into the shape the engine takes, to bring the encoded
//! bytes into memory of the host, and to turn the engine's codes into typed
//! errors. This crate holds that work, with every function specified and
//! proved by Verus, and it makes no call into the engine.
//!
//! Instead, each operation is a short conversation ([`engine`]): the library
//! says which call is due, the caller makes it and reports what the engine
//! answered, and the library says what the answer means.
//!
//! ```ignore
//! // construct: the version query, then the open call
//! let open = Keystone::new(Arch::X86, Mode::mode_32()).returned(major, minor)?;
//! let engine = open.returned(code, handle)?;
//! // set an option
//! engine.option(OptionType::SYNTAX, OptionValue::syntax_nasm()).returned(code)?;
//! // assemble: the assemble call, then the buffer or the error query
//! let output = match engine.assemble(text, 0).returned(status, size, count) {
//!     AsmStep::Take(take) => take.returned(bytes)?,
//!     AsmStep::Errno(errno) => errno.returned(recorded)?,
//! };
//! // destroy: the close call
//! let close = engine.close();
//! ```
//!
//! * [`ffi`]: the engine's vocabulary, with the number behind each name.
//! * [`engine`]: the engine wrapper and the calls of each operation.
//! * [`text`]: text as the engine takes it.
//! * [`output`]: the output of an assembly, and its hexadecimal form.
//! * [`error`]: the errors of the operations, and their texts.

pub mod engine;
pub mod error;
pub mod ffi;
pub mod output;
pub mod text;

pub use engine::{
    AsmCall, AsmStep, CloseCall, ErrnoCall, Keystone, OpenCall, OptionCall, TakeCall, VersionCall,
};
pub use error::{KeystoneError, MiscError};
pub use ffi::{Arch, Error, KsHandle, Mode, OptionType, OptionValue};
pub use output::KeystoneOutput;
