//! The engine's vocabulary: the handle, the enumerations and the flag sets
//! that cross the boundary, each with the number the engine knows it by.

pub mod arch;
pub mod error;
pub mod handle;
pub mod mode;
pub mod option_type;
pub mod option_value;

pub use arch::Arch;
pub use error::Error;
pub use handle::KsHandle;
pub use mode::Mode;
pub use option_type::OptionType;
pub use option_value::OptionValue;

use libc::c_uint;
use vstd::prelude::*;

verus! {

/// Major number of the engine interface this library is written for.
pub const API_MAJOR: c_uint = 0;

/// Minor number of the engine interface this library is written for.
pub const API_MINOR: c_uint = 9;

} // verus!
