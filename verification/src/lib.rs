//! Global variables of a WebAssembly engine: typed storage cells that are
//! either constant or writable, the descriptors that declare their shape, and
//! the rules that say who releases them.
//!
//! Every executable function carries a contract over the ghost views of
//! [`model`], and the rules that relate several operations are proved there.

pub mod types;
pub mod model;
pub mod global;

pub use crate::global::Global;
pub use crate::global::GlobalType;
pub use crate::types::GlobalError;
pub use crate::types::Mutability;
pub use crate::types::Ownership;
pub use crate::types::ValType;
pub use crate::types::Value;
