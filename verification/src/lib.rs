//! Refspecs in structural form: how a reference on one side of a fetch or a
//! push maps to a reference on the other side, and the instruction that
//! such a mapping amounts to.
//!
//! A refspec is held as an operation, a mode and two optional byte strings.
//! Every value of [`RefSpecRef`] and [`RefSpec`] has one of the shapes that
//! yield an instruction, so every query on them is total.

pub mod bytes;
pub mod compare;
pub mod instruction;
pub mod laws;
pub mod order;
pub mod refspec;
pub mod types;

pub use instruction::Fetch;
pub use instruction::Instruction;
pub use instruction::Push;
pub use refspec::InvalidParts;
pub use refspec::RefSpec;
pub use refspec::RefSpecRef;
pub use types::Mode;
pub use types::Operation;
