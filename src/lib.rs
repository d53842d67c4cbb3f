//! Stacking errors: a chain of messages, oldest first, that carries an
//! optional classification code and an optional diagnostic URI.

pub mod chain;
pub mod codes;
pub mod convert;
pub mod error;
pub mod location;
pub mod named;

pub use chain::{ChainView, NodeView, Op};
pub use codes::ErrorCode;
pub use error::{ErrorStacks, StackError, StackResult};
pub use location::fmt_loc;
pub use named::NamedError;
