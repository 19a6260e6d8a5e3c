//! A registry of named functions that are called through text.
//!
//! A function is registered under a name together with a descriptive
//! signature. It is later called by that name with a sequence of text
//! arguments, and answers with text or with a [`CallError`].

pub mod callable;
pub mod error;
pub mod function_registry;
pub mod lemmas;

pub use callable::{Callable, CallableEntry};
pub use error::{CallError, CallErrorView};
pub use function_registry::FunctionRegistry;
