//! Authenticated command dispatch and key duplication for a Trusted Platform
//! Module.
//!
//! A command is put together from a context's sessions and the caller's
//! values, handed to the module once, and its answer is turned into owned
//! values or into one error. Every step but the call into the module is here,
//! and is verified: see [`Context::duplicate`].
pub mod buffers;
pub mod context;
pub mod duplication;
pub mod error;
pub mod handles;
pub mod symmetric;

pub use crate::buffers::{Data, EncryptedSecret, Private};
pub use crate::context::Context;
pub use crate::duplication::{DuplicateCommand, DuplicateResponse};
pub use crate::error::{Error, WrapperErrorKind};
pub use crate::handles::{ObjectHandle, SessionHandle};
pub use crate::symmetric::SymmetricDefinitionObject;
