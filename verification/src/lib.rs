//! Status translation at the boundary to a Node-API runtime.
//!
//! Every call into the runtime hands back a status code. A code other than
//! "ok" says that the call failed; what failed, and whether a JavaScript
//! exception is waiting, is kept by the runtime and has to be asked for. This
//! crate decides what is asked, in which order, and assembles the answers into
//! one owned [`Error`]. The runtime itself is reached only through the three
//! queries that the caller supplies.

pub mod env;
pub mod message;
pub mod runtime;
pub mod sys;
pub mod translation;
pub mod result;

pub use env::Env;
pub use result::{Error, ErrorKind};
pub use sys::{RawEnv, RawValue, Status};
