//! A single-instruction on-chain program scaffold.
//!
//! The program exposes one entry point, `initialize`, which takes no
//! accounts and no instruction arguments.  An invocation emits one log
//! record greeting the caller with the program's own identifier and
//! returns success; no state is read or written.

pub mod entry;
pub mod id;
