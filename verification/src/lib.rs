//! Host/guest call bridge and object-lifetime registry of a multi-backend
//! WebAssembly execution runtime.
//!
//! The crate covers the store-scoped handle registry that gives every
//! runtime object a stable, identity-tagged address; the
//! backend-polymorphic entity facade that dispatches every operation to
//! exactly one active backend; and the host-function calling bridge with
//! its raw-value marshaling trampoline and call-resumption protocol.

pub mod bridge;
pub mod cli;
pub mod engine;
pub mod error;
pub mod exnref;
pub mod function;
pub mod global;
pub mod handle;
pub mod hook;
pub mod js;
pub mod jsc;
pub mod store;
pub mod sys;
pub mod typed;
pub mod types;
pub mod v8;
pub mod value;
pub mod vm;
pub mod wamr;
pub mod wasmi;
