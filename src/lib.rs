//! Ownership and lifetime rules for driving an embedded JavaScriptCore engine.
//!
//! The engine is reached through a C interface with manual reference counting,
//! a tracing collector and exceptions reported through out-parameters. This
//! library states, and proves, the decisions that keep those regimes in step:
//! which retains, releases, protections and unprotections a host must carry
//! out, and how each reply of the engine becomes a value or an error.
//! Foreign handles are held as plain addresses; the calls themselves are made
//! by the host application.

pub mod helpers;
pub mod js_context;
pub mod js_exception;
pub mod js_object;
pub mod js_promise;
pub mod js_protected_value;
pub mod js_value;
pub mod js_vm;
pub mod protocol;
pub mod typed_array;
