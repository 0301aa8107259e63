//! Verified core of an exception-capturing agent for a managed runtime.
//!
//! The runtime is reached through two native interfaces: the debug interface
//! (stack walking, local variable tables, slot reads) and the call interface
//! (class and method lookup, invocation, object construction). This crate
//! performs no native call itself. Every operation is an exchange: the
//! library names the native entry point to invoke, the embedding program
//! invokes it and hands the raw reply back, and the library decides what
//! follows. The decisions are ordinary verified functions of state and reply.
//!
//! A capture is driven like this:
//!
//! ```text
//! let (mut capture, mut action) = inner_callback(jvmti_env, jni_env, thread, exception);
//! loop {
//!     let reply = match action {
//!         Action::Debug(call) => Reply::Debug(/* invoke `call` */),
//!         Action::Managed(call) => Reply::Managed(/* invoke `call` */),
//!         Action::Finished(result) => break result,
//!     };
//!     (capture, action) = capture.resume(reply);
//! }
//! ```
//!
//! The modules, from the ground up:
//!
//! - [`values`]: frames, table entries, raw slot values, signature kinds.
//! - [`text`]: what text the runtime accepts, and how handles and statuses
//!   are printed.
//! - [`errors`]: the one error type.
//! - [`env`]: the operations of the debug interface.
//! - [`jni`]: the operations of the call interface, with the diagnosis of
//!   pending exceptions.
//! - [`exceptions`]: the capture itself.
//! - [`agent`]: the load of the agent.
//! - [`laws`]: what holds of every capture.
#![allow(non_snake_case)]

pub mod values;
pub mod text;
pub mod errors;
pub mod env;
pub mod jni;
pub mod exceptions;
pub mod agent;
pub mod laws;

pub use env::JvmTiEnv;
pub use errors::Error;
pub use exceptions::{inner_callback, Action, Capture, Reply};
pub use jni::JniEnv;
pub use values::{LocalVariableEntry, RawValue, SignatureKind, SlotKind, StackFrame};
