//! A minimal multi-process host runtime on top of a WebAssembly interpreter.
//!
//! A supervisor module loads bytecode blobs as isolated processes, attaches
//! function bindings to them, instantiates them and calls their exports. This
//! crate holds the process-management layer, each part with a machine-checked
//! contract:
//!
//! - `handle`: the handle scheme, a generation and a namespace tag;
//! - `value`, `codec`: typed values and the fixed-stride argument buffer;
//! - `error`: the failures and their status codes;
//! - `bindings`, `process`: binding sets, import resolution, created and
//!   spawned processes;
//! - `registry`: the two process tables and the primitives on values;
//! - `primitive`, `host`: the primitives as the supervisor calls them, and
//!   their dispatch;
//! - `client`: typed handles over the primitives;
//! - `engine`: the interpreter, taken on trust.

pub mod bindings;
pub mod client;
pub mod codec;
pub mod engine;
pub mod error;
pub mod handle;
pub mod host;
pub mod primitive;
pub mod process;
pub mod registry;
pub mod value;
