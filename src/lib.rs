//! Request-transform plugins: each maps an input body and a read-only request
//! context to an output body, together with the host capability calls (a log
//! line, a cache write) that the invocation asks the host to perform.

pub mod context;
pub mod runnables;
pub mod text;
