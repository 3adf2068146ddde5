//! A two-tier key-value service, as a library of verified decisions.
//!
//! The storage tier keeps string entries in memory and answers two remote
//! procedures; the gateway tier turns what the storage tier answers into HTTP
//! statuses. Sockets, TLS, locking and the wire formats live with the caller:
//! everything here is a function from plain values to plain values.
//!
//! - [`rpc`]: the messages and statuses that pass between the two tiers.
//! - [`http`]: the statuses that the gateway answers with.
//! - [`storage`]: the entries in memory and the two remote procedures.
//! - [`gateway`]: the decisions of the HTTP side, before and after a call.
//! - [`loopback`]: both tiers in one process, a request served end to end.
//! - [`laws`]: what holds of the service as a whole.

pub mod gateway;
pub mod http;
pub mod laws;
pub mod loopback;
pub mod rpc;
pub mod storage;
