//! Verified core of a minimal JSON-RPC service and its benchmark client:
//! the search for a free port, the request routing of the HTTP middleware,
//! the RPC method table and replies, and the counter bookkeeping of the
//! benchmark.
pub mod port_search;
pub mod rpc;
pub mod bench;
