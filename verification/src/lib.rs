//! A single-process benchmark harness for a JSON-RPC-shaped agent
//! communication protocol. The library selects fixed sample messages,
//! runs decode/encode workloads through a JSON codec, and renders the
//! results as one line of JSON text.

pub mod codec;
pub mod messages;
pub mod numfmt;
pub mod report;
pub mod workload;
