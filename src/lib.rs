//! Dispatch of manual block-sealing requests to the authoring task, and the
//! composition of a node's RPC dispatch table out of independent sub-APIs.
pub mod dispatch;
pub mod engine;
pub mod node_rpc;
