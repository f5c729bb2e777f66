//! The requests that the library makes of a node, and what it makes of the answers.
//! The transport is the caller's: the library says what to ask for, and takes the
//! answers as values.

pub mod rpc;

pub use rpc::{
    to_hex, BlockNumber, JsonMember, NumberOrHex, Param, RpcRequest, RuntimeVersion,
    SubstrateTxStatus,
};
