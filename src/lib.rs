//! Client SDK for the Vernachain network API.
//!
//! The library computes everything a call needs before and after the network:
//! endpoint paths and URLs, the WebSocket address, the authentication frame,
//! how an HTTP status is interpreted, and the decisions of the block
//! subscription relay. Sending and receiving is left to the caller.
use vstd::prelude::*;

pub mod text;
pub mod error;
pub mod status;
pub mod endpoint;
pub mod header;
pub mod wire;
pub mod client;
pub mod relay;
pub mod sdk;
