//! Wire conventions and routing rules of a device tunnelling gateway —
//! device ids, key expressions, message envelopes, topic validation,
//! HTTP host routing, TLS and REST decisions — and the types of the AI
//! provider runner with its registry.

use vstd::prelude::*;

pub mod agent_info;
pub mod api;
pub mod assoc;
pub mod client;
pub mod config;
pub mod db;
pub mod error;
pub mod http_router;
pub mod keyexpr;
pub mod msg;
pub mod msg_fanin;
pub mod runner;
pub mod string_map;
pub mod text;
pub mod tls;
pub mod uuid_text;
pub mod zid;

verus! {

} // verus!
