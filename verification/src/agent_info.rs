//! `AgentInfo` — payload returned by `hackline/<zid>/info`.

use vstd::prelude::*;

verus! {

/// Describes a running agent instance.
#[derive(Debug, Clone)]
pub struct AgentInfo {
    pub label: Option<String>,
    pub allowed_ports: Vec<u16>,
}

} // verus!
