//! Shared plain data types: what a deployment needs to reach a host, and the
//! coarse operating state of the whole system.

use vstd::prelude::*;

verus! {

/// Information required for deploying the agent to a new server.
#[derive(Debug, Clone)]
pub struct DeploymentInfo {
    pub ip: String,
    pub remote_user: String,
    pub private_key_path: String,
    pub remote_path: String,
}

#[derive(Debug, Clone, Copy, PartialEq, Eq, Structural)]
pub enum SystemState {
    Normal,
    Conservation,
}

} // verus!
