//! The deployment selectors accepted from the command-line layer: target
//! architecture and deployment mode.
use vstd::prelude::*;

verus! {

/// The architecture of a deployment.
#[derive(Default, Debug, Copy, Clone, PartialEq, Eq, Structural)]
pub enum Arches {
    /// x86_64
    #[default]
    Amd64,
    /// aarch64
    Arm64,
}

/// The mode of a deployment: one node or a three-node cluster.
#[derive(Default, Debug, Copy, Clone, PartialEq, Eq, Structural)]
pub enum DeployMode {
    /// Single node
    #[default]
    AllInOne,
    /// Cluster
    MultiNode,
}

} // verus!
