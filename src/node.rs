//! Kinds of node in the wider network.

use vstd::prelude::*;

verus! {

/// The kind of device or service a network node stands for.
#[derive(Debug, Clone, Copy, PartialEq, Eq, Structural)]
pub enum NodeType {
    Drone,
    BioSensor,
    NanoLaser,
    GLPMeta,
    BaseStation,
    Simulated,
}

} // verus!
