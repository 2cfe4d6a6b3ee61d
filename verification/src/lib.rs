use vstd::prelude::*;

pub mod types;
pub mod wire;
pub mod protocol;
pub mod codec;
pub mod telemetry;
pub mod commissioning;
pub mod firmware;
pub mod node;
pub mod artifact;
pub mod drivers;
pub mod backpack;
pub mod boards;
pub mod sim;
pub mod text;
pub mod host;
pub mod tooling;
pub mod port;

verus! {

} // verus!
