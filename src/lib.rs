//! Decision and state logic for a bridge between a publish/subscribe bus and a
//! key/value store: message classification, the feature and stream stores,
//! the telemetry generator and the connection-resilience state machines.
use vstd::prelude::*;

pub mod cors;
pub mod features;
pub mod json;
pub mod message;
pub mod resilience;
pub mod stream;
pub mod telemetry;
pub mod text;

verus! {

} // verus!
