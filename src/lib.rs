use vstd::prelude::*;

pub mod hardware_interface;
pub mod melody;
pub mod configuration;
pub mod machine;
pub mod programs;
pub mod reaction_tester;
mod random;

verus! {

/// Milliseconds since the machine started.
pub type Time = u32;

/// A span of milliseconds.
pub type Duration = u32;

} // verus!
