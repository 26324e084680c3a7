//! Sensor lifecycle stubs. Reading the sensors themselves is hardware
//! work and lives with the caller; only the trivial lifecycle hooks
//! belong to the engine.

use vstd::prelude::*;

verus! {

/// Prepares the sensors for reading.
pub fn init_sensors() -> (r: Result<(), ()>)
    ensures
        r is Ok,
{
    Ok(())
}

/// Shuts the sensors down for low-power operation.
pub fn shutdown_sensors() -> (r: Result<(), ()>)
    ensures
        r is Ok,
{
    Ok(())
}

} // verus!
