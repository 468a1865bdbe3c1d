//! Names for the identifiers that the simulation passes around. Each is an
//! opaque string (or a plain count) whose meaning is given by where it is used.

use vstd::prelude::*;

verus! {

/// Identifies one base.
pub type BaseId = String;

/// The text form of an H3 cell index.
pub type GeoidString = String;

/// Identifies one link of the road network: two geoids joined by a dash.
pub type LinkId = String;

/// Identifies one membership group.
pub type MembershipId = String;

/// Identifies one passenger or resource.
pub type PassengerId = String;

/// Seconds of simulated time.
pub type SimTime = usize;

/// Identifies one station.
pub type StationId = String;

/// Identifies one vehicle.
pub type VehicleId = String;

} // verus!
