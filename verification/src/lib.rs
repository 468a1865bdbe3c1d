//! Stall inventory and group-based access control for a mobility simulation.
//!
//! A [`base::Base`] is an immutable snapshot of a pool of interchangeable
//! stalls at one location. Who may use it is decided by a
//! [`membership::Membership`], a set of group identifiers. Every operation
//! that changes a snapshot hands back a new one and leaves its receiver as it
//! was.
//!
//! Around these two stand the value types that the simulation passes along
//! with them: positions and links of the road network, geoids, rows from
//! which bases are loaded, passengers and resources.
//!
//! The library is verified with Verus. Each type has a view in plain
//! mathematical values, and each function says in its contract what it
//! returns in terms of those views. Two calls into the `h3ron` crate, both in
//! [`geoid`], are taken on trust; their contracts say what is assumed.
//! Distances, speeds and coordinates are floating-point numbers and are left
//! to the caller.

pub mod base;
pub mod entity_position;
pub mod error;
pub mod geoid;
pub mod link;
pub mod membership;
pub mod passenger;
pub mod resource;
pub mod road_network;
pub mod row;
pub mod type_aliases;
