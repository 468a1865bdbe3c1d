//! Resources: what is to be carried from where to where, and from when on.

use crate::base::{groups_or_public, optional_id};
use crate::membership::Membership;
use crate::type_aliases::{GeoidString, PassengerId, SimTime, VehicleId};
use vstd::prelude::*;

verus! {

/// One resource of a request.
pub struct Resource {
    id: PassengerId,
    origin: GeoidString,
    destination: GeoidString,
    departure_time: SimTime,
    membership: Membership,
    vehicle_id: Option<VehicleId>,
}

/// What a resource holds, as plain values.
pub struct ResourceView {
    pub id: Seq<char>,
    pub origin: Seq<char>,
    pub destination: Seq<char>,
    pub departure_time: nat,
    pub membership: Set<Seq<char>>,
    pub vehicle_id: Option<Seq<char>>,
}

impl View for Resource {
    type V = ResourceView;

    closed spec fn view(&self) -> ResourceView {
        ResourceView {
            id: self.id@,
            origin: self.origin@,
            destination: self.destination@,
            departure_time: self.departure_time as nat,
            membership: self.membership@,
            vehicle_id: optional_id(self.vehicle_id),
        }
    }
}

impl Resource {
    /// A resource that leaves `origin` for `destination` at `departure_time`.
    /// Without a membership the resource is public.
    pub fn new(
        id: PassengerId,
        origin: GeoidString,
        destination: GeoidString,
        departure_time: SimTime,
        membership: Option<Membership>,
        vehicle_id: Option<VehicleId>,
    ) -> (r: Resource)
        ensures
            r@ == (ResourceView {
                id: id@,
                origin: origin@,
                destination: destination@,
                departure_time: departure_time as nat,
                membership: groups_or_public(membership),
                vehicle_id: optional_id(vehicle_id),
            }),
    {
        let membership = match membership {
            Some(m) => m,
            None => Membership::default(),
        };
        Resource { id, origin, destination, departure_time, membership, vehicle_id }
    }

    /// A copy of this resource.
    pub fn copy(&self) -> (r: Resource)
        ensures
            r@ == self@,
    {
        self.clone()
    }

    /// The identifier of the resource.
    pub fn id(&self) -> (r: PassengerId)
        ensures
            r@ == self@.id,
    {
        self.id.clone()
    }

    /// The cell that the resource leaves from.
    pub fn origin(&self) -> (r: GeoidString)
        ensures
            r@ == self@.origin,
    {
        self.origin.clone()
    }

    /// The cell that the resource is to reach.
    pub fn destination(&self) -> (r: GeoidString)
        ensures
            r@ == self@.destination,
    {
        self.destination.clone()
    }

    /// The time from which the resource is ready to leave.
    pub fn departure_time(&self) -> (r: SimTime)
        ensures
            r == self@.departure_time,
    {
        self.departure_time
    }

    /// The membership that the resource holds.
    pub fn membership(&self) -> (r: Membership)
        ensures
            r@ == self@.membership,
    {
        self.membership.clone()
    }

    /// The vehicle that the resource is in, if any.
    pub fn vehicle_id(&self) -> (r: Option<VehicleId>)
        ensures
            optional_id(r) == self@.vehicle_id,
    {
        match &self.vehicle_id {
            Some(vehicle_id) => Some(vehicle_id.clone()),
            None => None,
        }
    }

    /// This resource, placed in the vehicle `vehicle_id`.
    pub fn add_vehicle_id(&self, vehicle_id: VehicleId) -> (r: Resource)
        ensures
            r@ == (ResourceView { vehicle_id: Some(vehicle_id@), ..self@ }),
    {
        Resource {
            id: self.id.clone(),
            origin: self.origin.clone(),
            destination: self.destination.clone(),
            departure_time: self.departure_time,
            membership: self.membership.clone(),
            vehicle_id: Some(vehicle_id),
        }
    }
}

impl Clone for Resource {
    fn clone(&self) -> (r: Resource)
        ensures
            r@ == self@,
    {
        Resource {
            id: self.id.clone(),
            origin: self.origin.clone(),
            destination: self.destination.clone(),
            departure_time: self.departure_time,
            membership: self.membership.clone(),
            vehicle_id: match &self.vehicle_id {
                Some(vehicle_id) => Some(vehicle_id.clone()),
                None => None,
            },
        }
    }
}

} // verus!
