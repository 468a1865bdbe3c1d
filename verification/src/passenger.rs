//! Passengers: who wants to go from where to where, and from when on.

use crate::base::{groups_or_public, optional_id};
use crate::membership::Membership;
use crate::type_aliases::{GeoidString, PassengerId, SimTime, VehicleId};
use vstd::prelude::*;

verus! {

/// One passenger of a request.
pub struct Passenger {
    id: PassengerId,
    origin: GeoidString,
    destination: GeoidString,
    departure_time: SimTime,
    membership: Membership,
    vehicle_id: Option<VehicleId>,
}

/// What a passenger holds, as plain values.
pub struct PassengerView {
    pub id: Seq<char>,
    pub origin: Seq<char>,
    pub destination: Seq<char>,
    pub departure_time: nat,
    pub membership: Set<Seq<char>>,
    pub vehicle_id: Option<Seq<char>>,
}

impl View for Passenger {
    type V = PassengerView;

    closed spec fn view(&self) -> PassengerView {
        PassengerView {
            id: self.id@,
            origin: self.origin@,
            destination: self.destination@,
            departure_time: self.departure_time as nat,
            membership: self.membership@,
            vehicle_id: optional_id(self.vehicle_id),
        }
    }
}

impl Passenger {
    /// A passenger who leaves `origin` for `destination` at `departure_time`.
    /// Without a membership the passenger is public.
    pub fn new(
        id: PassengerId,
        origin: GeoidString,
        destination: GeoidString,
        departure_time: SimTime,
        membership: Option<Membership>,
        vehicle_id: Option<VehicleId>,
    ) -> (r: Passenger)
        ensures
            r@ == (PassengerView {
                id: id@,
                origin: origin@,
                destination: destination@,
                departure_time: departure_time as nat,
                membership: groups_or_public(membership),
                vehicle_id: optional_id(vehicle_id),
            }),
    {
        let membership = match membership {
            Some(m) => m,
            None => Membership::default(),
        };
        Passenger { id, origin, destination, departure_time, membership, vehicle_id }
    }

    /// A copy of this passenger.
    pub fn copy(&self) -> (r: Passenger)
        ensures
            r@ == self@,
    {
        self.clone()
    }

    /// The identifier of the passenger.
    pub fn id(&self) -> (r: PassengerId)
        ensures
            r@ == self@.id,
    {
        self.id.clone()
    }

    /// The cell that the passenger leaves from.
    pub fn origin(&self) -> (r: GeoidString)
        ensures
            r@ == self@.origin,
    {
        self.origin.clone()
    }

    /// The cell that the passenger wants to reach.
    pub fn destination(&self) -> (r: GeoidString)
        ensures
            r@ == self@.destination,
    {
        self.destination.clone()
    }

    /// The time from which the passenger is ready to leave.
    pub fn departure_time(&self) -> (r: SimTime)
        ensures
            r == self@.departure_time,
    {
        self.departure_time
    }

    /// The membership that the passenger holds.
    pub fn membership(&self) -> (r: Membership)
        ensures
            r@ == self@.membership,
    {
        self.membership.clone()
    }

    /// The vehicle that the passenger is in, if any.
    pub fn vehicle_id(&self) -> (r: Option<VehicleId>)
        ensures
            optional_id(r) == self@.vehicle_id,
    {
        match &self.vehicle_id {
            Some(vehicle_id) => Some(vehicle_id.clone()),
            None => None,
        }
    }

    /// A passenger who leaves `origin` for `destination` at `departure_time`.
    /// Without a membership the passenger is public.
    pub fn build(
        id: PassengerId,
        origin: GeoidString,
        destination: GeoidString,
        departure_time: SimTime,
        membership: Option<Membership>,
        vehicle_id: Option<VehicleId>,
    ) -> (r: Passenger)
        ensures
            r@ == (PassengerView {
                id: id@,
                origin: origin@,
                destination: destination@,
                departure_time: departure_time as nat,
                membership: groups_or_public(membership),
                vehicle_id: optional_id(vehicle_id),
            }),
    {
        Passenger::new(id, origin, destination, departure_time, membership, vehicle_id)
    }
}

impl Clone for Passenger {
    fn clone(&self) -> (r: Passenger)
        ensures
            r@ == self@,
    {
        Passenger {
            id: self.id.clone(),
            origin: self.origin.clone(),
            destination: self.destination.clone(),
            departure_time: self.departure_time,
            membership: self.membership.clone(),
            vehicle_id: match &self.vehicle_id {
                Some(vehicle_id) => Some(vehicle_id.clone()),
                None => None,
            },
        }
    }
}

} // verus!
