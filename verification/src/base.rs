//! Bases: pools of interchangeable stalls, each at one place, each open to
//! the holders of certain memberships.
//!
//! A [`Base`] is a snapshot and never changes. Taking a stall, giving one
//! back, or changing who may use the base hands back a new snapshot.

use crate::entity_position::{EntityPosition, EntityPositionView};
use crate::error::{HiveError, ParseCause, RowField};
use crate::membership::{
    checked_groups, group_set, groups_grant_access, lemma_groups_of_membership, public_id,
    Membership,
};
use crate::road_network::{position_of, CellLookup, HaversineRoadNetwork};
use crate::row::{parse_count, parse_stall_count, Row};
use crate::type_aliases::{BaseId, GeoidString, MembershipId, StationId};
use vstd::prelude::*;

verus! {

/// The name of the optional field that links a base to a station.
pub const STATION_ID_FIELD: &'static str = "station_id";

/// The station that a base loaded from a row belongs to when the row names
/// none.
pub const NO_STATION: &'static str = "none";

/// One snapshot of a base.
pub struct Base {
    id: BaseId,
    position: EntityPosition,
    membership: Membership,
    total_stalls: usize,
    available_stalls: usize,
    station_id: Option<StationId>,
}

/// What a snapshot of a base holds, as plain values.
pub struct BaseView {
    pub id: Seq<char>,
    pub position: EntityPositionView,
    pub membership: Set<Seq<char>>,
    pub total_stalls: nat,
    pub available_stalls: nat,
    pub station_id: Option<Seq<char>>,
}

impl BaseView {
    /// What holds of every snapshot: no more stalls are available than there
    /// are, and the reserved name is not among the groups.
    pub open spec fn valid(self) -> bool {
        &&& self.available_stalls <= self.total_stalls
        &&& self.membership.finite()
        &&& !self.membership.contains(public_id())
    }

    /// A stall is available to a requester with the groups `requester`.
    pub open spec fn has_available_stall(self, requester: Set<Seq<char>>) -> bool {
        self.available_stalls > 0 && groups_grant_access(self.membership, requester)
    }

    /// The snapshot after one stall was taken, or nothing if none is
    /// available.
    pub open spec fn checkout_stall(self) -> Option<BaseView> {
        if self.available_stalls == 0 {
            None
        } else {
            Some(BaseView { available_stalls: (self.available_stalls - 1) as nat, ..self })
        }
    }

    /// The snapshot after one stall was given back, or `CapacityExceeded` if
    /// that would make more stalls available than there are.
    pub open spec fn return_stall(self) -> Result<BaseView, HiveError> {
        if self.available_stalls + 1 > self.total_stalls {
            Err(HiveError::CapacityExceeded)
        } else {
            Ok(BaseView { available_stalls: self.available_stalls + 1, ..self })
        }
    }

    /// The snapshot with its groups replaced by `groups`, or the error that
    /// came in their place.
    pub open spec fn with_groups(self, groups: Result<Set<Seq<char>>, HiveError>) -> Result<
        BaseView,
        HiveError,
    > {
        match groups {
            Ok(membership) => Ok(BaseView { membership, ..self }),
            Err(e) => Err(e),
        }
    }
}

/// The snapshot of a base that was just built: all of its stalls are
/// available.
pub open spec fn new_base(
    id: Seq<char>,
    geoid: Seq<char>,
    station_id: Option<Seq<char>>,
    stall_count: nat,
    membership: Set<Seq<char>>,
) -> BaseView {
    BaseView {
        id,
        position: position_of(geoid),
        membership,
        total_stalls: stall_count,
        available_stalls: stall_count,
        station_id,
    }
}

/// The groups of an optional membership: those of the public one where none
/// is given.
pub open spec fn groups_or_public(membership: Option<Membership>) -> Set<Seq<char>> {
    match membership {
        Some(m) => m@,
        None => Set::empty(),
    }
}

/// An optional identifier as an optional sequence of characters.
pub open spec fn optional_id(id: Option<String>) -> Option<Seq<char>> {
    match id {
        Some(s) => Some(s@),
        None => None,
    }
}

/// An optional snapshot as plain values.
pub open spec fn optional_snapshot(r: Option<Base>) -> Option<BaseView> {
    match r {
        Some(base) => Some(base@),
        None => None,
    }
}

/// A snapshot or an error, the snapshot as plain values.
pub open spec fn snapshot_or_error(r: Result<Base, HiveError>) -> Result<BaseView, HiveError> {
    match r {
        Ok(base) => Ok(base@),
        Err(e) => Err(e),
    }
}

/// The station of a base that is loaded from `row`.
pub open spec fn row_station(row: Map<Seq<char>, Seq<char>>) -> Seq<char> {
    if row.contains_key(STATION_ID_FIELD@) {
        row[STATION_ID_FIELD@]
    } else {
        NO_STATION@
    }
}

/// The base that `row` describes, where `lookup` is what the grid made of the
/// row's coordinate. The fields are looked at in the order identifier,
/// latitude, longitude, stall count, and the first one that is missing or is
/// not a number decides the error. The base is public, and all of its stalls
/// are available.
pub open spec fn row_base(row: Map<Seq<char>, Seq<char>>, lookup: CellLookup) -> Result<
    BaseView,
    HiveError,
> {
    if !row.contains_key(RowField::BaseId.spec_name()) {
        Err(HiveError::MissingField(RowField::BaseId))
    } else if !row.contains_key(RowField::Lat.spec_name()) {
        Err(HiveError::MissingField(RowField::Lat))
    } else if lookup is LatitudeNotANumber {
        Err(HiveError::ParseError(RowField::Lat, ParseCause::NotANumber))
    } else if !row.contains_key(RowField::Lon.spec_name()) {
        Err(HiveError::MissingField(RowField::Lon))
    } else if lookup is LongitudeNotANumber {
        Err(HiveError::ParseError(RowField::Lon, ParseCause::NotANumber))
    } else if !row.contains_key(RowField::StallCount.spec_name()) {
        Err(HiveError::MissingField(RowField::StallCount))
    } else {
        match parse_count(row[RowField::StallCount.spec_name()]) {
            Err(cause) => Err(HiveError::ParseError(RowField::StallCount, cause)),
            Ok(stall_count) => match lookup {
                CellLookup::Cell(geoid) => Ok(
                    new_base(
                        row[RowField::BaseId.spec_name()],
                        geoid.spec_to_string(),
                        Some(row_station(row)),
                        stall_count,
                        Set::empty(),
                    ),
                ),
                _ => Err(HiveError::UnresolvedLocation),
            },
        }
    }
}

impl View for Base {
    type V = BaseView;

    closed spec fn view(&self) -> BaseView {
        BaseView {
            id: self.id@,
            position: self.position@,
            membership: self.membership@,
            total_stalls: self.total_stalls as nat,
            available_stalls: self.available_stalls as nat,
            station_id: optional_id(self.station_id),
        }
    }
}

impl Base {
    /// What holds of every snapshot: no more stalls are available than there
    /// are.
    #[verifier::type_invariant]
    closed spec fn well_formed(&self) -> bool {
        self.available_stalls <= self.total_stalls
    }

    /// A base with `stall_count` stalls, all of them available, in the cell
    /// `geoid`. Without a membership the base is public.
    pub fn new(
        id: BaseId,
        geoid: GeoidString,
        road_network: HaversineRoadNetwork,
        station_id: Option<StationId>,
        stall_count: usize,
        membership: Option<Membership>,
    ) -> (r: Base)
        ensures
            r@ == new_base(
                id@,
                geoid@,
                optional_id(station_id),
                stall_count as nat,
                groups_or_public(membership),
            ),
            r@.valid(),
    {
        let membership = match membership {
            Some(m) => m,
            None => Membership::default(),
        };
        proof {
            use_type_invariant(&membership);
            lemma_groups_of_membership(membership);
        }
        Base {
            id,
            position: road_network.position_from_geoid(geoid),
            membership,
            total_stalls: stall_count,
            available_stalls: stall_count,
            station_id,
        }
    }

    /// A copy of this snapshot.
    pub fn copy(&self) -> (r: Base)
        ensures
            r@ == self@,
            r@.valid(),
    {
        self.clone()
    }

    /// The identifier of the base.
    pub fn id(&self) -> (r: BaseId)
        ensures
            r@ == self@.id,
    {
        self.id.clone()
    }

    /// Where the base stands.
    pub fn position(&self) -> (r: EntityPosition)
        ensures
            r@ == self@.position,
    {
        self.position.clone()
    }

    /// Who may use the base.
    pub fn membership(&self) -> (r: Membership)
        ensures
            r@ == self@.membership,
    {
        self.membership.clone()
    }

    /// The station that the base belongs to, if any.
    pub fn station_id(&self) -> (r: Option<StationId>)
        ensures
            optional_id(r) == self@.station_id,
    {
        match &self.station_id {
            Some(station_id) => Some(station_id.clone()),
            None => None,
        }
    }

    /// The cell that the base stands in.
    pub fn geoid(&self) -> (r: GeoidString)
        ensures
            r@ == self@.position.geoid,
    {
        self.position.geoid.clone()
    }

    /// How many stalls the base has.
    pub fn total_stalls(&self) -> (r: usize)
        ensures
            r == self@.total_stalls,
    {
        self.total_stalls
    }

    /// How many stalls of the base are not taken.
    pub fn available_stalls(&self) -> (r: usize)
        ensures
            r == self@.available_stalls,
            r <= self@.total_stalls,
    {
        proof {
            use_type_invariant(self);
        }
        self.available_stalls
    }

    /// A base with `stall_count` stalls, all of them available, in the cell
    /// `geoid`. Without a membership the base is public.
    pub fn build(
        id: BaseId,
        geoid: GeoidString,
        road_network: HaversineRoadNetwork,
        stall_count: usize,
        station_id: Option<StationId>,
        membership: Option<Membership>,
    ) -> (r: Base)
        ensures
            r@ == new_base(
                id@,
                geoid@,
                optional_id(station_id),
                stall_count as nat,
                groups_or_public(membership),
            ),
            r@.valid(),
    {
        Base::new(id, geoid, road_network, station_id, stall_count, membership)
    }

    /// Loads a base from a row. `lookup` is what the grid made of the row's
    /// latitude and longitude. Where the row lacks one of the two, that is
    /// reported and `lookup` is not asked about it.
    pub fn from_row(row: Row, road_network: HaversineRoadNetwork, lookup: CellLookup) -> (r: Result<
        Base,
        HiveError,
    >)
        ensures
            snapshot_or_error(r) == row_base(row@, lookup),
            r matches Ok(base) ==> base@.valid(),
    {
        let base_id = match row.get(RowField::BaseId.name()) {
            Some(base_id) => base_id,
            None => {
                return Err(HiveError::MissingField(RowField::BaseId));
            },
        };
        if row.get(RowField::Lat.name()).is_none() {
            return Err(HiveError::MissingField(RowField::Lat));
        }
        if let CellLookup::LatitudeNotANumber = lookup {
            return Err(HiveError::ParseError(RowField::Lat, ParseCause::NotANumber));
        }
        if row.get(RowField::Lon.name()).is_none() {
            return Err(HiveError::MissingField(RowField::Lon));
        }
        if let CellLookup::LongitudeNotANumber = lookup {
            return Err(HiveError::ParseError(RowField::Lon, ParseCause::NotANumber));
        }
        let stall_count_string = match row.get(RowField::StallCount.name()) {
            Some(stall_count_string) => stall_count_string,
            None => {
                return Err(HiveError::MissingField(RowField::StallCount));
            },
        };
        let stall_count = match parse_stall_count(stall_count_string.as_str()) {
            Ok(stall_count) => stall_count,
            Err(cause) => {
                return Err(HiveError::ParseError(RowField::StallCount, cause));
            },
        };
        let h3cell = match lookup {
            CellLookup::Cell(h3cell) => h3cell,
            _ => {
                return Err(HiveError::UnresolvedLocation);
            },
        };
        let station_id = match row.get(STATION_ID_FIELD) {
            Some(station_id) => station_id.clone(),
            None => String::from_str(NO_STATION),
        };
        Ok(
            Base::new(
                base_id.clone(),
                h3cell.to_string(),
                road_network,
                Some(station_id),
                stall_count,
                Some(Membership::default()),
            ),
        )
    }

    /// Whether the base has a stall for the holder of `membership`: one is
    /// available, and the base admits that membership.
    pub fn has_available_stall(&self, membership: Membership) -> (r: bool)
        ensures
            r == self@.has_available_stall(membership@),
    {
        self.available_stalls > 0 && self.membership.grant_access_to_membership(&membership)
    }

    /// Takes one stall. Gives the snapshot with one stall fewer available, or
    /// nothing if none is available.
    pub fn checkout_stall(&self) -> (r: Option<Base>)
        ensures
            optional_snapshot(r) == self@.checkout_stall(),
            self@.available_stalls == 0 <==> r is None,
            r matches Some(base) ==> base@.available_stalls == self@.available_stalls - 1
                && base@.total_stalls == self@.total_stalls && base@.valid(),
    {
        proof {
            use_type_invariant(self);
        }
        if self.available_stalls == 0 {
            None
        } else {
            let mut new_self = self.clone();
            new_self.available_stalls = new_self.available_stalls - 1;
            Some(new_self)
        }
    }

    /// Gives one stall back. Gives the snapshot with one stall more
    /// available, or fails if all stalls are available already.
    pub fn return_stall(&self) -> (r: Result<Base, HiveError>)
        ensures
            snapshot_or_error(r) == self@.return_stall(),
            self@.available_stalls == self@.total_stalls <==> r matches Err(
                HiveError::CapacityExceeded,
            ),
            self@.available_stalls < self@.total_stalls <==> r is Ok,
            r matches Ok(base) ==> base@.available_stalls == self@.available_stalls + 1
                && base@.total_stalls == self@.total_stalls && base@.valid(),
    {
        proof {
            use_type_invariant(self);
        }
        if self.available_stalls >= self.total_stalls {
            Err(HiveError::CapacityExceeded)
        } else {
            let mut new_self = self.clone();
            new_self.available_stalls = new_self.available_stalls + 1;
            Ok(new_self)
        }
    }

    /// Replaces who may use the base by the holders of the groups
    /// `member_ids`. Fails if the reserved name is among them.
    pub fn set_membership(&self, member_ids: Vec<MembershipId>) -> (r: Result<Base, HiveError>)
        ensures
            snapshot_or_error(r) == self@.with_groups(checked_groups(group_set(member_ids@))),
            r matches Ok(base) ==> base@.valid(),
    {
        proof {
            use_type_invariant(self);
        }
        let membership = match Membership::_from_tuple(member_ids) {
            Ok(membership) => membership,
            Err(e) => {
                return Err(e);
            },
        };
        proof {
            use_type_invariant(&membership);
            lemma_groups_of_membership(membership);
        }
        let mut new_self = self.clone();
        new_self.membership = membership;
        Ok(new_self)
    }

    /// Opens the base to the holders of the group `membership_id` as well.
    /// Fails if that is the reserved name.
    pub fn add_membership(&self, membership_id: MembershipId) -> (r: Result<Base, HiveError>)
        ensures
            snapshot_or_error(r) == self@.with_groups(
                checked_groups(self@.membership.insert(membership_id@)),
            ),
            membership_id@ == public_id() <==> r matches Err(HiveError::ReservedIdentifier),
            r matches Ok(base) ==> base@.valid(),
    {
        proof {
            use_type_invariant(self);
        }
        let membership = match self.membership.add_membership(membership_id) {
            Ok(membership) => membership,
            Err(e) => {
                return Err(e);
            },
        };
        proof {
            use_type_invariant(&membership);
            lemma_groups_of_membership(membership);
        }
        let mut new_self = self.clone();
        new_self.membership = membership;
        Ok(new_self)
    }
}

impl PartialEq for Base {
    /// Two snapshots are equal when they agree in every attribute.
    fn eq(&self, other: &Base) -> (r: bool) {
        let same_station = match (&self.station_id, &other.station_id) {
            (Some(a), Some(b)) => *a == *b,
            (None, None) => true,
            _ => false,
        };
        same_station && self.id == other.id && self.position == other.position
            && self.membership == other.membership && self.total_stalls == other.total_stalls
            && self.available_stalls == other.available_stalls
    }
}

impl vstd::std_specs::cmp::PartialEqSpecImpl for Base {
    open spec fn obeys_eq_spec() -> bool {
        true
    }

    open spec fn eq_spec(&self, other: &Base) -> bool {
        self@ == other@
    }
}

impl Eq for Base {

}

impl Clone for Base {
    fn clone(&self) -> (r: Base)
        ensures
            r@ == self@,
            r@.valid(),
    {
        proof {
            use_type_invariant(self);
            use_type_invariant(&self.membership);
            lemma_groups_of_membership(self.membership);
        }
        Base {
            id: self.id.clone(),
            position: self.position.clone(),
            membership: self.membership.clone(),
            total_stalls: self.total_stalls,
            available_stalls: self.available_stalls,
            station_id: match &self.station_id {
                Some(station_id) => Some(station_id.clone()),
                None => None,
            },
        }
    }
}

/// A base without an available stall hands out none.
pub proof fn lemma_checkout_of_empty(e: BaseView)
    requires
        e.available_stalls == 0,
    ensures
        e.checkout_stall() is None,
{
}

/// A base with an available stall hands one out: one stall fewer is
/// available afterwards, and nothing else about the base has changed.
pub proof fn lemma_checkout_of_stocked(e: BaseView)
    requires
        0 < e.available_stalls <= e.total_stalls,
    ensures
        e.checkout_stall() == Some(
            BaseView { available_stalls: (e.available_stalls - 1) as nat, ..e },
        ),
        e.checkout_stall().unwrap().total_stalls == e.total_stalls,
        e.checkout_stall().unwrap().available_stalls == e.available_stalls - 1,
{
}

/// Taking a stall and giving it back leads to the snapshot one began with.
pub proof fn lemma_checkout_then_return(e: BaseView)
    requires
        e.valid(),
        e.checkout_stall() is Some,
    ensures
        e.checkout_stall().unwrap().return_stall() == Ok::<BaseView, HiveError>(e),
        e.checkout_stall().unwrap().return_stall().unwrap().available_stalls
            == e.available_stalls,
{
}

/// Giving a stall back and taking one leads to the snapshot one began with.
pub proof fn lemma_return_then_checkout(e: BaseView)
    requires
        e.valid(),
        e.return_stall() is Ok,
    ensures
        e.return_stall().unwrap().checkout_stall() == Some(e),
{
}

/// Giving a stall back fails exactly when every stall is available, and then
/// with `CapacityExceeded`.
pub proof fn lemma_return_fails_when_full(e: BaseView)
    requires
        e.valid(),
    ensures
        e.return_stall() is Err <==> e.available_stalls == e.total_stalls,
        e.return_stall() is Err ==> e.return_stall() == Err::<BaseView, HiveError>(
            HiveError::CapacityExceeded,
        ),
{
}

/// Taking a stall and giving one back keep a snapshot valid, and so does a
/// change of its groups that succeeds.
pub proof fn lemma_transitions_keep_valid(e: BaseView, groups: Set<Seq<char>>)
    requires
        e.valid(),
        groups.finite(),
    ensures
        e.checkout_stall() matches Some(next) ==> next.valid(),
        e.return_stall() matches Ok(next) ==> next.valid(),
        e.with_groups(checked_groups(groups)) matches Ok(next) ==> next.valid(),
{
}

} // verus!
