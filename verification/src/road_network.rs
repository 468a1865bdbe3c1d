//! The road network as the simulation sees it: cells of a hexagonal grid,
//! and links that join one cell to another.
//!
//! A link is identified by the geoids of its two ends, joined by a dash.

use crate::entity_position::{EntityPosition, EntityPositionView};
use crate::error::HiveError;
use crate::geoid::{h3_cell_index, Geoid};
use crate::link::{link_views, LinkTraversal, LinkTraversalView};
use crate::type_aliases::{GeoidString, LinkId};
use vstd::prelude::*;

verus! {

/// The grid resolution that a network has when none is asked for.
pub const DEFAULT_H3_RESOLUTION: usize = 15;

/// The identifier of the link from `origin` to `destination`.
pub open spec fn link_id_of(origin: Seq<char>, destination: Seq<char>) -> Seq<char> {
    origin + seq!['-'] + destination
}

/// `link_id` is `start` and `end` joined by a dash, and neither of the two
/// holds a dash itself.
pub open spec fn splits_at_dash(link_id: Seq<char>, start: Seq<char>, end: Seq<char>) -> bool {
    &&& link_id == link_id_of(start, end)
    &&& !start.contains('-')
    &&& !end.contains('-')
}

/// The identifier of the link from `origin` to `destination`.
pub fn geoid_string_to_link_id(origin: &GeoidString, destination: &GeoidString) -> (r: LinkId)
    ensures
        r@ == link_id_of(origin@, destination@),
{
    proof {
        reveal_strlit("-");
    }
    let mut link_id = origin.clone();
    link_id.append("-");
    link_id.append(destination.as_str());
    link_id
}

/// The two geoids that `link_id` joins. Fails unless `link_id` holds exactly
/// one dash.
pub fn link_id_to_geoids(link_id: &LinkId) -> (r: Result<(GeoidString, GeoidString), HiveError>)
    ensures
        match r {
            Ok((start, end)) => splits_at_dash(link_id@, start@, end@),
            Err(e) => e == HiveError::InvalidLinkId && forall|start: Seq<char>, end: Seq<char>|
                !splits_at_dash(link_id@, start, end),
        },
{
    let text = link_id.as_str();
    let n = text.unicode_len();
    let mut i: usize = 0;
    let mut dash: Option<usize> = None;
    for c in it: text.chars()
        invariant
            n == text@.len(),
            text@ == link_id@,
            it.seq() == text@,
            i == it.index(),
            match dash {
                Some(at) => at < i && text@[at as int] == '-' && forall|k: int|
                    0 <= k < i && k != at ==> text@[k] != '-',
                None => forall|k: int| 0 <= k < i ==> text@[k] != '-',
            },
    {
        if c == '-' {
            match dash {
                Some(at) => {
                    proof {
                        assert forall|start: Seq<char>, end: Seq<char>|
                            !splits_at_dash(text@, start, end) by {
                            if splits_at_dash(text@, start, end) {
                                assert(start.len() == at);
                                assert(end[i - at - 1] == '-');
                            }
                        }
                    }
                    return Err(HiveError::InvalidLinkId);
                },
                None => {
                    dash = Some(i);
                },
            }
        }
        i = i + 1;
    }
    let at = match dash {
        Some(at) => at,
        None => {
            proof {
                assert forall|start: Seq<char>, end: Seq<char>|
                    !splits_at_dash(text@, start, end) by {
                    if splits_at_dash(text@, start, end) {
                        assert(link_id_of(start, end)[start.len() as int] == '-');
                    }
                }
            }
            return Err(HiveError::InvalidLinkId);
        },
    };
    let start = String::from_str(text.substring_char(0, at));
    let end = String::from_str(text.substring_char(at + 1, n));
    proof {
        assert(text@ =~= link_id_of(start@, end@));
    }
    Ok((start, end))
}

/// What the grid makes of the coordinate that a row gives as latitude and
/// longitude.
#[derive(Clone, Copy, Debug, PartialEq, Eq, Structural)]
pub enum CellLookup {
    /// The latitude is not a number.
    LatitudeNotANumber,
    /// The longitude is not a number.
    LongitudeNotANumber,
    /// Both are numbers, but the grid has no cell for them.
    NoCell,
    /// The cell that the coordinate lies in.
    Cell(Geoid),
}

/// A road network in which the way from one cell to another is the straight
/// line between them.
#[derive(Clone, Copy, Debug)]
pub struct HaversineRoadNetwork {
    sim_h3_resolution: usize,
}

impl HaversineRoadNetwork {
    /// A network over the grid of the given resolution, or of the default
    /// resolution where none is given.
    pub fn new(sim_h3_resolution: Option<usize>) -> (r: HaversineRoadNetwork)
        ensures
            r.spec_sim_h3_resolution() == match sim_h3_resolution {
                Some(res) => res,
                None => DEFAULT_H3_RESOLUTION,
            },
    {
        let res = match sim_h3_resolution {
            Some(res) => res,
            None => DEFAULT_H3_RESOLUTION,
        };
        HaversineRoadNetwork { sim_h3_resolution: res }
    }

    /// The resolution of the grid that the network lies on.
    pub closed spec fn spec_sim_h3_resolution(&self) -> usize {
        self.sim_h3_resolution
    }

    /// The resolution of the grid that the network lies on.
    #[verifier::when_used_as_spec(spec_sim_h3_resolution)]
    pub fn sim_h3_resolution(&self) -> (r: usize)
        ensures
            r == self.spec_sim_h3_resolution(),
    {
        self.sim_h3_resolution
    }

    /// The link `link`, given what came of looking up the cells of its two
    /// ends: the link itself where both are cells, and else the failure of
    /// the first end that is none.
    pub fn link_of_cells(
        &self,
        link: LinkTraversal,
        start: Result<Geoid, HiveError>,
        end: Result<Geoid, HiveError>,
    ) -> (r: Result<LinkTraversal, HiveError>)
        ensures
            checked_link_view(r) == link_of_lookups(link@, start, end),
    {
        match start {
            Ok(_) => match end {
                Ok(_) => Ok(link),
                Err(e) => Err(e),
            },
            Err(e) => Err(e),
        }
    }

    /// The way from `origin` to `destination`: no link where the two are the
    /// same position, and else the one link that joins their cells. Fails
    /// where a link is due and the geoid of `origin` is not the name of a
    /// cell.
    pub fn route(&self, origin: EntityPosition, destination: EntityPosition) -> (r: Result<
        Vec<LinkTraversal>,
        HiveError,
    >)
        ensures
            checked_route_view(r) == checked_route(
                origin@,
                destination@,
                h3_cell_index(origin@.geoid),
            ),
    {
        if origin == destination {
            let route: Vec<LinkTraversal> = Vec::new();
            assert(link_views(route@) =~= route_of(origin@, destination@));
            return Ok(route);
        }
        let origin_cell = Geoid::from_string(origin.geoid.clone());
        let link_id = geoid_string_to_link_id(&origin.geoid, &destination.geoid);
        let link = LinkTraversal { link_id, start: origin.geoid, end: destination.geoid };
        let link = match self.link_of_cells(link, origin_cell, origin_cell) {
            Ok(link) => link,
            Err(e) => {
                return Err(e);
            },
        };
        let mut route: Vec<LinkTraversal> = Vec::new();
        route.push(link);
        assert(link_views(route@) =~= route_of(origin@, destination@));
        Ok(route)
    }

    /// The link that `link_id` names, with the two geoids that it joins as
    /// its ends. Fails with `InvalidLinkId` unless `link_id` holds exactly
    /// one dash, and with `InvalidGeoid` where one of the two ends is not the
    /// name of a cell.
    pub fn link_from_link_id(&self, link_id: LinkId) -> (r: Result<LinkTraversal, HiveError>)
        ensures
            match r {
                Ok(link) => {
                    &&& link@.link_id == link_id@
                    &&& splits_at_dash(link_id@, link@.start, link@.end)
                    &&& h3_cell_index(link@.start) is Some
                    &&& h3_cell_index(link@.end) is Some
                },
                Err(e) => {
                    ||| e == HiveError::InvalidLinkId && forall|start: Seq<char>, end: Seq<char>|
                        !splits_at_dash(link_id@, start, end)
                    ||| e == HiveError::InvalidGeoid && exists|start: Seq<char>, end: Seq<char>|
                        splits_at_dash(link_id@, start, end) && (h3_cell_index(start) is None
                            || h3_cell_index(end) is None)
                },
            },
    {
        let (source, dest) = match link_id_to_geoids(&link_id) {
            Ok(ends) => ends,
            Err(e) => {
                return Err(e);
            },
        };
        let source_cell = Geoid::from_string(source.clone());
        let dest_cell = Geoid::from_string(dest.clone());
        let link = LinkTraversal { link_id, start: source, end: dest };
        proof {
            if source_cell is Err || dest_cell is Err {
                assert(splits_at_dash(link_id@, source@, dest@) && (h3_cell_index(source@) is None
                    || h3_cell_index(dest@) is None));
            }
        }
        self.link_of_cells(link, source_cell, dest_cell)
    }

    /// The link that leads from the cell `geoid` to itself.
    pub fn link_from_geoid(&self, geoid: GeoidString) -> (r: LinkTraversal)
        ensures
            r@ == link_between(geoid@, geoid@),
    {
        let link_id = geoid_string_to_link_id(&geoid, &geoid);
        LinkTraversal { link_id, start: geoid.clone(), end: geoid }
    }

    /// The position of an entity that stands in the cell `geoid`: on the link
    /// that leads from that cell to itself.
    pub fn position_from_geoid(&self, geoid: GeoidString) -> (r: EntityPosition)
        ensures
            r@ == position_of(geoid@),
    {
        let link = self.link_from_geoid(geoid.clone());
        EntityPosition { link_id: link.link_id, geoid }
    }

    /// Whether the cell `geoid` lies inside the area that the network covers.
    /// This network covers every cell.
    pub fn geoid_within_geofence(&self, _geoid: GeoidString) -> (r: bool)
        ensures
            r,
    {
        true
    }
}

/// The position of an entity that stands in the cell `geoid`.
pub open spec fn position_of(geoid: Seq<char>) -> EntityPositionView {
    EntityPositionView { link_id: link_id_of(geoid, geoid), geoid }
}

/// The link that leads from the cell `start` to the cell `end`.
pub open spec fn link_between(start: Seq<char>, end: Seq<char>) -> LinkTraversalView {
    LinkTraversalView { link_id: link_id_of(start, end), start, end }
}

/// A link or an error, the link as plain character sequences.
pub open spec fn checked_link_view(r: Result<LinkTraversal, HiveError>) -> Result<
    LinkTraversalView,
    HiveError,
> {
    match r {
        Ok(link) => Ok(link@),
        Err(e) => Err(e),
    }
}

/// The link `link`, given what came of looking up the cells of its two ends:
/// the link itself where both are cells, and else the failure of the first
/// end that is none.
pub open spec fn link_of_lookups(
    link: LinkTraversalView,
    start: Result<Geoid, HiveError>,
    end: Result<Geoid, HiveError>,
) -> Result<LinkTraversalView, HiveError> {
    match start {
        Ok(_) => match end {
            Ok(_) => Ok(link),
            Err(e) => Err(e),
        },
        Err(e) => Err(e),
    }
}

/// A route or an error, the links of the route as plain character sequences.
pub open spec fn checked_route_view(r: Result<Vec<LinkTraversal>, HiveError>) -> Result<
    Seq<LinkTraversalView>,
    HiveError,
> {
    match r {
        Ok(links) => Ok(link_views(links@)),
        Err(e) => Err(e),
    }
}

/// The way from `origin` to `destination`, where `origin_cell` is the cell
/// that the geoid of `origin` names, if it names one: `InvalidGeoid` where
/// the two positions differ and the origin names no cell.
pub open spec fn checked_route(
    origin: EntityPositionView,
    destination: EntityPositionView,
    origin_cell: Option<u64>,
) -> Result<Seq<LinkTraversalView>, HiveError> {
    if origin != destination && origin_cell is None {
        Err(HiveError::InvalidGeoid)
    } else {
        Ok(route_of(origin, destination))
    }
}

/// The way from `origin` to `destination`.
pub open spec fn route_of(
    origin: EntityPositionView,
    destination: EntityPositionView,
) -> Seq<LinkTraversalView> {
    if origin == destination {
        Seq::empty()
    } else {
        seq![link_between(origin.geoid, destination.geoid)]
    }
}

/// A link identifier made of two geoids without a dash is taken apart into
/// those two again, and in no other way.
pub proof fn lemma_link_id_round_trip(
    origin: Seq<char>,
    destination: Seq<char>,
    start: Seq<char>,
    end: Seq<char>,
)
    requires
        !origin.contains('-'),
        !destination.contains('-'),
        splits_at_dash(link_id_of(origin, destination), start, end),
    ensures
        start == origin,
        end == destination,
{
    let joined = link_id_of(origin, destination);
    assert(start.len() == origin.len()) by {
        if start.len() < origin.len() {
            assert(origin[start.len() as int] == joined[start.len() as int]);
        }
        if origin.len() < start.len() {
            assert(start[origin.len() as int] == joined[origin.len() as int]);
        }
    }
    assert(start =~= joined.subrange(0, origin.len() as int));
    assert(origin =~= joined.subrange(0, origin.len() as int));
    assert(end =~= joined.subrange(origin.len() as int + 1, joined.len() as int));
    assert(destination =~= joined.subrange(origin.len() as int + 1, joined.len() as int));
}

} // verus!
