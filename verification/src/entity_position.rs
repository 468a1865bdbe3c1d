//! Where an entity stands in the road network.

use crate::row::Row;
use crate::type_aliases::{GeoidString, LinkId};
use vstd::prelude::*;

verus! {

/// A position: the link an entity is on, and the cell it is in.
pub struct EntityPosition {
    pub link_id: LinkId,
    pub geoid: GeoidString,
}

/// A position as plain character sequences.
pub struct EntityPositionView {
    pub link_id: Seq<char>,
    pub geoid: Seq<char>,
}

impl View for EntityPosition {
    type V = EntityPositionView;

    open spec fn view(&self) -> EntityPositionView {
        EntityPositionView { link_id: self.link_id@, geoid: self.geoid@ }
    }
}

impl EntityPosition {
    /// The position on `link_id` in the cell `geoid`.
    pub fn new(link_id: LinkId, geoid: GeoidString) -> (r: EntityPosition)
        ensures
            r@ == (EntityPositionView { link_id: link_id@, geoid: geoid@ }),
    {
        EntityPosition { link_id, geoid }
    }

    /// The position as a row with the fields `link_id` and `geoid`, for
    /// reports.
    pub fn _asdict(&self) -> (r: Row)
        ensures
            r@ == Map::<Seq<char>, Seq<char>>::empty().insert("link_id"@, self@.link_id).insert(
                "geoid"@,
                self@.geoid,
            ),
    {
        let mut dict = Row::new();
        dict.insert(String::from_str("link_id"), self.link_id.clone());
        dict.insert(String::from_str("geoid"), self.geoid.clone());
        dict
    }

    /// A copy of this position.
    pub fn copy(&self) -> (r: EntityPosition)
        ensures
            r@ == self@,
    {
        self.clone()
    }
}

impl Clone for EntityPosition {
    fn clone(&self) -> (r: EntityPosition)
        ensures
            r@ == self@,
    {
        EntityPosition { link_id: self.link_id.clone(), geoid: self.geoid.clone() }
    }
}

impl PartialEq for EntityPosition {
    /// Two positions are equal when they name the same link and the same cell.
    fn eq(&self, other: &EntityPosition) -> (r: bool) {
        self.link_id == other.link_id && self.geoid == other.geoid
    }
}

impl vstd::std_specs::cmp::PartialEqSpecImpl for EntityPosition {
    open spec fn obeys_eq_spec() -> bool {
        true
    }

    open spec fn eq_spec(&self, other: &EntityPosition) -> bool {
        self@ == other@
    }
}

impl Eq for EntityPosition {

}

} // verus!
