//! Links of the road network, as an entity passes over them.
//!
//! A link is known here by its identifier and its two ends. How long it is
//! and how fast it is driven are floating-point measures, which are attached
//! to a link where it is used.

use crate::type_aliases::{GeoidString, LinkId};
use vstd::prelude::*;

verus! {

/// The passage over one link, from its start to its end.
pub struct LinkTraversal {
    pub link_id: LinkId,
    pub start: GeoidString,
    pub end: GeoidString,
}

/// The passage over a link, as plain character sequences.
pub struct LinkTraversalView {
    pub link_id: Seq<char>,
    pub start: Seq<char>,
    pub end: Seq<char>,
}

impl View for LinkTraversal {
    type V = LinkTraversalView;

    open spec fn view(&self) -> LinkTraversalView {
        LinkTraversalView { link_id: self.link_id@, start: self.start@, end: self.end@ }
    }
}

/// The passages of `links`, in the same order, as plain character sequences.
pub open spec fn link_views(links: Seq<LinkTraversal>) -> Seq<LinkTraversalView> {
    links.map_values(|link: LinkTraversal| link@)
}

impl LinkTraversal {
    /// The passage over the link `link_id` from `start` to `end`.
    pub fn new(link_id: LinkId, start: GeoidString, end: GeoidString) -> (r: LinkTraversal)
        ensures
            r@ == (LinkTraversalView { link_id: link_id@, start: start@, end: end@ }),
    {
        LinkTraversal { link_id, start, end }
    }

    /// The cell in which the passage begins.
    pub fn start(&self) -> (r: GeoidString)
        ensures
            r@ == self@.start,
    {
        self.start.clone()
    }

    /// The cell in which the passage ends.
    pub fn end(&self) -> (r: GeoidString)
        ensures
            r@ == self@.end,
    {
        self.end.clone()
    }

    /// This passage, but beginning in `start`.
    pub fn update_start(&self, start: GeoidString) -> (r: LinkTraversal)
        ensures
            r@ == (LinkTraversalView { start: start@, ..self@ }),
    {
        let mut new_self = self.clone();
        new_self.start = start;
        new_self
    }

    /// This passage, but ending in `end`.
    pub fn update_end(&self, end: GeoidString) -> (r: LinkTraversal)
        ensures
            r@ == (LinkTraversalView { end: end@, ..self@ }),
    {
        let mut new_self = self.clone();
        new_self.end = end;
        new_self
    }
}

impl Clone for LinkTraversal {
    fn clone(&self) -> (r: LinkTraversal)
        ensures
            r@ == self@,
    {
        LinkTraversal {
            link_id: self.link_id.clone(),
            start: self.start.clone(),
            end: self.end.clone(),
        }
    }
}

} // verus!
