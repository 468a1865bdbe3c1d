//! Group membership: who may use what.
//!
//! A [`Membership`] is a set of group identifiers. The empty set is the
//! *public* membership, which admits everyone; any other membership admits
//! exactly those who share a group with it. The name `public` itself can never
//! be a group.

use crate::error::HiveError;
use crate::type_aliases::MembershipId;
use vstd::prelude::*;

verus! {

/// The name that stands for "everyone". It is reserved: no group may carry it.
pub const PUBLIC_MEMBERSHIP_ID: &'static str = "public";

/// The reserved name as a sequence of characters.
pub open spec fn public_id() -> Seq<char> {
    PUBLIC_MEMBERSHIP_ID@
}

/// The identifiers of `ids` as character sequences, in the same order.
pub open spec fn group_views(ids: Seq<MembershipId>) -> Seq<Seq<char>> {
    ids.map_values(|id: MembershipId| id@)
}

/// The set of groups that `ids` names.
pub open spec fn group_set(ids: Seq<MembershipId>) -> Set<Seq<char>> {
    group_views(ids).to_set()
}

/// No group is named twice in `ids`.
pub open spec fn distinct_groups(ids: Seq<MembershipId>) -> bool {
    group_views(ids).no_duplicates()
}

/// The two sets of groups have a group in common.
pub open spec fn groups_overlap(a: Set<Seq<char>>, b: Set<Seq<char>>) -> bool {
    !a.intersect(b).is_empty()
}

/// A holder with the groups `holder` admits a requester with the groups
/// `requester`: the holder is public, or the two share a group.
pub open spec fn groups_grant_access(holder: Set<Seq<char>>, requester: Set<Seq<char>>) -> bool {
    holder.is_empty() || groups_overlap(holder, requester)
}

/// A holder with the groups `holder` admits the single group `group`.
pub open spec fn groups_grant_access_to_id(holder: Set<Seq<char>>, group: Seq<char>) -> bool {
    holder.is_empty() || holder.contains(group)
}

/// What building a membership from `groups` gives: the groups themselves, or
/// `ReservedIdentifier` where the reserved name is among them.
pub open spec fn checked_groups(groups: Set<Seq<char>>) -> Result<Set<Seq<char>>, HiveError> {
    if groups.contains(public_id()) {
        Err(HiveError::ReservedIdentifier)
    } else {
        Ok(groups)
    }
}

/// The groups of a membership that was built, or the error that came instead.
pub open spec fn built_groups(r: Result<Membership, HiveError>) -> Result<
    Set<Seq<char>>,
    HiveError,
> {
    match r {
        Ok(m) => Ok(m@),
        Err(e) => Err(e),
    }
}

/// Whether `id` is the reserved name.
pub fn is_public_id(id: &MembershipId) -> (r: bool)
    ensures
        r == (id@ == public_id()),
{
    let public = String::from_str(PUBLIC_MEMBERSHIP_ID);
    *id == public
}

/// Whether `id` is named in `ids`.
fn names_group(ids: &Vec<MembershipId>, id: &MembershipId) -> (found: bool)
    ensures
        found == group_set(ids@).contains(id@),
{
    let mut i: usize = 0;
    while i < ids.len()
        invariant
            i <= ids.len(),
            forall|j: int| 0 <= j < i ==> group_views(ids@)[j] != id@,
        decreases ids.len() - i,
    {
        if ids[i] == *id {
            assert(group_views(ids@)[i as int] == id@);
            return true;
        }
        i += 1;
    }
    false
}

/// A set of group identifiers that never holds the reserved name.
pub struct Membership {
    memberships: Vec<MembershipId>,
}

impl View for Membership {
    type V = Set<Seq<char>>;

    closed spec fn view(&self) -> Set<Seq<char>> {
        group_set(self.memberships@)
    }
}

impl Membership {
    /// What holds of every membership: no group is stored twice, and the
    /// reserved name is not stored at all.
    #[verifier::type_invariant]
    pub closed spec fn well_formed(&self) -> bool {
        &&& distinct_groups(self.memberships@)
        &&& !group_set(self.memberships@).contains(public_id())
    }

    /// This membership is the public one.
    pub open spec fn spec_public(&self) -> bool {
        self@.is_empty()
    }

    /// This membership shares a group with `other`.
    pub open spec fn spec_has_memberships_in_common(&self, other: &Membership) -> bool {
        groups_overlap(self@, other@)
    }

    /// This membership admits `other`.
    pub open spec fn spec_grant_access_to_membership(&self, other: &Membership) -> bool {
        groups_grant_access(self@, other@)
    }

    /// Builds a membership from a collection of group identifiers, or the
    /// public membership from `None`. Identifiers that occur more than once
    /// count once. Fails if the reserved name is among them.
    pub fn _new(memberships: Option<Vec<MembershipId>>) -> (r: Result<Membership, HiveError>)
        ensures
            built_groups(r) == match memberships {
                Some(ids) => checked_groups(group_set(ids@)),
                None => Ok(Set::<Seq<char>>::empty()),
            },
            r matches Ok(m) ==> m.well_formed(),
    {
        match memberships {
            Some(ids) => Membership::_from_tuple(ids),
            None => Ok(Membership::default()),
        }
    }

    /// Builds a membership from a list of group identifiers. Identifiers that
    /// occur more than once count once. Fails if the reserved name is among
    /// them.
    pub fn _from_tuple(member_ids: Vec<MembershipId>) -> (r: Result<Membership, HiveError>)
        ensures
            built_groups(r) == checked_groups(group_set(member_ids@)),
            r matches Ok(m) ==> m.well_formed(),
    {
        let mut kept: Vec<MembershipId> = Vec::new();
        let mut i: usize = 0;
        while i < member_ids.len()
            invariant
                i <= member_ids.len(),
                distinct_groups(kept@),
                group_set(kept@) == group_set(member_ids@.take(i as int)),
                !group_set(kept@).contains(public_id()),
            decreases member_ids.len() - i,
        {
            let id = &member_ids[i];
            proof {
                lemma_group_set_take_next(member_ids@, i as int);
            }
            if is_public_id(id) {
                proof {
                    lemma_group_set_names(member_ids@, i as int);
                }
                return Err(HiveError::ReservedIdentifier);
            }
            if !names_group(&kept, id) {
                proof {
                    lemma_group_set_push(kept@, *id);
                }
                kept.push(id.clone());
            }
            i += 1;
        }
        assert(member_ids@.take(i as int) == member_ids@);
        Ok(Membership { memberships: kept })
    }

    /// Builds a membership from a list of group identifiers.
    pub fn from_tuple(member_ids: Vec<MembershipId>) -> (r: Result<Membership, HiveError>)
        ensures
            built_groups(r) == checked_groups(group_set(member_ids@)),
            r matches Ok(m) ==> m.well_formed(),
    {
        Membership::_from_tuple(member_ids)
    }

    /// Builds the membership of exactly one group.
    pub fn single_membership(membership_id: MembershipId) -> (r: Result<Membership, HiveError>)
        ensures
            built_groups(r) == checked_groups(set![membership_id@]),
            membership_id@ == public_id() ==> r matches Err(HiveError::ReservedIdentifier),
            r matches Ok(m) ==> m.well_formed(),
    {
        let mut ids: Vec<MembershipId> = Vec::new();
        ids.push(membership_id);
        proof {
            assert(group_views(ids@)[0] == membership_id@);
            assert(group_set(ids@) =~= set![membership_id@]);
        }
        Membership::_from_tuple(ids)
    }

    /// A copy of this membership.
    pub fn copy(&self) -> (r: Membership)
        ensures
            r@ == self@,
            r.well_formed(),
    {
        self.clone()
    }

    /// Whether this is the public membership, which holds no group.
    #[verifier::when_used_as_spec(spec_public)]
    pub fn public(&self) -> (r: bool)
        ensures
            r == self.spec_public(),
    {
        let r = self.memberships.len() == 0;
        proof {
            if !r {
                assert(group_views(self.memberships@)[0] == self.memberships@[0]@);
                assert(self@.contains(self.memberships@[0]@));
            }
        }
        r
    }

    /// This membership with `member_id` added to its groups. Fails if
    /// `member_id` is the reserved name.
    pub fn add_membership(&self, member_id: MembershipId) -> (r: Result<Membership, HiveError>)
        ensures
            built_groups(r) == checked_groups(self@.insert(member_id@)),
            member_id@ == public_id() <==> r matches Err(HiveError::ReservedIdentifier),
            member_id@ != public_id() <==> r is Ok,
            r matches Ok(m) ==> m.well_formed(),
    {
        proof {
            use_type_invariant(self);
        }
        if is_public_id(&member_id) {
            return Err(HiveError::ReservedIdentifier);
        }
        let mut new_memberships = self.memberships.clone();
        if !names_group(&new_memberships, &member_id) {
            proof {
                lemma_group_set_push(new_memberships@, member_id);
            }
            new_memberships.push(member_id);
        } else {
            assert(self@.insert(member_id@) =~= self@);
        }
        Ok(Membership { memberships: new_memberships })
    }

    /// The groups that this membership and `other_membership` both hold, each
    /// listed once.
    pub fn memberships_in_common(&self, other_membership: &Membership) -> (r: Vec<MembershipId>)
        ensures
            group_set(r@) == self@.intersect(other_membership@),
            distinct_groups(r@),
    {
        proof {
            use_type_invariant(self);
        }
        let mut common: Vec<MembershipId> = Vec::new();
        let mut i: usize = 0;
        while i < self.memberships.len()
            invariant
                i <= self.memberships.len(),
                distinct_groups(self.memberships@),
                distinct_groups(common@),
                group_set(common@) == group_set(self.memberships@.take(i as int)).intersect(
                    other_membership@,
                ),
            decreases self.memberships.len() - i,
        {
            let id = &self.memberships[i];
            proof {
                lemma_group_set_take_next(self.memberships@, i as int);
                lemma_distinct_take_next(self.memberships@, i as int);
            }
            if names_group(&other_membership.memberships, id) {
                proof {
                    lemma_group_set_push(common@, *id);
                }
                common.push(id.clone());
            }
            assert(group_set(common@) =~= group_set(
                self.memberships@.take(i as int + 1),
            ).intersect(other_membership@));
            i += 1;
        }
        assert(self.memberships@.take(i as int) == self.memberships@);
        common
    }

    /// Whether this membership and `other_membership` hold a group in common.
    #[verifier::when_used_as_spec(spec_has_memberships_in_common)]
    pub fn has_memberships_in_common(&self, other_membership: &Membership) -> (r: bool)
        ensures
            r == self.spec_has_memberships_in_common(other_membership),
    {
        let mut i: usize = 0;
        while i < self.memberships.len()
            invariant
                i <= self.memberships.len(),
                group_set(self.memberships@.take(i as int)).intersect(
                    other_membership@,
                ).is_empty(),
            decreases self.memberships.len() - i,
        {
            let id = &self.memberships[i];
            if names_group(&other_membership.memberships, id) {
                proof {
                    lemma_group_set_names(self.memberships@, i as int);
                    assert(self@.intersect(other_membership@).contains(id@));
                }
                return true;
            }
            proof {
                lemma_group_set_take_next(self.memberships@, i as int);
            }
            i += 1;
        }
        assert(self.memberships@.take(i as int) == self.memberships@);
        false
    }

    /// Whether the holder of this membership admits the holder of
    /// `other_membership`: this membership is public, or the two hold a group
    /// in common. A public `other_membership` is admitted only by a public one.
    #[verifier::when_used_as_spec(spec_grant_access_to_membership)]
    pub fn grant_access_to_membership(&self, other_membership: &Membership) -> (r: bool)
        ensures
            r == self.spec_grant_access_to_membership(other_membership),
    {
        self.public() || self.has_memberships_in_common(other_membership)
    }

    /// Whether the holder of this membership admits the group `member_id`:
    /// this membership is public, or holds that group.
    pub fn grant_access_to_membership_id(&self, member_id: MembershipId) -> (r: bool)
        ensures
            r == groups_grant_access_to_id(self@, member_id@),
    {
        self.public() || names_group(&self.memberships, &member_id)
    }

    /// Whether every group of `other` is a group of this membership too.
    fn holds_all_of(&self, other: &Membership) -> (r: bool)
        ensures
            r == other@.subset_of(self@),
    {
        let mut i: usize = 0;
        while i < other.memberships.len()
            invariant
                i <= other.memberships.len(),
                group_set(other.memberships@.take(i as int)).subset_of(self@),
            decreases other.memberships.len() - i,
        {
            if !names_group(&self.memberships, &other.memberships[i]) {
                proof {
                    lemma_group_set_names(other.memberships@, i as int);
                }
                return false;
            }
            proof {
                lemma_group_set_take_next(other.memberships@, i as int);
            }
            i += 1;
        }
        assert(other.memberships@.take(i as int) == other.memberships@);
        true
    }

    /// The groups of this membership as a list, each once.
    pub fn to_json(&self) -> (r: Vec<MembershipId>)
        ensures
            group_set(r@) == self@,
            distinct_groups(r@),
            r@.len() == self@.len(),
    {
        proof {
            use_type_invariant(self);
            group_views(self.memberships@).unique_seq_to_set();
        }
        self.memberships.clone()
    }
}

impl PartialEq for Membership {
    /// Two memberships are equal when they hold the same groups.
    fn eq(&self, other: &Membership) -> (r: bool) {
        let r = self.holds_all_of(other) && other.holds_all_of(self);
        proof {
            if r {
                assert(self@ =~= other@);
            }
        }
        r
    }
}

impl vstd::std_specs::cmp::PartialEqSpecImpl for Membership {
    open spec fn obeys_eq_spec() -> bool {
        true
    }

    open spec fn eq_spec(&self, other: &Membership) -> bool {
        self@ == other@
    }
}

impl Eq for Membership {

}

impl Default for Membership {
    /// The public membership.
    fn default() -> (r: Membership)
        ensures
            r@ == Set::<Seq<char>>::empty(),
            r.spec_public(),
            r.well_formed(),
    {
        let r = Membership { memberships: Vec::new() };
        r
    }
}

impl Clone for Membership {
    fn clone(&self) -> (r: Membership)
        ensures
            r@ == self@,
            r.well_formed(),
    {
        proof {
            use_type_invariant(self);
        }
        let memberships = self.memberships.clone();
        Membership { memberships }
    }
}

/// A membership that is not public admits exactly those with whom it shares a
/// group.
pub proof fn lemma_private_access_is_overlap(a: Membership, b: Membership)
    requires
        !a.spec_public(),
    ensures
        a.spec_grant_access_to_membership(&b) == a.spec_has_memberships_in_common(&b),
{
}

/// The public membership admits every membership.
pub proof fn lemma_public_admits_all(a: Membership, b: Membership)
    requires
        a.spec_public(),
    ensures
        a.spec_grant_access_to_membership(&b),
{
}

/// A public requester is admitted by a public holder and by no other.
pub proof fn lemma_public_requester(a: Membership, b: Membership)
    requires
        b.spec_public(),
    ensures
        a.spec_grant_access_to_membership(&b) == a.spec_public(),
{
}

/// Sharing a group is mutual.
pub proof fn lemma_overlap_is_mutual(a: Membership, b: Membership)
    ensures
        a.spec_has_memberships_in_common(&b) == b.spec_has_memberships_in_common(&a),
{
}

/// No membership can be built from groups that include the reserved name, and
/// adding the reserved name to any groups is refused.
pub proof fn lemma_public_id_is_reserved(groups: Set<Seq<char>>)
    ensures
        groups.contains(public_id()) ==> checked_groups(groups) == Err::<Set<Seq<char>>, HiveError>(
            HiveError::ReservedIdentifier,
        ),
        checked_groups(groups.insert(public_id())) == Err::<Set<Seq<char>>, HiveError>(
            HiveError::ReservedIdentifier,
        ),
{
}

/// The groups of a membership are finitely many, and the reserved name is not
/// one of them.
pub proof fn lemma_groups_of_membership(m: Membership)
    requires
        m.well_formed(),
    ensures
        m@.finite(),
        !m@.contains(public_id()),
{
}

/// The element at `i` is among the groups named by `ids`.
proof fn lemma_group_set_names(ids: Seq<MembershipId>, i: int)
    requires
        0 <= i < ids.len(),
    ensures
        group_set(ids).contains(ids[i]@),
{
    assert(group_views(ids)[i] == ids[i]@);
}

/// Taking one more element of `ids` adds that element's group.
proof fn lemma_group_set_take_next(ids: Seq<MembershipId>, i: int)
    requires
        0 <= i < ids.len(),
    ensures
        group_set(ids.take(i + 1)) == group_set(ids.take(i)).insert(ids[i]@),
{
    assert(ids.take(i + 1) =~= ids.take(i).push(ids[i]));
    lemma_group_set_push(ids.take(i), ids[i]);
}

/// In a list without repetition, an element is not among those before it.
proof fn lemma_distinct_take_next(ids: Seq<MembershipId>, i: int)
    requires
        0 <= i < ids.len(),
        distinct_groups(ids),
    ensures
        !group_set(ids.take(i)).contains(ids[i]@),
{
    let before = group_views(ids.take(i));
    if before.contains(ids[i]@) {
        let k = choose|k: int| 0 <= k < before.len() && before[k] == ids[i]@;
        assert(group_views(ids)[k] == before[k]);
        assert(group_views(ids)[i] == ids[i]@);
    }
}

/// Appending a group that is not yet named keeps the list free of repetition
/// and adds the group to the set.
proof fn lemma_group_set_push(ids: Seq<MembershipId>, id: MembershipId)
    ensures
        group_set(ids.push(id)) == group_set(ids).insert(id@),
        distinct_groups(ids) && !group_set(ids).contains(id@) ==> distinct_groups(ids.push(id)),
{
    let shorter = group_views(ids);
    let longer = group_views(ids.push(id));
    assert(longer =~= shorter.push(id@));
    assert forall|g: Seq<char>| longer.to_set().contains(g) <==> shorter.to_set().insert(
        id@,
    ).contains(g) by {
        if shorter.contains(g) {
            let k = choose|k: int| 0 <= k < shorter.len() && shorter[k] == g;
            assert(longer[k] == g);
        }
        if g == id@ {
            assert(longer[ids.len() as int] == g);
        }
    }
    if distinct_groups(ids) && !group_set(ids).contains(id@) {
        assert forall|a: int, b: int|
            0 <= a < longer.len() && 0 <= b < longer.len() && a != b implies longer[a]
            != longer[b] by {
            if a < shorter.len() {
                assert(shorter.contains(shorter[a]));
            }
            if b < shorter.len() {
                assert(shorter.contains(shorter[b]));
            }
        }
    }
}

} // verus!
