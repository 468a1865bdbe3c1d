use hive_core::error::HiveError;
use hive_core::membership::{is_public_id, Membership, PUBLIC_MEMBERSHIP_ID};

fn public_membership() -> Membership {
    Membership::default()
}

fn membership_of(groups: &[&str]) -> Membership {
    Membership::from_tuple(groups.iter().map(|g| g.to_string()).collect()).unwrap()
}

fn membership_a() -> Membership {
    membership_of(&["a", "b"])
}

fn membership_b() -> Membership {
    membership_of(&["b", "c"])
}

fn membership_c() -> Membership {
    membership_of(&["x", "y"])
}

fn sorted(mut ids: Vec<String>) -> Vec<String> {
    ids.sort();
    ids
}

#[test]
fn test_membership() {
    let public = public_membership();
    let ma = membership_a();
    let mb = membership_b();
    let mc = membership_c();

    assert!(public.grant_access_to_membership(&ma));
    assert!(public.grant_access_to_membership(&public));
    assert!(public.grant_access_to_membership(&mb));
    assert!(public.grant_access_to_membership(&mc));

    assert!(ma.grant_access_to_membership(&mb));
    assert!(mb.grant_access_to_membership(&ma));

    assert!(!ma.grant_access_to_membership(&public));
    assert!(!ma.grant_access_to_membership(&mc));
    assert!(!mc.grant_access_to_membership(&ma));
}

#[test]
fn fleet_scenario_grants_and_refuses() {
    let a = membership_of(&["fleet1"]);
    let b = membership_of(&["fleet1", "fleet2"]);
    let c = membership_of(&["fleet3"]);
    assert!(a.grant_access_to_membership(&b));
    assert!(!a.grant_access_to_membership(&c));
}

#[test]
fn private_access_equals_overlap() {
    let fixtures = [membership_a(), membership_b(), membership_c(), public_membership()];
    for a in fixtures.iter() {
        if a.public() {
            continue;
        }
        for b in fixtures.iter() {
            assert_eq!(a.grant_access_to_membership(b), a.has_memberships_in_common(b));
        }
    }
}

#[test]
fn public_grants_access_to_everyone() {
    let public = public_membership();
    assert!(public.public());
    for b in [membership_a(), membership_b(), membership_c(), public_membership()].iter() {
        assert!(public.grant_access_to_membership(b));
    }
}

#[test]
fn overlap_is_mutual() {
    let fixtures = [membership_a(), membership_b(), membership_c(), public_membership()];
    for a in fixtures.iter() {
        for b in fixtures.iter() {
            assert_eq!(a.has_memberships_in_common(b), b.has_memberships_in_common(a));
        }
    }
}

#[test]
fn public_is_the_reserved_name() {
    assert_eq!(PUBLIC_MEMBERSHIP_ID, "public");
    assert!(is_public_id(&"public".to_string()));
    assert!(!is_public_id(&"Public".to_string()));
    assert!(!is_public_id(&"publi".to_string()));
    assert!(!is_public_id(&"".to_string()));
}

#[test]
fn adding_public_is_refused() {
    for m in [membership_a(), public_membership()].iter() {
        match m.add_membership("public".to_string()) {
            Err(e) => assert_eq!(e, HiveError::ReservedIdentifier),
            Ok(_) => panic!("the reserved name was accepted"),
        }
    }
}

#[test]
fn building_with_public_is_refused() {
    let with_public = vec!["a".to_string(), "public".to_string(), "b".to_string()];
    assert!(matches!(
        Membership::from_tuple(with_public.clone()),
        Err(HiveError::ReservedIdentifier)
    ));
    assert!(matches!(
        Membership::_from_tuple(with_public.clone()),
        Err(HiveError::ReservedIdentifier)
    ));
    assert!(matches!(
        Membership::_new(Some(with_public)),
        Err(HiveError::ReservedIdentifier)
    ));
    assert!(matches!(
        Membership::single_membership("public".to_string()),
        Err(HiveError::ReservedIdentifier)
    ));
}

#[test]
fn new_without_groups_is_public() {
    let m = Membership::_new(None).unwrap();
    assert!(m.public());
    assert!(m.to_json().is_empty());
    let empty = Membership::_new(Some(Vec::new())).unwrap();
    assert!(empty.public());
}

#[test]
fn repeated_groups_count_once() {
    let m = membership_of(&["a", "b", "a", "a", "b"]);
    assert_eq!(sorted(m.to_json()), vec!["a".to_string(), "b".to_string()]);
}

#[test]
fn single_membership_holds_one_group() {
    let m = Membership::single_membership("fleet1".to_string()).unwrap();
    assert!(!m.public());
    assert_eq!(m.to_json(), vec!["fleet1".to_string()]);
    assert!(m.grant_access_to_membership_id("fleet1".to_string()));
    assert!(!m.grant_access_to_membership_id("fleet2".to_string()));
}

#[test]
fn add_membership_leaves_the_receiver_alone() {
    let m = membership_a();
    let more = m.add_membership("c".to_string()).unwrap();
    assert_eq!(sorted(m.to_json()), vec!["a".to_string(), "b".to_string()]);
    assert_eq!(
        sorted(more.to_json()),
        vec!["a".to_string(), "b".to_string(), "c".to_string()]
    );
    let same = m.add_membership("a".to_string()).unwrap();
    assert_eq!(sorted(same.to_json()), vec!["a".to_string(), "b".to_string()]);
}

#[test]
fn adding_to_public_makes_it_private() {
    let m = public_membership().add_membership("a".to_string()).unwrap();
    assert!(!m.public());
    assert!(!m.grant_access_to_membership(&membership_c()));
    assert!(m.grant_access_to_membership(&membership_a()));
}

#[test]
fn memberships_in_common_is_the_intersection() {
    let ma = membership_a();
    let mb = membership_b();
    let mc = membership_c();
    assert_eq!(ma.memberships_in_common(&mb), vec!["b".to_string()]);
    assert_eq!(mb.memberships_in_common(&ma), vec!["b".to_string()]);
    assert!(ma.memberships_in_common(&mc).is_empty());
    assert!(ma.memberships_in_common(&public_membership()).is_empty());
    assert_eq!(
        sorted(ma.memberships_in_common(&ma)),
        vec!["a".to_string(), "b".to_string()]
    );
}

#[test]
fn has_memberships_in_common_cases() {
    assert!(membership_a().has_memberships_in_common(&membership_b()));
    assert!(!membership_a().has_memberships_in_common(&membership_c()));
    assert!(!membership_a().has_memberships_in_common(&public_membership()));
    assert!(!public_membership().has_memberships_in_common(&public_membership()));
}

#[test]
fn grant_access_to_membership_id_cases() {
    let public = public_membership();
    assert!(public.grant_access_to_membership_id("anything".to_string()));
    let ma = membership_a();
    assert!(ma.grant_access_to_membership_id("a".to_string()));
    assert!(ma.grant_access_to_membership_id("b".to_string()));
    assert!(!ma.grant_access_to_membership_id("c".to_string()));
}

#[test]
fn copy_and_clone_keep_the_groups() {
    let ma = membership_a();
    assert_eq!(sorted(ma.copy().to_json()), sorted(ma.to_json()));
    assert_eq!(sorted(ma.clone().to_json()), sorted(ma.to_json()));
    assert!(public_membership().copy().public());
}

#[test]
fn to_json_lists_each_group_once() {
    let m = membership_of(&["x", "y", "z", "x"]);
    let listed = m.to_json();
    assert_eq!(listed.len(), 3);
    assert_eq!(
        sorted(listed),
        vec!["x".to_string(), "y".to_string(), "z".to_string()]
    );
}

#[test]
fn memberships_compare_by_their_groups() {
    assert!(membership_a() == membership_of(&["b", "a"]));
    assert!(membership_a() == membership_of(&["a", "b", "a"]));
    assert!(membership_a() != membership_b());
    assert!(membership_a() != membership_of(&["a"]));
    assert!(membership_of(&["a"]) != membership_a());
    assert!(membership_a() != public_membership());
    assert!(public_membership() == Membership::_new(None).unwrap());
    assert!(membership_a().copy() == membership_a());
}
