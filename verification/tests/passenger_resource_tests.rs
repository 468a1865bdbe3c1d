use hive_core::membership::Membership;
use hive_core::passenger::Passenger;
use hive_core::resource::Resource;

fn fleet() -> Membership {
    Membership::single_membership("fleet1".to_string()).unwrap()
}

#[test]
fn passenger_holds_what_it_was_built_with() {
    let p = Passenger::new(
        "rider".to_string(),
        "8f26dc934cccc69".to_string(),
        "8f26dc934cc4cdb".to_string(),
        3600,
        Some(fleet()),
        Some("v1".to_string()),
    );
    assert_eq!(p.id(), "rider");
    assert_eq!(p.origin(), "8f26dc934cccc69");
    assert_eq!(p.destination(), "8f26dc934cc4cdb");
    assert_eq!(p.departure_time(), 3600);
    assert_eq!(p.membership().to_json(), vec!["fleet1".to_string()]);
    assert_eq!(p.vehicle_id(), Some("v1".to_string()));
}

#[test]
fn passenger_without_membership_is_public() {
    let p = Passenger::build("rider".to_string(), "a".to_string(), "b".to_string(), 0, None, None);
    assert!(p.membership().public());
    assert_eq!(p.vehicle_id(), None);
    assert_eq!(p.departure_time(), 0);
}

#[test]
fn passenger_copy_keeps_everything() {
    let p = Passenger::new(
        "rider".to_string(),
        "a".to_string(),
        "b".to_string(),
        7,
        Some(fleet()),
        Some("v1".to_string()),
    );
    for copy in [p.copy(), p.clone()].iter() {
        assert_eq!(copy.id(), p.id());
        assert_eq!(copy.origin(), p.origin());
        assert_eq!(copy.destination(), p.destination());
        assert_eq!(copy.departure_time(), p.departure_time());
        assert_eq!(copy.membership().to_json(), p.membership().to_json());
        assert_eq!(copy.vehicle_id(), p.vehicle_id());
    }
}

#[test]
fn resource_holds_what_it_was_built_with() {
    let r = Resource::new(
        "parcel".to_string(),
        "8f26dc934cccc69".to_string(),
        "8f26dc934cc4cdb".to_string(),
        60,
        None,
        None,
    );
    assert_eq!(r.id(), "parcel");
    assert_eq!(r.origin(), "8f26dc934cccc69");
    assert_eq!(r.destination(), "8f26dc934cc4cdb");
    assert_eq!(r.departure_time(), 60);
    assert!(r.membership().public());
    assert_eq!(r.vehicle_id(), None);
}

#[test]
fn resource_add_vehicle_id_changes_the_vehicle_only() {
    let r = Resource::new(
        "parcel".to_string(),
        "a".to_string(),
        "b".to_string(),
        60,
        Some(fleet()),
        None,
    );
    let placed = r.add_vehicle_id("v9".to_string());
    assert_eq!(r.vehicle_id(), None);
    assert_eq!(placed.vehicle_id(), Some("v9".to_string()));
    assert_eq!(placed.id(), "parcel");
    assert_eq!(placed.origin(), "a");
    assert_eq!(placed.destination(), "b");
    assert_eq!(placed.departure_time(), 60);
    assert_eq!(placed.membership().to_json(), vec!["fleet1".to_string()]);
    let moved = placed.add_vehicle_id("v10".to_string());
    assert_eq!(moved.vehicle_id(), Some("v10".to_string()));
    assert_eq!(moved.copy().vehicle_id(), Some("v10".to_string()));
}
