use hive_core::entity_position::EntityPosition;
use hive_core::error::HiveError;
use hive_core::geoid::Geoid;
use hive_core::link::LinkTraversal;
use hive_core::road_network::HaversineRoadNetwork;

fn link_network() -> HaversineRoadNetwork {
    HaversineRoadNetwork::new(None)
}

fn mock_link() -> LinkTraversal {
    LinkTraversal::new(
        "mock_link".to_string(),
        "8f26dc934cccc69".to_string(),
        "8f26dc934cc4cdb".to_string(),
    )
}

#[test]
fn link_holds_what_it_was_built_with() {
    let link = mock_link();
    assert_eq!(link.link_id, "mock_link");
    assert_eq!(link.start(), "8f26dc934cccc69");
    assert_eq!(link.end(), "8f26dc934cc4cdb");
    let copy = link.clone();
    assert_eq!(copy.link_id, "mock_link");
    assert_eq!(copy.start, "8f26dc934cccc69");
    assert_eq!(copy.end, "8f26dc934cc4cdb");
}

#[test]
fn link_update_start_changes_the_start_only() {
    let link = mock_link();
    let moved = link.update_start("8f26dc934cccc6b".to_string());
    assert_eq!(moved.start(), "8f26dc934cccc6b");
    assert_eq!(moved.end(), "8f26dc934cc4cdb");
    assert_eq!(moved.link_id, "mock_link");
    assert_eq!(link.start(), "8f26dc934cccc69");
}

#[test]
fn link_update_end_changes_the_end_only() {
    let link = mock_link();
    let moved = link.update_end("8f26dc934cccc6b".to_string());
    assert_eq!(moved.start(), "8f26dc934cccc69");
    assert_eq!(moved.end(), "8f26dc934cccc6b");
    assert_eq!(moved.link_id, "mock_link");
    assert_eq!(link.end(), "8f26dc934cc4cdb");
}

#[test]
fn route_between_two_positions_is_one_link() {
    let network = link_network();
    let origin = network.position_from_geoid("8f26dc934cccc69".to_string());
    let destination = network.position_from_geoid("8f26dc934cc4cdb".to_string());
    let route = network.route(origin, destination).ok().unwrap();
    assert_eq!(route.len(), 1);
    assert_eq!(route[0].link_id, "8f26dc934cccc69-8f26dc934cc4cdb");
    assert_eq!(route[0].start, "8f26dc934cccc69");
    assert_eq!(route[0].end, "8f26dc934cc4cdb");
}

#[test]
fn route_to_the_same_position_is_empty() {
    let network = link_network();
    let origin = network.position_from_geoid("8f26dc934cccc69".to_string());
    let destination = network.position_from_geoid("8f26dc934cccc69".to_string());
    assert!(network.route(origin, destination).ok().unwrap().is_empty());
}

#[test]
fn route_between_positions_of_one_cell_on_other_links() {
    let network = link_network();
    let origin = EntityPosition::new("l1".to_string(), "8f26dc934cccc69".to_string());
    let destination = EntityPosition::new("l2".to_string(), "8f26dc934cccc69".to_string());
    let route = network.route(origin, destination).ok().unwrap();
    assert_eq!(route.len(), 1);
    assert_eq!(route[0].link_id, "8f26dc934cccc69-8f26dc934cccc69");
}

#[test]
fn link_from_link_id_has_the_two_ends() {
    let link = link_network()
        .link_from_link_id("8f26dc934cccc69-8f26dc934cc4cdb".to_string())
        .ok()
        .unwrap();
    assert_eq!(link.link_id, "8f26dc934cccc69-8f26dc934cc4cdb");
    assert_eq!(link.start, "8f26dc934cccc69");
    assert_eq!(link.end, "8f26dc934cc4cdb");
}

#[test]
fn link_from_bad_link_id_is_refused() {
    for link_id in ["8f26dc934cccc69", "a-b-c", ""].iter() {
        match link_network().link_from_link_id(link_id.to_string()) {
            Err(e) => assert_eq!(e, HiveError::InvalidLinkId),
            Ok(_) => panic!("a link came of {:?}", link_id),
        }
    }
}

#[test]
fn link_from_geoid_leads_to_itself() {
    let link = link_network().link_from_geoid("8f26dc934cccc69".to_string());
    assert_eq!(link.link_id, "8f26dc934cccc69-8f26dc934cccc69");
    assert_eq!(link.start, "8f26dc934cccc69");
    assert_eq!(link.end, "8f26dc934cccc69");
}

#[test]
fn link_from_link_id_with_ends_that_are_no_cells_is_refused() {
    for link_id in ["zz-zz", "geoid1-geoid2", "-", "8f26dc934cccc69-", "-8f26dc934cccc69"].iter() {
        match link_network().link_from_link_id(link_id.to_string()) {
            Err(e) => assert_eq!(e, HiveError::InvalidGeoid),
            Ok(_) => panic!("a link came of {:?}", link_id),
        }
    }
}

#[test]
fn link_from_link_id_with_one_end_that_is_no_cell_is_refused() {
    let cases = ["8f26dc934cccc69-zz", "zz-8f26dc934cccc69", "8f26dc934cccc69-0"];
    for link_id in cases.iter() {
        match link_network().link_from_link_id(link_id.to_string()) {
            Err(e) => assert_eq!(e, HiveError::InvalidGeoid),
            Ok(_) => panic!("a link came of {:?}", link_id),
        }
    }
}

#[test]
fn link_from_link_id_reports_the_dash_before_the_cells() {
    match link_network().link_from_link_id("zz-zz-zz".to_string()) {
        Err(e) => assert_eq!(e, HiveError::InvalidLinkId),
        Ok(_) => panic!("a link came of three parts"),
    }
    match link_network().link_from_link_id("zz".to_string()) {
        Err(e) => assert_eq!(e, HiveError::InvalidLinkId),
        Ok(_) => panic!("a link came of one part"),
    }
}

#[test]
fn route_from_an_origin_that_is_no_cell_is_refused() {
    let network = link_network();
    let origin = network.position_from_geoid("zz".to_string());
    let destination = network.position_from_geoid("8f26dc934cc4cdb".to_string());
    match network.route(origin, destination) {
        Err(e) => assert_eq!(e, HiveError::InvalidGeoid),
        Ok(_) => panic!("a route came of an origin that is no cell"),
    }
}

#[test]
fn route_asks_for_the_cell_of_the_origin_only() {
    let network = link_network();
    let origin = network.position_from_geoid("8f26dc934cccc69".to_string());
    let destination = network.position_from_geoid("zz".to_string());
    let route = network.route(origin, destination).ok().unwrap();
    assert_eq!(route.len(), 1);
    assert_eq!(route[0].link_id, "8f26dc934cccc69-zz");
    assert_eq!(route[0].start, "8f26dc934cccc69");
    assert_eq!(route[0].end, "zz");
}

#[test]
fn route_to_the_same_position_asks_for_no_cell() {
    let network = link_network();
    let origin = network.position_from_geoid("zz".to_string());
    let destination = network.position_from_geoid("zz".to_string());
    assert!(network.route(origin, destination).ok().unwrap().is_empty());
}

#[test]
fn link_of_cells_takes_the_first_failure() {
    let network = link_network();
    let cell = Geoid { h3_cell: 0x8f26dc934cccc69 };
    let kept = network.link_of_cells(mock_link(), Ok(cell), Ok(cell)).ok().unwrap();
    assert_eq!(kept.link_id, "mock_link");
    assert_eq!(kept.start, "8f26dc934cccc69");
    assert_eq!(kept.end, "8f26dc934cc4cdb");
    let r = network.link_of_cells(mock_link(), Err(HiveError::InvalidGeoid), Ok(cell));
    assert_eq!(r.err(), Some(HiveError::InvalidGeoid));
    let r = network.link_of_cells(mock_link(), Ok(cell), Err(HiveError::InvalidGeoid));
    assert_eq!(r.err(), Some(HiveError::InvalidGeoid));
    let r = network.link_of_cells(
        mock_link(),
        Err(HiveError::InvalidLinkId),
        Err(HiveError::InvalidGeoid),
    );
    assert_eq!(r.err(), Some(HiveError::InvalidLinkId));
}
