use std::str::FromStr;
use window_manager::mapping::{
    EntityMapping, SyncAction, SyncEvent, WaypointMapping, WaypointMarker,
};
use window_manager::schema::NodeName;
use window_manager::shared::{EntityType, Node};

#[test]
fn entity_type_names() {
    assert_eq!(EntityType::Ship.as_str(), "Ship");
    assert_eq!(EntityType::Planet.as_str(), "Planet");
    assert_eq!(EntityType::Asteroid.as_str(), "Asteroid");
    assert_eq!(EntityType::Container.as_str(), "Container");
    assert_eq!(EntityType::Asteroid.to_text(), "Asteroid".to_string());
}

#[test]
fn entity_type_parses_its_own_names_only() {
    for kind in [EntityType::Ship, EntityType::Planet, EntityType::Asteroid, EntityType::Container] {
        assert_eq!(EntityType::from_str(kind.as_str()), Ok(kind));
        assert_eq!(EntityType::parse(kind.as_str()), Ok(kind));
    }
    assert_eq!(
        EntityType::from_str("Comet"),
        Err("Unknown entity type: Comet".to_string())
    );
    assert_eq!(EntityType::from_str("ship"), Err("Unknown entity type: ship".to_string()));
    assert_eq!(EntityType::from_str(""), Err("Unknown entity type: ".to_string()));
    assert_eq!("Planet".parse::<EntityType>(), Ok(EntityType::Planet));
}

#[test]
fn node_names_round_trip() {
    for name in ["Sun", "Earth", "Mars", "Venus", "Jupiter", "Saturn", "Uranus", "Neptune", "Pluto"] {
        let node = Node::from_str(name).unwrap();
        assert!(!matches!(node, Node::Custom(_)), "{name}");
        assert_eq!(node.as_str(), name);
        assert_eq!(node.to_text(), name.to_string());
    }
    assert!(matches!(Node::parse("Mars"), Node::Mars));
    assert!(matches!(Node::parse("Pluto"), Node::Pluto));
}

#[test]
fn unknown_node_names_are_custom() {
    match Node::from_str("Vesta").unwrap() {
        Node::Custom(name) => assert_eq!(name, "Vesta"),
        other => panic!("unexpected {other:?}"),
    }
    assert_eq!(Node::parse("sun").as_str(), "sun");
    assert!(matches!(Node::parse(""), Node::Custom(_)));
    assert_eq!(Node::Custom("Deep Space 9".to_string()).as_str(), "Deep Space 9");
}

#[test]
fn stored_names_are_plain_values() {
    let n = NodeName::Custom("Vesta".to_string());
    assert!(matches!(n.clone(), NodeName::Custom(s) if s == "Vesta"));
    assert!(matches!(NodeName::Titan, NodeName::Titan));
    let kind = window_manager::schema::EntityType::Custom("Probe".to_string());
    assert!(matches!(kind, window_manager::schema::EntityType::Custom(s) if s == "Probe"));
}

#[test]
fn entity_mapping_maps_both_ways() {
    let mut m = EntityMapping::new();
    assert_eq!(m.get_bevy_entity(1), None);
    m.insert(1, 100);
    m.insert(2, 200);
    assert_eq!(m.get_bevy_entity(1), Some(100));
    assert_eq!(m.get_bevy_entity(2), Some(200));
    assert_eq!(m.get_spacetime_id(100), Some(1));
    assert_eq!(m.get_spacetime_id(200), Some(2));
    assert_eq!(m.get_spacetime_id(1), None);
    assert_eq!(m.remove_by_spacetime_id(1), Some(100));
    assert_eq!(m.get_bevy_entity(1), None);
    assert_eq!(m.get_spacetime_id(100), None);
    assert_eq!(m.get_bevy_entity(2), Some(200));
    assert_eq!(m.remove_by_spacetime_id(1), None);
    assert_eq!(m.spacetime_to_bevy.len(), 1);
    assert_eq!(m.bevy_to_spacetime.len(), 1);
}

#[test]
fn entity_mapping_insert_overwrites_the_forward_entry() {
    let mut m = EntityMapping::default();
    m.insert(1, 100);
    m.insert(1, 101);
    assert_eq!(m.get_bevy_entity(1), Some(101));
    assert_eq!(m.get_spacetime_id(101), Some(1));
    // The stale reverse entry stays until its row is removed.
    assert_eq!(m.get_spacetime_id(100), Some(1));
}

#[test]
fn waypoint_mapping_maps_both_ways() {
    let mut m = WaypointMapping::default();
    m.insert(7, 70);
    assert_eq!(m.get_bevy_entity(7), Some(70));
    assert_eq!(m.get_spacetime_id(70), Some(7));
    assert_eq!(m.remove_by_spacetime_id(8), None);
    assert_eq!(m.remove_by_spacetime_id(7), Some(70));
    assert_eq!(m.get_bevy_entity(7), None);
    assert_eq!(m.get_spacetime_id(70), None);
}

#[test]
fn sync_actions_follow_the_mapping() {
    let mut m = EntityMapping::new();
    assert_eq!(m.sync_action(SyncEvent::Inserted(1)), SyncAction::Spawn(1));
    // Nothing is recorded until the host reports the spawned entity.
    assert_eq!(m.get_bevy_entity(1), None);
    m.insert(1, 100);
    assert_eq!(m.sync_action(SyncEvent::Inserted(1)), SyncAction::AlreadyShown(100));
    assert_eq!(m.sync_action(SyncEvent::Updated(1)), SyncAction::Move(100));
    assert_eq!(m.sync_action(SyncEvent::Updated(2)), SyncAction::Unknown);
    assert_eq!(m.get_bevy_entity(1), Some(100));
    assert_eq!(m.sync_action(SyncEvent::Deleted(2)), SyncAction::Unknown);
    assert_eq!(m.sync_action(SyncEvent::Deleted(1)), SyncAction::Despawn(100));
    assert_eq!(m.get_bevy_entity(1), None);
    assert_eq!(m.get_spacetime_id(100), None);
    assert_eq!(m.sync_action(SyncEvent::Deleted(1)), SyncAction::Unknown);
}

#[test]
fn waypoint_sync_actions_follow_the_mapping() {
    let mut m = WaypointMapping::new();
    assert_eq!(m.sync_action(SyncEvent::Updated(9)), SyncAction::Unknown);
    assert_eq!(m.sync_action(SyncEvent::Inserted(9)), SyncAction::Spawn(9));
    m.insert(9, 90);
    assert_eq!(m.sync_action(SyncEvent::Inserted(9)), SyncAction::AlreadyShown(90));
    assert_eq!(m.sync_action(SyncEvent::Deleted(9)), SyncAction::Despawn(90));
    assert_eq!(m.get_spacetime_id(90), None);
    let marker = WaypointMarker { spacetime_id: 9, entity_id: 1, order_index: 0 };
    assert_eq!(marker.order_index, 0);
}
