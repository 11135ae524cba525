use galerians_autosplitter::game::{GameMap, Item, Stage};
use galerians_autosplitter::split_type::{reconcile, Reconciliation, SplitType, SplitTypeNotice};
use galerians_autosplitter::splits::{door_splits, key_event_splits, Event};

const ALL: [SplitType; 5] = [
    SplitType::AllDoors,
    SplitType::RouteDoors,
    SplitType::KeyEvents,
    SplitType::AllDoorsConsole,
    SplitType::RouteDoorsConsole,
];

#[test]
fn names_round_trip() {
    for t in ALL {
        assert_eq!(SplitType::from_raw(t.as_str().as_bytes()), Some(t));
    }
    assert_eq!(SplitType::AllDoors.as_str(), "all-doors");
    assert_eq!(SplitType::RouteDoors.as_str(), "route-doors");
    assert_eq!(SplitType::KeyEvents.as_str(), "key-events");
    assert_eq!(SplitType::AllDoorsConsole.as_str(), "all-doors-console");
    assert_eq!(SplitType::RouteDoorsConsole.as_str(), "route-doors-console");
}

#[test]
fn camel_case_names_are_accepted() {
    assert_eq!(SplitType::from_raw(b"AllDoors"), Some(SplitType::AllDoors));
    assert_eq!(SplitType::from_raw(b"RouteDoors"), Some(SplitType::RouteDoors));
    assert_eq!(SplitType::from_raw(b"KeyEvents"), Some(SplitType::KeyEvents));
    assert_eq!(SplitType::from_raw(b"AllDoorsConsole"), Some(SplitType::AllDoorsConsole));
    assert_eq!(SplitType::from_raw(b"RouteDoorsConsole"), Some(SplitType::RouteDoorsConsole));
}

#[test]
fn unknown_names_are_refused() {
    assert_eq!(SplitType::from_raw(b""), None);
    assert_eq!(SplitType::from_raw(b"-"), None);
    assert_eq!(SplitType::from_raw(b"key-event"), None);
    assert_eq!(SplitType::from_raw(b"KEY-EVENTS"), None);
    assert_eq!(SplitType::from_raw(b"key-events "), None);
}

#[test]
fn console_types() {
    assert!(!SplitType::AllDoors.is_console());
    assert!(!SplitType::RouteDoors.is_console());
    assert!(!SplitType::KeyEvents.is_console());
    assert!(SplitType::AllDoorsConsole.is_console());
    assert!(SplitType::RouteDoorsConsole.is_console());
}

#[test]
fn routes_of_split_types() {
    assert_eq!(SplitType::AllDoors.splits(), None);
    assert_eq!(SplitType::AllDoorsConsole.splits(), None);
    assert_eq!(SplitType::KeyEvents.splits(), Some(key_event_splits()));
    assert_eq!(SplitType::RouteDoors.splits(), Some(door_splits()));
    assert_eq!(SplitType::RouteDoorsConsole.splits(), Some(door_splits()));
}

#[test]
fn route_tables() {
    let keys = key_event_splits();
    assert_eq!(keys.len(), 45);
    assert_eq!(keys[0], Event::Item(Item::SecurityCard));
    assert_eq!(keys[14], Event::Room(GameMap::YourHouse1F, 11));
    assert_eq!(keys[44], Event::Room(GameMap::MushroomTower, 7));
    let doors = door_splits();
    assert_eq!(doors.len(), 176);
    assert_eq!(doors[0], Event::Room(GameMap::Hospital15F, 1));
    assert_eq!(doors[23], Event::Room2((GameMap::Hospital15F, 7), (GameMap::Hospital14F, 5)));
    assert_eq!(doors[175], Event::Room(GameMap::MushroomTower, 7));
    assert!(doors.iter().any(|e| *e == Event::Flag(Stage::C, 50)));
}

fn rec(
    requested: Option<SplitType>,
    effective: Option<SplitType>,
    published: Option<SplitType>,
    last: Option<SplitType>,
) -> Reconciliation {
    reconcile(requested, effective, published, last)
}

#[test]
fn nothing_named_defaults_to_all_doors() {
    let r = rec(None, None, None, None);
    assert_eq!(r.effective, Some(SplitType::AllDoors));
    assert!(!r.reset);
    assert_eq!(r.notice, Some(SplitTypeNotice::Defaulted));
}

#[test]
fn first_published_type_is_adopted() {
    let r = rec(None, None, Some(SplitType::KeyEvents), None);
    assert_eq!(r.effective, Some(SplitType::KeyEvents));
    assert!(!r.reset);
    assert_eq!(r.notice, Some(SplitTypeNotice::Detected(SplitType::KeyEvents)));
}

#[test]
fn changed_published_type_is_adopted_with_reset() {
    let r = rec(None, Some(SplitType::AllDoors), Some(SplitType::KeyEvents), Some(SplitType::AllDoors));
    assert_eq!(r.effective, Some(SplitType::KeyEvents));
    assert!(r.reset);
    assert_eq!(r.notice, Some(SplitTypeNotice::ChangedByTimer(SplitType::KeyEvents)));
    let r = rec(None, Some(SplitType::KeyEvents), Some(SplitType::KeyEvents), Some(SplitType::KeyEvents));
    assert_eq!(r.effective, Some(SplitType::KeyEvents));
    assert!(!r.reset);
    assert_eq!(r.notice, None);
}

#[test]
fn removed_published_type_keeps_old_one() {
    let r = rec(None, Some(SplitType::RouteDoors), None, Some(SplitType::RouteDoors));
    assert_eq!(r.effective, Some(SplitType::RouteDoors));
    assert!(!r.reset);
    assert_eq!(r.notice, Some(SplitTypeNotice::PublishedLost(SplitType::RouteDoors)));
    let r = rec(None, Some(SplitType::RouteDoors), None, None);
    assert_eq!(r.notice, None);
    let r = rec(Some(SplitType::KeyEvents), Some(SplitType::KeyEvents), None, Some(SplitType::AllDoors));
    assert_eq!(r.effective, Some(SplitType::KeyEvents));
    assert_eq!(r.notice, Some(SplitTypeNotice::PublishedLost(SplitType::KeyEvents)));
}

#[test]
fn user_request_is_adopted_first() {
    let r = rec(Some(SplitType::RouteDoors), None, None, None);
    assert_eq!(r.effective, Some(SplitType::RouteDoors));
    assert!(!r.reset);
    assert_eq!(r.notice, None);
    let r = rec(Some(SplitType::RouteDoors), None, Some(SplitType::KeyEvents), None);
    assert_eq!(r.effective, Some(SplitType::RouteDoors));
    assert!(!r.reset);
    assert_eq!(
        r.notice,
        Some(SplitTypeNotice::UserOverridesTimer {
            requested: SplitType::RouteDoors,
            reported: SplitType::KeyEvents
        })
    );
    let r = rec(Some(SplitType::RouteDoors), None, Some(SplitType::RouteDoors), None);
    assert_eq!(r.notice, None);
}

#[test]
fn user_request_is_kept_against_later_published_type() {
    let req = Some(SplitType::RouteDoors);
    let r = rec(req, req, Some(SplitType::KeyEvents), Some(SplitType::RouteDoors));
    assert_eq!(r.effective, req);
    assert!(!r.reset);
    assert_eq!(
        r.notice,
        Some(SplitTypeNotice::UserKept {
            requested: SplitType::RouteDoors,
            reported: SplitType::KeyEvents
        })
    );
    // the same published value as last time is not reported again
    let r = rec(req, req, Some(SplitType::KeyEvents), Some(SplitType::KeyEvents));
    assert_eq!(r.effective, req);
    assert_eq!(r.notice, None);
    // a published value equal to the user's choice is no disagreement
    let r = rec(req, req, Some(SplitType::RouteDoors), Some(SplitType::KeyEvents));
    assert_eq!(r.notice, None);
}
