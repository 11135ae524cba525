use galerians_autosplitter::game::{flag_position, GameCheck, GameMap, GameView, Item, Stage};
use galerians_autosplitter::splits::Event;

fn view(room: (u16, u16)) -> GameView {
    GameView {
        map_id: room.0,
        room_id: room.1,
        at_main_menu: false,
        new_game_start: false,
        defeated_final_boss: false,
        flag_words: vec![0; 12],
        held_items: Vec::new(),
    }
}

#[test]
fn game_check_validity() {
    assert!(GameCheck::Same.is_valid());
    assert!(GameCheck::Changed.is_valid());
    assert!(!GameCheck::Unknown.is_valid());
}

#[test]
fn numbers_of_enums() {
    assert_eq!(Stage::A.index(), 0);
    assert_eq!(Stage::D.index(), 3);
    assert_eq!(GameMap::Hospital15F.id(), 0);
    assert_eq!(GameMap::MushroomTower.id(), 8);
    assert_eq!(Item::MemoryChip15F.id(), 0);
    assert_eq!(Item::DFelon.id(), 40);
}

#[test]
fn flag_positions() {
    assert_eq!(flag_position(Stage::A, 0), (0, 1));
    assert_eq!(flag_position(Stage::D, 38), (3, 1 << 38));
    assert_eq!(flag_position(Stage::B, 64), (5, 1));
    assert_eq!(flag_position(Stage::D, 80), (7, 1 << 16));
    assert_eq!(flag_position(Stage::C, 130), (10, 1 << 2));
}

#[test]
fn flags_read_from_words() {
    let mut v = view((0, 0));
    v.flag_words[6] = 1 << 17;
    assert!(v.flag(Stage::C, 81));
    assert!(!v.flag(Stage::C, 80));
    assert!(!v.flag(Stage::D, 81));
    assert!(!v.flag(Stage::C, 192));
    v.flag_words.clear();
    assert!(!v.flag(Stage::C, 81));
}

#[test]
fn events_match_the_view() {
    let mut v = view((7, 4));
    assert!(Event::Room(GameMap::Hotel3F, 4).is_met(&v));
    assert!(!Event::Room(GameMap::Hotel3F, 5).is_met(&v));
    assert!(!Event::Room(GameMap::Hotel2F, 4).is_met(&v));
    assert!(Event::Room2((GameMap::Hotel1F, 1), (GameMap::Hotel3F, 4)).is_met(&v));
    assert!(Event::Room2((GameMap::Hotel3F, 4), (GameMap::Hotel1F, 1)).is_met(&v));
    assert!(!Event::Room2((GameMap::Hotel1F, 1), (GameMap::Hotel1F, 4)).is_met(&v));
    assert!(!Event::Item(Item::NineBall).is_met(&v));
    v.held_items = vec![Item::NineBall.id()];
    assert!(Event::Item(Item::NineBall).is_met(&v));
    assert!(!Event::Flag(Stage::C, 17).is_met(&v));
    v.flag_words[2] = 1 << 17;
    assert!(Event::Flag(Stage::C, 17).is_met(&v));
    assert_eq!(v.room(), (7, 4));
}
