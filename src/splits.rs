use vstd::prelude::*;

use crate::game::{item_number, map_number, GameMap, GameView, Item, Stage};

verus! {

/// Something that the player achieves on the way through a run.
#[derive(Debug, Clone, Copy, PartialEq, Eq)]
pub enum Event {
    /// The player enters a room.
    Room(GameMap, u16),
    /// The player enters a room that the game maps at two places; either
    /// counts.
    Room2((GameMap, u16), (GameMap, u16)),
    /// A progress flag becomes set.
    Flag(Stage, u32),
    /// An item comes into the inventory.
    Item(Item),
}

/// Whether the game, as it shows itself in `view`, has reached an event.
pub open spec fn event_met(event: Event, view: GameView) -> bool {
    match event {
        Event::Room(map, room) => (map_number(map), room) == view.location(),
        Event::Room2((map1, room1), (map2, room2)) => (map_number(map1), room1) == view.location()
            || (map_number(map2), room2) == view.location(),
        Event::Flag(stage, flag_index) => view.flag_is_set(stage, flag_index),
        Event::Item(item) => view.holds(item),
    }
}

impl Event {
    /// Whether the game, as it shows itself in `view`, has reached this event.
    pub fn is_met(&self, view: &GameView) -> (r: bool)
        ensures
            r == event_met(*self, *view),
    {
        match self {
            Event::Room(map, room) => {
                let here = view.room();
                map.id() == here.0 && *room == here.1
            },
            Event::Room2((map1, room1), (map2, room2)) => {
                let here = view.room();
                (map1.id() == here.0 && *room1 == here.1) || (map2.id() == here.0 && *room2
                    == here.1)
            },
            Event::Flag(stage, flag_index) => view.flag(*stage, *flag_index),
            Event::Item(item) => view.has_item(*item),
        }
    }
}

/// The route of key events: key items, bosses and hotel progress.
pub open spec fn key_event_route() -> Seq<Event> {
    key_event_route_a() + key_event_route_b() + key_event_route_c() + key_event_route_d()
}

/// The key events of stage a.
pub open spec fn key_event_route_a() -> Seq<Event> {
    seq![
        Event::Item(Item::SecurityCard),
        Event::Item(Item::FreezerRoomKey),
        Event::Item(Item::PpecStorageKey),
        Event::Item(Item::Fuse),
        Event::Item(Item::LiquidExplosive),
        Event::Item(Item::SpecialPpecOfficeKey),
        Event::Item(Item::SecurityCardReformatted),
        Event::Item(Item::PhotoOfParents), // skipping control room key since you get it in the same room
        Event::Item(Item::TestLabKey),
        Event::Item(Item::ResearchLabKey),
        Event::Item(Item::TwoHeadedSnake),
        Event::Item(Item::TwoHeadedMonkey),
        Event::Item(Item::TwoHeadedWolf),
        Event::Item(Item::TwoHeadedEagle),
        Event::Room(GameMap::YourHouse1F, 11), // B0112; end of Stage A
    ]
}

fn push_key_event_route_a(v: &mut Vec<Event>)
    ensures
        final(v)@ == old(v)@ + key_event_route_a(),
{
    let ghost start = v@;
    v.push(Event::Item(Item::SecurityCard));
    v.push(Event::Item(Item::FreezerRoomKey));
    v.push(Event::Item(Item::PpecStorageKey));
    v.push(Event::Item(Item::Fuse));
    v.push(Event::Item(Item::LiquidExplosive));
    v.push(Event::Item(Item::SpecialPpecOfficeKey));
    v.push(Event::Item(Item::SecurityCardReformatted));
    v.push(Event::Item(Item::PhotoOfParents)); // skipping control room key since you get it in the same room
    v.push(Event::Item(Item::TestLabKey));
    v.push(Event::Item(Item::ResearchLabKey));
    v.push(Event::Item(Item::TwoHeadedSnake));
    v.push(Event::Item(Item::TwoHeadedMonkey));
    v.push(Event::Item(Item::TwoHeadedWolf));
    v.push(Event::Item(Item::TwoHeadedEagle));
    v.push(Event::Room(GameMap::YourHouse1F, 11)); // B0112; end of Stage A
    assert(v@ =~= start + key_event_route_a());
}

/// The key events of stage b.
pub open spec fn key_event_route_b() -> Seq<Event> {
    seq![
        Event::Item(Item::BackdoorKey),
        Event::Item(Item::SecondFloorKey),
        Event::Item(Item::DoorKnob),
        Event::Item(Item::BedroomKey),
        Event::Item(Item::MothersRing),
        Event::Item(Item::FathersRing),
        Event::Item(Item::ThreeBall),
        Event::Item(Item::NineBall),
        Event::Item(Item::ShedKey),
        Event::Item(Item::LiliasDoll),
        Event::Room(GameMap::Hotel1F, 0), // C0101; end of Stage B
    ]
}

fn push_key_event_route_b(v: &mut Vec<Event>)
    ensures
        final(v)@ == old(v)@ + key_event_route_b(),
{
    let ghost start = v@;
    v.push(Event::Item(Item::BackdoorKey));
    v.push(Event::Item(Item::SecondFloorKey));
    v.push(Event::Item(Item::DoorKnob));
    v.push(Event::Item(Item::BedroomKey));
    v.push(Event::Item(Item::MothersRing));
    v.push(Event::Item(Item::FathersRing));
    v.push(Event::Item(Item::ThreeBall));
    v.push(Event::Item(Item::NineBall));
    v.push(Event::Item(Item::ShedKey));
    v.push(Event::Item(Item::LiliasDoll));
    v.push(Event::Room(GameMap::Hotel1F, 0)); // C0101; end of Stage B
    assert(v@ =~= start + key_event_route_b());
}

/// The key events of stage c.
pub open spec fn key_event_route_c() -> Seq<Event> {
    seq![
        Event::Flag(Stage::C, 5), // learned secret knock
        Event::Flag(Stage::C, 17), // successfully performed secret knock
        Event::Flag(Stage::C, 10), // Crovic
        Event::Flag(Stage::C, 144), // Priest
        Event::Flag(Stage::C, 143), // bomb guy
        Event::Flag(Stage::C, 54), // defeat enemy in 3F hall
        Event::Flag(Stage::C, 145), // Suzan
        Event::Flag(Stage::C, 142), // gun guy
        Event::Flag(Stage::C, 47), // defeat enemies in room 305
        Event::Flag(Stage::C, 35), // defeat enemies in room 301
        Event::Flag(Stage::C, 95), // take phone call in room 205
        Event::Flag(Stage::C, 23), // defeat enemies in 2F hall
        Event::Flag(Stage::C, 11), // defeat enemy in room 202
        Event::Room(GameMap::Hotel3F, 4), // C0305 (Rainheart)
        Event::Room(GameMap::Hotel3F, 6), // C0307 (post-Rainheart)
        Event::Room(GameMap::Hotel1F, 5), // C1101 (Rita)
        Event::Room(GameMap::MushroomTower, 0), // D0001; end of Stage C
    ]
}

fn push_key_event_route_c(v: &mut Vec<Event>)
    ensures
        final(v)@ == old(v)@ + key_event_route_c(),
{
    let ghost start = v@;
    v.push(Event::Flag(Stage::C, 5)); // learned secret knock
    v.push(Event::Flag(Stage::C, 17)); // successfully performed secret knock
    v.push(Event::Flag(Stage::C, 10)); // Crovic
    v.push(Event::Flag(Stage::C, 144)); // Priest
    v.push(Event::Flag(Stage::C, 143)); // bomb guy
    v.push(Event::Flag(Stage::C, 54)); // defeat enemy in 3F hall
    v.push(Event::Flag(Stage::C, 145)); // Suzan
    v.push(Event::Flag(Stage::C, 142)); // gun guy
    v.push(Event::Flag(Stage::C, 47)); // defeat enemies in room 305
    v.push(Event::Flag(Stage::C, 35)); // defeat enemies in room 301
    v.push(Event::Flag(Stage::C, 95)); // take phone call in room 205
    v.push(Event::Flag(Stage::C, 23)); // defeat enemies in 2F hall
    v.push(Event::Flag(Stage::C, 11)); // defeat enemy in room 202
    v.push(Event::Room(GameMap::Hotel3F, 4)); // C0305 (Rainheart)
    v.push(Event::Room(GameMap::Hotel3F, 6)); // C0307 (post-Rainheart)
    v.push(Event::Room(GameMap::Hotel1F, 5)); // C1101 (Rita)
    v.push(Event::Room(GameMap::MushroomTower, 0)); // D0001; end of Stage C
    assert(v@ =~= start + key_event_route_c());
}

/// The key events of stage d.
pub open spec fn key_event_route_d() -> Seq<Event> {
    seq![
        Event::Room(GameMap::MushroomTower, 4), // D1001 (Cain)
        Event::Room(GameMap::MushroomTower, 7), // D1004 (Dorothy)
    ]
}

fn push_key_event_route_d(v: &mut Vec<Event>)
    ensures
        final(v)@ == old(v)@ + key_event_route_d(),
{
    let ghost start = v@;
    v.push(Event::Room(GameMap::MushroomTower, 4)); // D1001 (Cain)
    v.push(Event::Room(GameMap::MushroomTower, 7)); // D1004 (Dorothy)
    assert(v@ =~= start + key_event_route_d());
}

/// The route of key events: key items, bosses and hotel progress.
pub fn key_event_splits() -> (r: Vec<Event>)
    ensures
        r@ == key_event_route(),
{
    let mut v: Vec<Event> = Vec::new();
    push_key_event_route_a(&mut v);
    push_key_event_route_b(&mut v);
    push_key_event_route_c(&mut v);
    push_key_event_route_d(&mut v);
    assert(v@ =~= key_event_route());
    v
}

/// The route of doors: each room that a run goes through, in order.
pub open spec fn door_route() -> Seq<Event> {
    door_route_a() + door_route_b() + door_route_c() + door_route_d()
}

/// The doors of stage a.
pub open spec fn door_route_a() -> Seq<Event> {
    seq![
        Event::Room(GameMap::Hospital15F, 1), // A1502 (security card)
        Event::Room(GameMap::Hospital15F, 12), // A15RA
        Event::Room(GameMap::Hospital15F, 2), // A1503 (use security card)
        Event::Room(GameMap::Hospital15F, 11), // A1512
        Event::Room(GameMap::Hospital15F, 3), // A1504 (freezer room key)
        Event::Room(GameMap::Hospital15F, 11), // A1512
        Event::Room(GameMap::Hospital15F, 13), // A15RB
        Event::Room(GameMap::Hospital15F, 14), // A15RC
        Event::Room(GameMap::Hospital15F, 4), // A1505 (PPEC storage key)
        Event::Room(GameMap::Hospital15F, 14), // A15RC
        Event::Room(GameMap::Hospital15F, 6), // A1507 (fuse)
        Event::Room(GameMap::Hospital15F, 14), // A15RC (use fuse)
        Event::Room(GameMap::Hospital15F, 0), // A1501 (liquid explosive)
        Event::Room(GameMap::Hospital15F, 14), // A15RC (use liquid explosive)
        Event::Room(GameMap::Hospital14F, 10), // A14RA
        Event::Room(GameMap::Hospital14F, 1), // A1402
        Event::Room(GameMap::Hospital14F, 0), // A1508
        Event::Room(GameMap::Hospital14F, 8), // A1409 (special PPEC office key)
        Event::Room(GameMap::Hospital14F, 0), // A1508
        Event::Room(GameMap::Hospital14F, 1), // A1402
        Event::Room(GameMap::Hospital14F, 10), // A14RA
        Event::Room(GameMap::Hospital15F, 14), // A15RC
        Event::Room(GameMap::Hospital15F, 13), // A15RB (use special PPEC office key)
        Event::Room2((GameMap::Hospital15F, 7), (GameMap::Hospital14F, 5)), // A1401 (reformat security card)
        Event::Room(GameMap::Hospital15F, 13), // A15RB
        Event::Room(GameMap::Hospital15F, 14), // A15RC
        Event::Room(GameMap::Hospital14F, 10), // A14RA (use reformatted security card)
        Event::Room(GameMap::Hospital14F, 12), // A14RF
        Event::Room(GameMap::Hospital14F, 7), // A1408
        Event::Room(GameMap::Hospital13F, 15), // A13RA
        Event::Room(GameMap::Hospital13F, 0), // A1301 (control room key, photo of parents)
        Event::Room(GameMap::Hospital13F, 15), // A13RA
        Event::Room2((GameMap::Hospital13F, 9), (GameMap::Hospital13F, 10)), // A1310
        Event::Room(GameMap::Hospital13F, 16), // A13RB
        Event::Room(GameMap::Hospital13F, 1), // A1302 (test lab key)
        Event::Room(GameMap::Hospital13F, 16), // A13RB
        Event::Room2((GameMap::Hospital13F, 9), (GameMap::Hospital13F, 10)), // A1310
        Event::Room(GameMap::Hospital14F, 13), // A14RG
        Event::Room(GameMap::Hospital14F, 2), // A1403 (research lab key)
        Event::Room(GameMap::Hospital14F, 13), // A14RG
        Event::Room2((GameMap::Hospital13F, 9), (GameMap::Hospital13F, 10)), // A1310 (use test lab key)
        Event::Room(GameMap::Hospital13F, 5), // A1306 (two-headed snake)
        Event::Room2((GameMap::Hospital13F, 9), (GameMap::Hospital13F, 10)), // A1310 (use control room key)
        Event::Room(GameMap::Hospital13F, 7), // A1308 (unlock Clinic Chief's office, use research lab key)
        Event::Room(GameMap::Hospital13F, 8), // A1309 (two-headed monkey)
        Event::Room(GameMap::Hospital13F, 7), // A1308 (unlock armory)
        Event::Room2((GameMap::Hospital13F, 9), (GameMap::Hospital13F, 10)), // A1310
        Event::Room(GameMap::Hospital13F, 11), // A1312 (two-headed wolf)
        Event::Room2((GameMap::Hospital13F, 9), (GameMap::Hospital13F, 10)), // A1310
        Event::Room(GameMap::Hospital13F, 15), // A13RA
        Event::Room(GameMap::Hospital13F, 2), // A1303 (two-headed eagle)
        Event::Room(GameMap::Hospital13F, 3), // A1304
        Event::Room(GameMap::Hospital13F, 17), // A13RC
        Event::Room(GameMap::Hospital13F, 4), // A1305
        Event::Room(GameMap::Hospital13F, 19), // A13RE
        Event::Room(GameMap::Hospital14F, 18), // A14KD
        Event::Room(GameMap::Hospital14F, 4), // A1405 (Lem)
    ]
}

fn push_door_route_a(v: &mut Vec<Event>)
    ensures
        final(v)@ == old(v)@ + door_route_a(),
{
    let ghost start = v@;
    v.push(Event::Room(GameMap::Hospital15F, 1)); // A1502 (security card)
    v.push(Event::Room(GameMap::Hospital15F, 12)); // A15RA
    v.push(Event::Room(GameMap::Hospital15F, 2)); // A1503 (use security card)
    v.push(Event::Room(GameMap::Hospital15F, 11)); // A1512
    v.push(Event::Room(GameMap::Hospital15F, 3)); // A1504 (freezer room key)
    v.push(Event::Room(GameMap::Hospital15F, 11)); // A1512
    v.push(Event::Room(GameMap::Hospital15F, 13)); // A15RB
    v.push(Event::Room(GameMap::Hospital15F, 14)); // A15RC
    v.push(Event::Room(GameMap::Hospital15F, 4)); // A1505 (PPEC storage key)
    v.push(Event::Room(GameMap::Hospital15F, 14)); // A15RC
    v.push(Event::Room(GameMap::Hospital15F, 6)); // A1507 (fuse)
    v.push(Event::Room(GameMap::Hospital15F, 14)); // A15RC (use fuse)
    v.push(Event::Room(GameMap::Hospital15F, 0)); // A1501 (liquid explosive)
    v.push(Event::Room(GameMap::Hospital15F, 14)); // A15RC (use liquid explosive)
    v.push(Event::Room(GameMap::Hospital14F, 10)); // A14RA
    v.push(Event::Room(GameMap::Hospital14F, 1)); // A1402
    v.push(Event::Room(GameMap::Hospital14F, 0)); // A1508
    v.push(Event::Room(GameMap::Hospital14F, 8)); // A1409 (special PPEC office key)
    v.push(Event::Room(GameMap::Hospital14F, 0)); // A1508
    v.push(Event::Room(GameMap::Hospital14F, 1)); // A1402
    v.push(Event::Room(GameMap::Hospital14F, 10)); // A14RA
    v.push(Event::Room(GameMap::Hospital15F, 14)); // A15RC
    v.push(Event::Room(GameMap::Hospital15F, 13)); // A15RB (use special PPEC office key)
    v.push(Event::Room2((GameMap::Hospital15F, 7), (GameMap::Hospital14F, 5))); // A1401 (reformat security card)
    v.push(Event::Room(GameMap::Hospital15F, 13)); // A15RB
    v.push(Event::Room(GameMap::Hospital15F, 14)); // A15RC
    v.push(Event::Room(GameMap::Hospital14F, 10)); // A14RA (use reformatted security card)
    v.push(Event::Room(GameMap::Hospital14F, 12)); // A14RF
    v.push(Event::Room(GameMap::Hospital14F, 7)); // A1408
    v.push(Event::Room(GameMap::Hospital13F, 15)); // A13RA
    v.push(Event::Room(GameMap::Hospital13F, 0)); // A1301 (control room key, photo of parents)
    v.push(Event::Room(GameMap::Hospital13F, 15)); // A13RA
    v.push(Event::Room2((GameMap::Hospital13F, 9), (GameMap::Hospital13F, 10))); // A1310
    v.push(Event::Room(GameMap::Hospital13F, 16)); // A13RB
    v.push(Event::Room(GameMap::Hospital13F, 1)); // A1302 (test lab key)
    v.push(Event::Room(GameMap::Hospital13F, 16)); // A13RB
    v.push(Event::Room2((GameMap::Hospital13F, 9), (GameMap::Hospital13F, 10))); // A1310
    v.push(Event::Room(GameMap::Hospital14F, 13)); // A14RG
    v.push(Event::Room(GameMap::Hospital14F, 2)); // A1403 (research lab key)
    v.push(Event::Room(GameMap::Hospital14F, 13)); // A14RG
    v.push(Event::Room2((GameMap::Hospital13F, 9), (GameMap::Hospital13F, 10))); // A1310 (use test lab key)
    v.push(Event::Room(GameMap::Hospital13F, 5)); // A1306 (two-headed snake)
    v.push(Event::Room2((GameMap::Hospital13F, 9), (GameMap::Hospital13F, 10))); // A1310 (use control room key)
    v.push(Event::Room(GameMap::Hospital13F, 7)); // A1308 (unlock Clinic Chief's office, use research lab key)
    v.push(Event::Room(GameMap::Hospital13F, 8)); // A1309 (two-headed monkey)
    v.push(Event::Room(GameMap::Hospital13F, 7)); // A1308 (unlock armory)
    v.push(Event::Room2((GameMap::Hospital13F, 9), (GameMap::Hospital13F, 10))); // A1310
    v.push(Event::Room(GameMap::Hospital13F, 11)); // A1312 (two-headed wolf)
    v.push(Event::Room2((GameMap::Hospital13F, 9), (GameMap::Hospital13F, 10))); // A1310
    v.push(Event::Room(GameMap::Hospital13F, 15)); // A13RA
    v.push(Event::Room(GameMap::Hospital13F, 2)); // A1303 (two-headed eagle)
    v.push(Event::Room(GameMap::Hospital13F, 3)); // A1304
    v.push(Event::Room(GameMap::Hospital13F, 17)); // A13RC
    v.push(Event::Room(GameMap::Hospital13F, 4)); // A1305
    v.push(Event::Room(GameMap::Hospital13F, 19)); // A13RE
    v.push(Event::Room(GameMap::Hospital14F, 18)); // A14KD
    v.push(Event::Room(GameMap::Hospital14F, 4)); // A1405 (Lem)
    assert(v@ =~= start + door_route_a());
}

/// The doors of stage b.
pub open spec fn door_route_b() -> Seq<Event> {
    seq![
        Event::Room(GameMap::YourHouse1F, 11), // B0112
        Event::Room(GameMap::YourHouse1F, 9), // B0110 (backdoor key, use backdoor key)
        Event::Room(GameMap::YourHouse1F, 3), // B0104
        Event::Room(GameMap::YourHouse1F, 12), // B01RA
        Event::Room(GameMap::YourHouse1F, 5), // B0106 (second floor key)
        Event::Room(GameMap::YourHouse1F, 12), // B01RA
        Event::Room(GameMap::YourHouse1F, 13), // B01RB
        Event::Room(GameMap::YourHouse1F, 14), // B01RC
        Event::Room(GameMap::YourHouse1F, 7), // B0108 (door knob)
        Event::Room(GameMap::YourHouse1F, 14), // B01RC
        Event::Room(GameMap::YourHouse1F, 13), // B01RB
        Event::Room(GameMap::YourHouse1F, 12), // B01RA
        Event::Room(GameMap::YourHouse1F, 3), // B0104 (use door knob)
        Event::Room(GameMap::YourHouse1F, 0), // B0101
        Event::Room(GameMap::YourHouse2F, 0), // B0201 (use second floor key)
        Event::Room(GameMap::YourHouse2F, 9), // B02RA
        Event::Room(GameMap::YourHouse2F, 1), // B0202 (bedroom key)
        Event::Room(GameMap::YourHouse2F, 9), // B02RA
        Event::Room(GameMap::YourHouse2F, 10), // B02RB
        Event::Room(GameMap::YourHouse2F, 11), // B02RC (use bedroom key)
        Event::Room(GameMap::YourHouse2F, 10), // B02RB
        Event::Room(GameMap::YourHouse1F, 13), // B01RB
        Event::Room(GameMap::YourHouse1F, 12), // B01RA
        Event::Room(GameMap::YourHouse1F, 4), // B0105 (mother's ring)
        Event::Room(GameMap::YourHouse1F, 12), // B01RA
        Event::Room(GameMap::YourHouse1F, 3), // B0104
        Event::Room(GameMap::YourHouse1F, 0), // B0101
        Event::Room(GameMap::YourHouse2F, 0), // B0201
        Event::Room(GameMap::YourHouse2F, 9), // B02RA
        Event::Room(GameMap::YourHouse2F, 10), // B02RB
        Event::Room(GameMap::YourHouse2F, 11), // B02RC
        Event::Room(GameMap::YourHouse2F, 6), // B0207 (father's ring, use mother's ring)
        Event::Room(GameMap::YourHouse2F, 11), // B02RC
        Event::Room(GameMap::YourHouse2F, 10), // B02RB
        Event::Room(GameMap::YourHouse2F, 9), // B02RA
        Event::Room(GameMap::YourHouse2F, 3), // B0204 (use mother's ring, use father's ring)
        Event::Room(GameMap::YourHouse2F, 2), // B0203 (3 ball)
        Event::Room(GameMap::YourHouse2F, 3), // B0204
        Event::Room(GameMap::YourHouse2F, 9), // B02RA
        Event::Room(GameMap::YourHouse2F, 0), // B0201
        Event::Room(GameMap::YourHouse1F, 0), // B0101
        Event::Room(GameMap::YourHouse1F, 11), // B0112
        Event::Room(GameMap::YourHouse1F, 9), // B0110 (9 ball)
        Event::Room(GameMap::YourHouse1F, 3), // B0104
        Event::Room(GameMap::YourHouse1F, 12), // B01RA
        Event::Room(GameMap::YourHouse1F, 13), // B01RB
        Event::Room(GameMap::YourHouse1F, 14), // B01RC
        Event::Room(GameMap::YourHouse1F, 7), // B0108 (use 3 ball, use 9 ball)
        Event::Room(GameMap::YourHouse1F, 15), // B0001 (shed key)
        Event::Room(GameMap::YourHouse1F, 7), // B0108
        Event::Room(GameMap::YourHouse1F, 14), // B01RC
        Event::Room(GameMap::YourHouse1F, 13), // B01RB
        Event::Room(GameMap::YourHouse1F, 12), // B01RA
        Event::Room(GameMap::YourHouse1F, 3), // B0104
        Event::Room(GameMap::YourHouse1F, 0), // B0101
        Event::Room(GameMap::YourHouse1F, 11), // B0112
        Event::Room(GameMap::YourHouse1F, 10), // B0111 (use shed key)
        Event::Room(GameMap::YourHouse1F, 2), // B0103 (Lilia's doll)
        Event::Room(GameMap::YourHouse1F, 10), // B0111 (Birdman)
    ]
}

fn push_door_route_b(v: &mut Vec<Event>)
    ensures
        final(v)@ == old(v)@ + door_route_b(),
{
    let ghost start = v@;
    v.push(Event::Room(GameMap::YourHouse1F, 11)); // B0112
    v.push(Event::Room(GameMap::YourHouse1F, 9)); // B0110 (backdoor key, use backdoor key)
    v.push(Event::Room(GameMap::YourHouse1F, 3)); // B0104
    v.push(Event::Room(GameMap::YourHouse1F, 12)); // B01RA
    v.push(Event::Room(GameMap::YourHouse1F, 5)); // B0106 (second floor key)
    v.push(Event::Room(GameMap::YourHouse1F, 12)); // B01RA
    v.push(Event::Room(GameMap::YourHouse1F, 13)); // B01RB
    v.push(Event::Room(GameMap::YourHouse1F, 14)); // B01RC
    v.push(Event::Room(GameMap::YourHouse1F, 7)); // B0108 (door knob)
    v.push(Event::Room(GameMap::YourHouse1F, 14)); // B01RC
    v.push(Event::Room(GameMap::YourHouse1F, 13)); // B01RB
    v.push(Event::Room(GameMap::YourHouse1F, 12)); // B01RA
    v.push(Event::Room(GameMap::YourHouse1F, 3)); // B0104 (use door knob)
    v.push(Event::Room(GameMap::YourHouse1F, 0)); // B0101
    v.push(Event::Room(GameMap::YourHouse2F, 0)); // B0201 (use second floor key)
    v.push(Event::Room(GameMap::YourHouse2F, 9)); // B02RA
    v.push(Event::Room(GameMap::YourHouse2F, 1)); // B0202 (bedroom key)
    v.push(Event::Room(GameMap::YourHouse2F, 9)); // B02RA
    v.push(Event::Room(GameMap::YourHouse2F, 10)); // B02RB
    v.push(Event::Room(GameMap::YourHouse2F, 11)); // B02RC (use bedroom key)
    v.push(Event::Room(GameMap::YourHouse2F, 10)); // B02RB
    v.push(Event::Room(GameMap::YourHouse1F, 13)); // B01RB
    v.push(Event::Room(GameMap::YourHouse1F, 12)); // B01RA
    v.push(Event::Room(GameMap::YourHouse1F, 4)); // B0105 (mother's ring)
    v.push(Event::Room(GameMap::YourHouse1F, 12)); // B01RA
    v.push(Event::Room(GameMap::YourHouse1F, 3)); // B0104
    v.push(Event::Room(GameMap::YourHouse1F, 0)); // B0101
    v.push(Event::Room(GameMap::YourHouse2F, 0)); // B0201
    v.push(Event::Room(GameMap::YourHouse2F, 9)); // B02RA
    v.push(Event::Room(GameMap::YourHouse2F, 10)); // B02RB
    v.push(Event::Room(GameMap::YourHouse2F, 11)); // B02RC
    v.push(Event::Room(GameMap::YourHouse2F, 6)); // B0207 (father's ring, use mother's ring)
    v.push(Event::Room(GameMap::YourHouse2F, 11)); // B02RC
    v.push(Event::Room(GameMap::YourHouse2F, 10)); // B02RB
    v.push(Event::Room(GameMap::YourHouse2F, 9)); // B02RA
    v.push(Event::Room(GameMap::YourHouse2F, 3)); // B0204 (use mother's ring, use father's ring)
    v.push(Event::Room(GameMap::YourHouse2F, 2)); // B0203 (3 ball)
    v.push(Event::Room(GameMap::YourHouse2F, 3)); // B0204
    v.push(Event::Room(GameMap::YourHouse2F, 9)); // B02RA
    v.push(Event::Room(GameMap::YourHouse2F, 0)); // B0201
    v.push(Event::Room(GameMap::YourHouse1F, 0)); // B0101
    v.push(Event::Room(GameMap::YourHouse1F, 11)); // B0112
    v.push(Event::Room(GameMap::YourHouse1F, 9)); // B0110 (9 ball)
    v.push(Event::Room(GameMap::YourHouse1F, 3)); // B0104
    v.push(Event::Room(GameMap::YourHouse1F, 12)); // B01RA
    v.push(Event::Room(GameMap::YourHouse1F, 13)); // B01RB
    v.push(Event::Room(GameMap::YourHouse1F, 14)); // B01RC
    v.push(Event::Room(GameMap::YourHouse1F, 7)); // B0108 (use 3 ball, use 9 ball)
    v.push(Event::Room(GameMap::YourHouse1F, 15)); // B0001 (shed key)
    v.push(Event::Room(GameMap::YourHouse1F, 7)); // B0108
    v.push(Event::Room(GameMap::YourHouse1F, 14)); // B01RC
    v.push(Event::Room(GameMap::YourHouse1F, 13)); // B01RB
    v.push(Event::Room(GameMap::YourHouse1F, 12)); // B01RA
    v.push(Event::Room(GameMap::YourHouse1F, 3)); // B0104
    v.push(Event::Room(GameMap::YourHouse1F, 0)); // B0101
    v.push(Event::Room(GameMap::YourHouse1F, 11)); // B0112
    v.push(Event::Room(GameMap::YourHouse1F, 10)); // B0111 (use shed key)
    v.push(Event::Room(GameMap::YourHouse1F, 2)); // B0103 (Lilia's doll)
    v.push(Event::Room(GameMap::YourHouse1F, 10)); // B0111 (Birdman)
    assert(v@ =~= start + door_route_b());
}

/// The doors of stage c.
pub open spec fn door_route_c() -> Seq<Event> {
    seq![
        Event::Room(GameMap::Hotel1F, 0), // C0101 (front desk)
        Event::Room(GameMap::Hotel3F, 6), // C0307
        Event::Room(GameMap::Hotel3F, 1), // C0302 (302)
        Event::Room(GameMap::Hotel3F, 6), // C0307
        Event::Flag(Stage::C, 50), // 306
        Event::Room(GameMap::Hotel1F, 0), // C0101 (blood trail)
        Event::Room(GameMap::Hotel1F, 1), // C0102 (staff room)
        Event::Room(GameMap::Hotel1F, 0), // C0101 (learn knock)
        Event::Room(GameMap::Hotel2F, 6), // C0207 (knock)
        Event::Room(GameMap::Hotel2F, 3), // C0204 (Joule, D-Felon)
        Event::Room(GameMap::Hotel2F, 6), // C0207
        Event::Room(GameMap::Hotel2F, 0), // C0201 (Crovic)
        Event::Room(GameMap::Hotel2F, 6), // C0207
        Event::Flag(Stage::C, 27), // 206
        Event::Room(GameMap::Hotel2F, 5), // C0206 (priest)
        Event::Room(GameMap::Hotel2F, 6), // C0207
        Event::Flag(Stage::C, 15), // 203
        Event::Room(GameMap::Hotel2F, 2), // C0203 (bomb guy)
        Event::Room(GameMap::Hotel2F, 6), // C0207
        Event::Room(GameMap::Hotel3F, 6), // C0307 (3F rabbit)
        Event::Flag(Stage::C, 44), // 304
        Event::Room(GameMap::Hotel3F, 3), // C0304 (Suzan)
        Event::Room(GameMap::Hotel3F, 6), // C0307
        Event::Flag(Stage::C, 41), // 303
        Event::Room(GameMap::Hotel3F, 2), // C0303
        Event::Room(GameMap::Hotel3F, 6), // C0307
        Event::Room(GameMap::Hotel3F, 4), // C0305 (rabbits)
        Event::Room(GameMap::Hotel3F, 6), // C0307
        Event::Room(GameMap::Hotel3F, 0), // C0301 (rabbits)
        Event::Room(GameMap::Hotel3F, 6), // C0307
        Event::Room(GameMap::Hotel2F, 6), // C0207
        Event::Room(GameMap::Hotel2F, 4), // C0205 (phone call)
        Event::Room(GameMap::Hotel2F, 6), // C0207 (rabbits)
        Event::Room(GameMap::Hotel2F, 1), // C0202 (rabbit)
        Event::Room(GameMap::Hotel2F, 6), // C0207 (Rainheart cutscene)
        Event::Room(GameMap::Hotel3F, 6), // C0307
        Event::Room(GameMap::Hotel3F, 4), // C0305 (Rainheart)
        Event::Room(GameMap::Hotel3F, 6), // C0307
        Event::Room(GameMap::Hotel1F, 0), // C0101
        Event::Room(GameMap::Hotel1F, 1), // C0102 (circuit breaker)
        Event::Room(GameMap::Hotel1F, 0), // C0101
        Event::Room(GameMap::Hotel1F, 4), // C1001
        Event::Room(GameMap::Hotel1F, 6), // C1102
        Event::Room(GameMap::Hotel1F, 8), // C1104
        Event::Room(GameMap::Hotel1F, 6), // C1102
        Event::Room(GameMap::Hotel1F, 5), // C1101 (Rita)
    ]
}

fn push_door_route_c(v: &mut Vec<Event>)
    ensures
        final(v)@ == old(v)@ + door_route_c(),
{
    let ghost start = v@;
    v.push(Event::Room(GameMap::Hotel1F, 0)); // C0101 (front desk)
    v.push(Event::Room(GameMap::Hotel3F, 6)); // C0307
    v.push(Event::Room(GameMap::Hotel3F, 1)); // C0302 (302)
    v.push(Event::Room(GameMap::Hotel3F, 6)); // C0307
    v.push(Event::Flag(Stage::C, 50)); // 306
    v.push(Event::Room(GameMap::Hotel1F, 0)); // C0101 (blood trail)
    v.push(Event::Room(GameMap::Hotel1F, 1)); // C0102 (staff room)
    v.push(Event::Room(GameMap::Hotel1F, 0)); // C0101 (learn knock)
    v.push(Event::Room(GameMap::Hotel2F, 6)); // C0207 (knock)
    v.push(Event::Room(GameMap::Hotel2F, 3)); // C0204 (Joule, D-Felon)
    v.push(Event::Room(GameMap::Hotel2F, 6)); // C0207
    v.push(Event::Room(GameMap::Hotel2F, 0)); // C0201 (Crovic)
    v.push(Event::Room(GameMap::Hotel2F, 6)); // C0207
    v.push(Event::Flag(Stage::C, 27)); // 206
    v.push(Event::Room(GameMap::Hotel2F, 5)); // C0206 (priest)
    v.push(Event::Room(GameMap::Hotel2F, 6)); // C0207
    v.push(Event::Flag(Stage::C, 15)); // 203
    v.push(Event::Room(GameMap::Hotel2F, 2)); // C0203 (bomb guy)
    v.push(Event::Room(GameMap::Hotel2F, 6)); // C0207
    v.push(Event::Room(GameMap::Hotel3F, 6)); // C0307 (3F rabbit)
    v.push(Event::Flag(Stage::C, 44)); // 304
    v.push(Event::Room(GameMap::Hotel3F, 3)); // C0304 (Suzan)
    v.push(Event::Room(GameMap::Hotel3F, 6)); // C0307
    v.push(Event::Flag(Stage::C, 41)); // 303
    v.push(Event::Room(GameMap::Hotel3F, 2)); // C0303
    v.push(Event::Room(GameMap::Hotel3F, 6)); // C0307
    v.push(Event::Room(GameMap::Hotel3F, 4)); // C0305 (rabbits)
    v.push(Event::Room(GameMap::Hotel3F, 6)); // C0307
    v.push(Event::Room(GameMap::Hotel3F, 0)); // C0301 (rabbits)
    v.push(Event::Room(GameMap::Hotel3F, 6)); // C0307
    v.push(Event::Room(GameMap::Hotel2F, 6)); // C0207
    v.push(Event::Room(GameMap::Hotel2F, 4)); // C0205 (phone call)
    v.push(Event::Room(GameMap::Hotel2F, 6)); // C0207 (rabbits)
    v.push(Event::Room(GameMap::Hotel2F, 1)); // C0202 (rabbit)
    v.push(Event::Room(GameMap::Hotel2F, 6)); // C0207 (Rainheart cutscene)
    v.push(Event::Room(GameMap::Hotel3F, 6)); // C0307
    v.push(Event::Room(GameMap::Hotel3F, 4)); // C0305 (Rainheart)
    v.push(Event::Room(GameMap::Hotel3F, 6)); // C0307
    v.push(Event::Room(GameMap::Hotel1F, 0)); // C0101
    v.push(Event::Room(GameMap::Hotel1F, 1)); // C0102 (circuit breaker)
    v.push(Event::Room(GameMap::Hotel1F, 0)); // C0101
    v.push(Event::Room(GameMap::Hotel1F, 4)); // C1001
    v.push(Event::Room(GameMap::Hotel1F, 6)); // C1102
    v.push(Event::Room(GameMap::Hotel1F, 8)); // C1104
    v.push(Event::Room(GameMap::Hotel1F, 6)); // C1102
    v.push(Event::Room(GameMap::Hotel1F, 5)); // C1101 (Rita)
    assert(v@ =~= start + door_route_c());
}

/// The doors of stage d.
pub open spec fn door_route_d() -> Seq<Event> {
    seq![
        Event::Room(GameMap::MushroomTower, 0), // D0001
        Event::Room(GameMap::MushroomTower, 8), // D0101
        Event::Room(GameMap::MushroomTower, 0), // D0001
        Event::Room(GameMap::MushroomTower, 1), // D0002
        Event::Room(GameMap::MushroomTower, 8), // D0101
        Event::Room(GameMap::MushroomTower, 1), // D0002
        Event::Room(GameMap::MushroomTower, 2), // D0003
        Event::Room(GameMap::MushroomTower, 8), // D0101
        Event::Room(GameMap::MushroomTower, 2), // D0003
        Event::Room(GameMap::MushroomTower, 3), // D0004
        Event::Room(GameMap::MushroomTower, 8), // D0101
        Event::Room(GameMap::MushroomTower, 3), // D0004
        Event::Room(GameMap::MushroomTower, 4), // D1001 (Cain)
        Event::Room(GameMap::MushroomTower, 7), // D1004 (Dorothy)
    ]
}

fn push_door_route_d(v: &mut Vec<Event>)
    ensures
        final(v)@ == old(v)@ + door_route_d(),
{
    let ghost start = v@;
    v.push(Event::Room(GameMap::MushroomTower, 0)); // D0001
    v.push(Event::Room(GameMap::MushroomTower, 8)); // D0101
    v.push(Event::Room(GameMap::MushroomTower, 0)); // D0001
    v.push(Event::Room(GameMap::MushroomTower, 1)); // D0002
    v.push(Event::Room(GameMap::MushroomTower, 8)); // D0101
    v.push(Event::Room(GameMap::MushroomTower, 1)); // D0002
    v.push(Event::Room(GameMap::MushroomTower, 2)); // D0003
    v.push(Event::Room(GameMap::MushroomTower, 8)); // D0101
    v.push(Event::Room(GameMap::MushroomTower, 2)); // D0003
    v.push(Event::Room(GameMap::MushroomTower, 3)); // D0004
    v.push(Event::Room(GameMap::MushroomTower, 8)); // D0101
    v.push(Event::Room(GameMap::MushroomTower, 3)); // D0004
    v.push(Event::Room(GameMap::MushroomTower, 4)); // D1001 (Cain)
    v.push(Event::Room(GameMap::MushroomTower, 7)); // D1004 (Dorothy)
    assert(v@ =~= start + door_route_d());
}

/// The route of doors: each room that a run goes through, in order.
pub fn door_splits() -> (r: Vec<Event>)
    ensures
        r@ == door_route(),
{
    let mut v: Vec<Event> = Vec::new();
    push_door_route_a(&mut v);
    push_door_route_b(&mut v);
    push_door_route_c(&mut v);
    push_door_route_d(&mut v);
    assert(v@ =~= door_route());
    v
}

} // verus!
