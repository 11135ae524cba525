use vstd::prelude::*;

verus! {

/// A stage of the game; each has its own banks of progress flags.
#[derive(Debug, Clone, Copy, PartialEq, Eq, Hash, Structural)]
pub enum Stage {
    A,
    B,
    C,
    D,
}

/// A map of the game; a location is a map and a room within it.
#[derive(Debug, Clone, Copy, PartialEq, Eq, Hash, Structural)]
pub enum GameMap {
    Hospital15F,
    Hospital14F,
    Hospital13F,
    YourHouse1F,
    YourHouse2F,
    Hotel1F,
    Hotel2F,
    Hotel3F,
    MushroomTower,
}

/// An item that can be held in the inventory.
#[derive(Debug, Clone, Copy, PartialEq, Eq, Hash, Structural)]
pub enum Item {
    MemoryChip15F,
    SecurityCard,
    Beeject,
    FreezerRoomKey,
    PpecStorageKey,
    Fuse,
    LiquidExplosive,
    MemoryChip14F,
    SecurityCardReformatted,
    SpecialPpecOfficeKey,
    MemoryChip13F,
    TestLabKey,
    ControlRoomKey,
    ResearchLabKey,
    TwoHeadedSnake,
    TwoHeadedMonkey,
    TwoHeadedWolf,
    TwoHeadedEagle,
    YourHouseMemoryChip,
    BackdoorKey,
    DoorKnob,
    NineBall,
    MothersRing,
    FathersRing,
    LiliasDoll,
    Metamorphosis,
    BedroomKey,
    SecondFloorKey,
    MedicalStaffNotes,
    GProjectReport,
    PhotoOfParents,
    RionsTestData,
    DrLemsNotes,
    NewReplicativeComputerTheory,
    DrPascallesDiary,
    LetterFromElsa,
    Newspaper,
    ThreeBall,
    ShedKey,
    LetterFromLilia,
    DFelon,
}

/// The number under which the game stores a stage.
pub open spec fn stage_index(v: Stage) -> u32 {
    match v {
        Stage::A => 0,
        Stage::B => 1,
        Stage::C => 2,
        Stage::D => 3,
    }
}

/// The number under which the game stores a map.
pub open spec fn map_number(v: GameMap) -> u16 {
    match v {
        GameMap::Hospital15F => 0,
        GameMap::Hospital14F => 1,
        GameMap::Hospital13F => 2,
        GameMap::YourHouse1F => 3,
        GameMap::YourHouse2F => 4,
        GameMap::Hotel1F => 5,
        GameMap::Hotel2F => 6,
        GameMap::Hotel3F => 7,
        GameMap::MushroomTower => 8,
    }
}

/// The number under which the game stores an item.
pub open spec fn item_number(v: Item) -> i16 {
    match v {
        Item::MemoryChip15F => 0,
        Item::SecurityCard => 1,
        Item::Beeject => 2,
        Item::FreezerRoomKey => 3,
        Item::PpecStorageKey => 4,
        Item::Fuse => 5,
        Item::LiquidExplosive => 6,
        Item::MemoryChip14F => 7,
        Item::SecurityCardReformatted => 8,
        Item::SpecialPpecOfficeKey => 9,
        Item::MemoryChip13F => 10,
        Item::TestLabKey => 11,
        Item::ControlRoomKey => 12,
        Item::ResearchLabKey => 13,
        Item::TwoHeadedSnake => 14,
        Item::TwoHeadedMonkey => 15,
        Item::TwoHeadedWolf => 16,
        Item::TwoHeadedEagle => 17,
        Item::YourHouseMemoryChip => 18,
        Item::BackdoorKey => 19,
        Item::DoorKnob => 20,
        Item::NineBall => 21,
        Item::MothersRing => 22,
        Item::FathersRing => 23,
        Item::LiliasDoll => 24,
        Item::Metamorphosis => 25,
        Item::BedroomKey => 26,
        Item::SecondFloorKey => 27,
        Item::MedicalStaffNotes => 28,
        Item::GProjectReport => 29,
        Item::PhotoOfParents => 30,
        Item::RionsTestData => 31,
        Item::DrLemsNotes => 32,
        Item::NewReplicativeComputerTheory => 33,
        Item::DrPascallesDiary => 34,
        Item::LetterFromElsa => 35,
        Item::Newspaper => 36,
        Item::ThreeBall => 37,
        Item::ShedKey => 38,
        Item::LetterFromLilia => 39,
        Item::DFelon => 40,
    }
}

impl Stage {
    pub fn index(&self) -> (r: u32)
        ensures
            r == stage_index(*self),
    {
        match self {
            Stage::A => 0,
            Stage::B => 1,
            Stage::C => 2,
            Stage::D => 3,
        }
    }
}

impl GameMap {
    pub fn id(&self) -> (r: u16)
        ensures
            r == map_number(*self),
    {
        match self {
            GameMap::Hospital15F => 0,
            GameMap::Hospital14F => 1,
            GameMap::Hospital13F => 2,
            GameMap::YourHouse1F => 3,
            GameMap::YourHouse2F => 4,
            GameMap::Hotel1F => 5,
            GameMap::Hotel2F => 6,
            GameMap::Hotel3F => 7,
            GameMap::MushroomTower => 8,
        }
    }
}

impl Item {
    pub fn id(&self) -> (r: i16)
        ensures
            r == item_number(*self),
    {
        match self {
            Item::MemoryChip15F => 0,
            Item::SecurityCard => 1,
            Item::Beeject => 2,
            Item::FreezerRoomKey => 3,
            Item::PpecStorageKey => 4,
            Item::Fuse => 5,
            Item::LiquidExplosive => 6,
            Item::MemoryChip14F => 7,
            Item::SecurityCardReformatted => 8,
            Item::SpecialPpecOfficeKey => 9,
            Item::MemoryChip13F => 10,
            Item::TestLabKey => 11,
            Item::ControlRoomKey => 12,
            Item::ResearchLabKey => 13,
            Item::TwoHeadedSnake => 14,
            Item::TwoHeadedMonkey => 15,
            Item::TwoHeadedWolf => 16,
            Item::TwoHeadedEagle => 17,
            Item::YourHouseMemoryChip => 18,
            Item::BackdoorKey => 19,
            Item::DoorKnob => 20,
            Item::NineBall => 21,
            Item::MothersRing => 22,
            Item::FathersRing => 23,
            Item::LiliasDoll => 24,
            Item::Metamorphosis => 25,
            Item::BedroomKey => 26,
            Item::SecondFloorKey => 27,
            Item::MedicalStaffNotes => 28,
            Item::GProjectReport => 29,
            Item::PhotoOfParents => 30,
            Item::RionsTestData => 31,
            Item::DrLemsNotes => 32,
            Item::NewReplicativeComputerTheory => 33,
            Item::DrPascallesDiary => 34,
            Item::LetterFromElsa => 35,
            Item::Newspaper => 36,
            Item::ThreeBall => 37,
            Item::ShedKey => 38,
            Item::LetterFromLilia => 39,
            Item::DFelon => 40,
        }
    }
}

/// What a health check of the game state source found.
#[derive(Debug, Clone, Copy, PartialEq, Eq, Structural)]
pub enum GameState {
    /// The same game is still there.
    Connected,
    /// Another recognized game (or version of it) has been loaded.
    GameChanged,
    /// The source is gone, or holds no recognized game.
    Disconnected,
}

/// The outcome of looking again at which game version is loaded.
#[derive(Debug, Clone, Copy, PartialEq, Eq, Structural)]
pub enum GameCheck {
    Same,
    Changed,
    Unknown,
}

impl GameCheck {
    /// A recognized game is loaded.
    pub fn is_valid(&self) -> (r: bool)
        ensures
            r <==> !(*self is Unknown),
    {
        !matches!(self, GameCheck::Unknown)
    }
}

/// A source of the game's state, read from the game's memory or recognized
/// in a video capture. The tracker depends on nothing but this.
pub trait Game {
    /// Looks again at whether the game is still there, and still the same.
    fn update(&mut self) -> GameState;

    /// What the game shows now.
    fn view(&self) -> GameView;
}

/// Flags per bank: each stage has three banks of 64 flags.
pub const FLAGS_PER_BANK: u32 = 64;

/// Flags per stage.
pub const FLAG_COUNT: u32 = 192;

/// Number of banks per stage.
pub const BANKS_PER_STAGE: u32 = 3;

/// Number of stages.
pub const STAGE_COUNT: u32 = 4;

/// The 64-bit words that hold all flags: bank by bank, and within a bank
/// stage by stage.
pub const FLAG_WORDS: usize = 12;

/// Which word of the flag area holds a flag.
pub open spec fn flag_word(stage: Stage, flag_index: u32) -> int {
    (flag_index / FLAGS_PER_BANK) as int * STAGE_COUNT as int + stage_index(stage) as int
}

/// The mask of a flag within its word.
pub open spec fn flag_mask(flag_index: u32) -> u64 {
    1u64 << (flag_index % FLAGS_PER_BANK) as u64
}

/// Whether a flag is set, given the words of the flag area. There is no flag
/// at an index of `FLAG_COUNT` or above, nor in a word that was not read.
pub open spec fn flag_set(words: Seq<u64>, stage: Stage, flag_index: u32) -> bool {
    &&& flag_index < FLAG_COUNT
    &&& flag_word(stage, flag_index) < words.len()
    &&& words[flag_word(stage, flag_index)] & flag_mask(flag_index) != 0
}

/// Finds the word of the flag area that holds a flag, and its mask there.
pub fn flag_position(stage: Stage, flag_index: u32) -> (r: (usize, u64))
    requires
        flag_index < FLAG_COUNT,
    ensures
        r.0 == flag_word(stage, flag_index),
        r.0 < FLAG_WORDS,
        r.1 == flag_mask(flag_index),
{
    let bank = flag_index / FLAGS_PER_BANK;
    let bit = flag_index % FLAGS_PER_BANK;
    let word = bank as usize * STAGE_COUNT as usize + stage.index() as usize;
    (word, 1u64 << bit as u64)
}

/// What the game state source shows at one moment: where the player is, the
/// menu signals, the progress flags and the inventory.
#[derive(Debug)]
pub struct GameView {
    pub map_id: u16,
    pub room_id: u16,
    pub at_main_menu: bool,
    pub new_game_start: bool,
    pub defeated_final_boss: bool,
    /// The words of the flag area (see `FLAG_WORDS`); empty where the source
    /// cannot read flags.
    pub flag_words: Vec<u64>,
    /// The items held; empty where the source cannot read the inventory.
    pub held_items: Vec<i16>,
}

impl GameView {
    pub open spec fn location(&self) -> (u16, u16) {
        (self.map_id, self.room_id)
    }

    pub open spec fn holds(&self, item: Item) -> bool {
        self.held_items@.contains(item_number(item))
    }

    pub open spec fn flag_is_set(&self, stage: Stage, flag_index: u32) -> bool {
        flag_set(self.flag_words@, stage, flag_index)
    }

    /// The current location: map and room.
    pub fn room(&self) -> (r: (u16, u16))
        ensures
            r == self.location(),
    {
        (self.map_id, self.room_id)
    }

    /// Whether a progress flag is set.
    pub fn flag(&self, stage: Stage, flag_index: u32) -> (r: bool)
        ensures
            r == self.flag_is_set(stage, flag_index),
    {
        if flag_index >= FLAG_COUNT {
            return false;
        }
        let (word, mask) = flag_position(stage, flag_index);
        if word >= self.flag_words.len() {
            return false;
        }
        self.flag_words[word] & mask != 0
    }

    /// Whether an item is in the inventory.
    pub fn has_item(&self, item: Item) -> (r: bool)
        ensures
            r == self.holds(item),
    {
        let id = item.id();
        let mut i: usize = 0;
        while i < self.held_items.len()
            invariant
                i <= self.held_items.len(),
                id == item_number(item),
                forall|j: int| 0 <= j < i ==> self.held_items@[j] != id,
            decreases self.held_items.len() - i,
        {
            if self.held_items[i] == id {
                assert(self.held_items@[i as int] == id);
                return true;
            }
            i = i + 1;
        }
        false
    }
}

} // verus!
