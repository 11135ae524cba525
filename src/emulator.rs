use vstd::prelude::*;
use vstd::string::StringSliceAdditionalSpecFns;

use crate::game::{flag_mask, flag_position, flag_set, flag_word, GameView, Stage, FLAG_COUNT};
use crate::text::bytes_equal;

verus! {

/// The text that a known version of the game holds at its search-string
/// address.
pub open spec fn search_string() -> Seq<u8> {
    "GALERIANS".spec_bytes()
}

/// Bytes to read at the search-string address.
pub const SEARCH_STRING_LEN: usize = 9;

/// Main-menu states from here on mean that a new game is starting.
pub const NEW_GAME_MENU_STATE: i32 = 99;

/// Main-menu states from here on mean that the trailer plays.
pub const TRAILER_MENU_STATE: i32 = 200;

/// The flags of the last stage that are all set once the final encounter is
/// won.
pub const GAME_END_FLAGS: [u32; 4] = [37, 38, 39, 80];

/// Bytes in one bank of flags, for all four stages.
pub const FLAG_BANK_SIZE: u32 = 32;

/// Bytes of the whole flag area, all three banks.
pub const FLAG_AREA_SIZE: u32 = 96;

/// Entries in the inventory.
pub const MAX_ITEMS: usize = 41;

/// Bytes of emulated RAM that a game address can reach.
pub const RAM_ADDRESS_MASK: u32 = 0x1FFFFFF;

/// Where one version of the game keeps what is watched in its memory.
#[derive(Debug, Clone, Copy)]
pub struct GameVersion {
    pub name: &'static str,
    pub search_string_address: u32,
    pub main_menu_state_address: u32,
    pub menu_module_id_address: u32,
    pub main_menu_module_id: i16,
    pub map_id_address: u32,
    pub room_id_address: u32,
    pub flag_banks_address: u32,
    pub inventory_address: u32,
    pub inventory_count_address: u32,
}

/// What was read from the game's memory at the addresses of a version.
#[derive(Debug)]
pub struct MemorySnapshot {
    pub menu_module_id: i16,
    pub main_menu_state: i32,
    pub map_id: u16,
    pub room_id: u16,
    /// The words of the flag area, from `flag_banks_address` on.
    pub flag_words: Vec<u64>,
    pub inventory_count: u16,
    /// The inventory entries, from `inventory_address` on.
    pub inventory: Vec<i16>,
}

/// The main-menu state, or -1 where the main menu is not the module shown.
pub open spec fn menu_state(v: GameVersion, menu_module_id: i16, main_menu_state: i32) -> i32 {
    if menu_module_id != v.main_menu_module_id {
        -1i32
    } else {
        main_menu_state
    }
}

/// Whether all the flags that mark the end of the game are set.
pub open spec fn game_end_flags_set(words: Seq<u64>) -> bool {
    forall|i: int| 0 <= i < 4 ==> flag_set(words, Stage::D, #[trigger] GAME_END_FLAGS@[i])
}

/// The game as a snapshot of its memory shows it.
pub open spec fn snapshot_view(v: GameVersion, m: MemorySnapshot) -> GameView {
    let state = menu_state(v, m.menu_module_id, m.main_menu_state);
    GameView {
        map_id: m.map_id,
        room_id: m.room_id,
        at_main_menu: 0 <= state < NEW_GAME_MENU_STATE,
        new_game_start: NEW_GAME_MENU_STATE <= state < TRAILER_MENU_STATE,
        defeated_final_boss: game_end_flags_set(m.flag_words@),
        flag_words: m.flag_words,
        held_items: m.inventory,
    }
}

impl GameVersion {
    pub open spec fn wf(&self) -> bool {
        self.flag_banks_address <= u32::MAX - FLAG_AREA_SIZE
    }

    /// The address of the word that holds a flag, and the flag's mask in it.
    pub fn flag_bank_address(&self, stage: Stage, flag_index: u32) -> (r: (u32, u64))
        requires
            self.wf(),
            flag_index < FLAG_COUNT,
        ensures
            r.0 == self.flag_banks_address + 8 * flag_word(stage, flag_index),
            r.1 == flag_mask(flag_index),
    {
        let (word, mask) = flag_position(stage, flag_index);
        (self.flag_banks_address + 8 * word as u32, mask)
    }

    /// Whether the bytes read at this version's search-string address show
    /// that this version is loaded.
    pub fn validate(&self, found: &[u8]) -> (r: bool)
        ensures
            r == (found@ == search_string()),
    {
        bytes_equal(found, "GALERIANS".as_bytes())
    }

    /// Which of the known versions is loaded, given what was read at each
    /// one's search-string address (`found[i]` for `game_versions()[i]`): the
    /// first that shows the search string.
    pub fn detect(found: &Vec<Vec<u8>>) -> (r: Option<usize>)
        ensures
            r matches Some(i) ==> i < found.len() && found@[i as int]@ == search_string() && forall|
                j: int,
            | 0 <= j < i ==> found@[j]@ != search_string(),
            r is None ==> forall|j: int| 0 <= j < found.len() ==> found@[j]@ != search_string(),
    {
        let mut i: usize = 0;
        while i < found.len()
            invariant
                i <= found.len(),
                forall|j: int| 0 <= j < i ==> found@[j]@ != search_string(),
            decreases found.len() - i,
        {
            if bytes_equal(found[i].as_slice(), "GALERIANS".as_bytes()) {
                return Some(i);
            }
            i = i + 1;
        }
        None
    }

    /// The main-menu state, or -1 where the main menu is not the module shown.
    pub fn main_menu_state(&self, menu_module_id: i16, main_menu_state: i32) -> (r: i32)
        ensures
            r == menu_state(*self, menu_module_id, main_menu_state),
    {
        if menu_module_id != self.main_menu_module_id {
            -1
        } else {
            main_menu_state
        }
    }

    /// What a snapshot of this version's memory shows of the game. The held
    /// items are the first `inventory_count` entries of the inventory.
    pub fn view(&self, snapshot: MemorySnapshot) -> (r: GameView)
        requires
            snapshot.inventory_count as int <= snapshot.inventory.len(),
        ensures
            r == (GameView {
                held_items: r.held_items,
                ..snapshot_view(*self, snapshot)
            }),
            r.held_items@ == snapshot.inventory@.subrange(0, snapshot.inventory_count as int),
    {
        let state = self.main_menu_state(snapshot.menu_module_id, snapshot.main_menu_state);
        let MemorySnapshot {
            menu_module_id: _,
            main_menu_state: _,
            map_id,
            room_id,
            flag_words,
            inventory_count,
            inventory,
        } = snapshot;
        let mut held_items = inventory;
        held_items.truncate(inventory_count as usize);
        let mut view = GameView {
            map_id,
            room_id,
            at_main_menu: 0 <= state && state < NEW_GAME_MENU_STATE,
            new_game_start: NEW_GAME_MENU_STATE <= state && state < TRAILER_MENU_STATE,
            defeated_final_boss: false,
            flag_words,
            held_items,
        };
        let mut defeated = true;
        let mut i: usize = 0;
        while i < 4
            invariant
                i <= 4,
                defeated == forall|j: int|
                    0 <= j < i ==> flag_set(view.flag_words@, Stage::D, #[trigger] GAME_END_FLAGS@[j]),
            decreases 4 - i,
        {
            defeated = defeated && view.flag(Stage::D, GAME_END_FLAGS[i]);
            i = i + 1;
        }
        view.defeated_final_boss = defeated;
        view
    }
}

/// The known versions of the game.
pub fn game_versions() -> (r: Vec<GameVersion>)
    ensures
        r@.len() == 2,
        forall|i: int| 0 <= i < 2 ==> (#[trigger] r@[i]).wf(),
{
    let ntsc_u = GameVersion {
        name: "NTSC-U",
        search_string_address: 0x8011AE40,
        main_menu_state_address: 0x801FCF00,
        menu_module_id_address: 0x80190E9C,
        main_menu_module_id: 111,
        map_id_address: 0x801912DC,
        room_id_address: 0x801912DE,
        flag_banks_address: 0x801AF9A0,
        inventory_address: 0x801AFAAC,
        inventory_count_address: 0x801AFAFE,
    };
    let ntsc_j = GameVersion {
        name: "NTSC-J",
        search_string_address: 0x80193830,
        main_menu_state_address: 0x801FE2E0,
        menu_module_id_address: 0x80190E08,
        main_menu_module_id: 112,
        map_id_address: 0x801912B4,
        room_id_address: 0x801912B6,
        flag_banks_address: 0x801AFFA0,
        inventory_address: 0x801B00AC,
        inventory_count_address: 0x801B00FE,
    };
    vec![ntsc_u, ntsc_j]
}

/// Where in the emulated RAM a read of `size` bytes at a game address starts;
/// none where the address lies beyond a RAM of `ram_size` bytes, or the read
/// would pass its end.
pub fn ram_offset(address: u32, size: usize, ram_size: usize) -> (r: Option<usize>)
    ensures
        r matches Some(o) ==> o == (address & RAM_ADDRESS_MASK) && o + size <= ram_size,
        r is None ==> (address & RAM_ADDRESS_MASK) >= ram_size || (address & RAM_ADDRESS_MASK) as int
            + size > ram_size,
{
    let offset = (address & RAM_ADDRESS_MASK) as usize;
    if offset >= ram_size || size > ram_size - offset {
        None
    } else {
        Some(offset)
    }
}

/// An emulator whose RAM can be watched.
#[derive(Debug, Clone, Copy, PartialEq, Eq, Structural)]
pub enum EmulatorType {
    DuckStation,
    PcsxRedux,
}

impl EmulatorType {
    pub fn all() -> (r: [EmulatorType; 2])
        ensures
            r@ == seq![EmulatorType::DuckStation, EmulatorType::PcsxRedux],
    {
        let r = [EmulatorType::DuckStation, EmulatorType::PcsxRedux];
        assert(r@ =~= seq![EmulatorType::DuckStation, EmulatorType::PcsxRedux]);
        r
    }

    /// The start of the name of the shared memory under which the emulator
    /// offers its RAM; the process id follows.
    pub fn prefix(&self) -> (r: &'static str)
        ensures
            r@ == match *self {
                EmulatorType::DuckStation => "duckstation_"@,
                EmulatorType::PcsxRedux => "pcsx-redux-wram-"@,
            },
    {
        match self {
            EmulatorType::DuckStation => "duckstation_",
            EmulatorType::PcsxRedux => "pcsx-redux-wram-",
        }
    }

    pub fn name(&self) -> (r: &'static str)
        ensures
            r@ == match *self {
                EmulatorType::DuckStation => "DuckStation"@,
                EmulatorType::PcsxRedux => "PCSX-Redux"@,
            },
    {
        match self {
            EmulatorType::DuckStation => "DuckStation",
            EmulatorType::PcsxRedux => "PCSX-Redux",
        }
    }

    /// What the lower-case name of the emulator's executable contains.
    pub fn exe_substring(&self) -> (r: &'static str)
        ensures
            r@ == match *self {
                EmulatorType::DuckStation => "duckstation"@,
                EmulatorType::PcsxRedux => "pcsx-redux"@,
            },
    {
        match self {
            EmulatorType::DuckStation => "duckstation",
            EmulatorType::PcsxRedux => "pcsx-redux",
        }
    }
}

} // verus!
