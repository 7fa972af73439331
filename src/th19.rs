//! Plain-value model of the host game process: the registers and screens
//! that the synchronization logic reads and writes.
use vstd::prelude::*;

verus! {

/// Bitmask of held buttons and directions for one frame.
#[derive(Clone, Copy, Debug, PartialEq, Eq, Structural)]
pub struct Input(pub u32);

impl Input {
    pub const NULL: u16 = 0;
    pub const SHOT: u16 = 1;
    pub const CHARGE: u16 = 2;
    pub const BOMB: u16 = 4;
    pub const SLOW: u16 = 8;
    pub const UP: u16 = 16;
    pub const DOWN: u16 = 32;
    pub const LEFT: u16 = 64;
    pub const RIGHT: u16 = 128;
    pub const START: u16 = 256;

    /// Whether the START button is held.
    pub fn is_start(self) -> (r: bool)
        ensures
            r == (self.0 & 256u32 != 0),
    {
        self.0 & 256u32 != 0
    }
}

/// One input device: the input of this frame and of the previous one.
#[derive(Clone, Copy, Debug, PartialEq, Eq, Structural)]
pub struct InputDevice {
    pub input: Input,
    pub prev_input: Input,
}

/// The input devices, and which of them player 1 and player 2 use.
#[derive(Clone, Debug)]
pub struct DevicesInput {
    pub input_device_array: Vec<InputDevice>,
    pub p1_input_idx: u32,
    pub p2_input_idx: u32,
}

impl DevicesInput {
    /// Both player indices name a device.
    pub open spec fn wf(&self) -> bool {
        &&& (self.p1_input_idx as int) < self.input_device_array@.len()
        &&& (self.p2_input_idx as int) < self.input_device_array@.len()
    }

    pub open spec fn p1_device(&self) -> InputDevice {
        self.input_device_array@[self.p1_input_idx as int]
    }

    pub open spec fn p2_device(&self) -> InputDevice {
        self.input_device_array@[self.p2_input_idx as int]
    }

    pub fn p1_input(&self) -> (r: Input)
        requires
            self.wf(),
        ensures
            r == self.p1_device().input,
    {
        self.input_device_array[self.p1_input_idx as usize].input
    }

    pub fn set_p1_input(&mut self, value: Input)
        requires
            (old(self).p1_input_idx as int) < old(self).input_device_array@.len(),
        ensures
            old(self).wf() ==> final(self).wf(),
            final(self).p1_input_idx == old(self).p1_input_idx,
            final(self).p2_input_idx == old(self).p2_input_idx,
            final(self).input_device_array@ == old(self).input_device_array@.update(
                old(self).p1_input_idx as int,
                InputDevice { input: value, prev_input: old(self).p1_device().prev_input },
            ),
    {
        let i = self.p1_input_idx as usize;
        let prev = self.input_device_array[i].prev_input;
        self.input_device_array.set(i, InputDevice { input: value, prev_input: prev });
    }

    pub fn p1_prev_input(&self) -> (r: Input)
        requires
            self.wf(),
        ensures
            r == self.p1_device().prev_input,
    {
        self.input_device_array[self.p1_input_idx as usize].prev_input
    }

    pub fn p2_input(&self) -> (r: Input)
        requires
            self.wf(),
        ensures
            r == self.p2_device().input,
    {
        self.input_device_array[self.p2_input_idx as usize].input
    }

    pub fn set_p2_input(&mut self, value: Input)
        requires
            (old(self).p2_input_idx as int) < old(self).input_device_array@.len(),
        ensures
            old(self).wf() ==> final(self).wf(),
            final(self).p1_input_idx == old(self).p1_input_idx,
            final(self).p2_input_idx == old(self).p2_input_idx,
            final(self).input_device_array@ == old(self).input_device_array@.update(
                old(self).p2_input_idx as int,
                InputDevice { input: value, prev_input: old(self).p2_device().prev_input },
            ),
    {
        let i = self.p2_input_idx as usize;
        let prev = self.input_device_array[i].prev_input;
        self.input_device_array.set(i, InputDevice { input: value, prev_input: prev });
    }

    pub fn p2_prev_input(&self) -> (r: Input)
        requires
            self.wf(),
        ensures
            r == self.p2_device().prev_input,
    {
        self.input_device_array[self.p2_input_idx as usize].prev_input
    }
}

/// Match rules and the two players' settings, as the game keeps them.
#[derive(Clone, Copy, Debug, Default, PartialEq, Eq, Structural)]
pub struct GameSettings {
    pub common: u32,
    pub p1: u32,
    pub p2: u32,
}

/// The game's settings block.
#[derive(Clone, Copy, Debug, PartialEq, Eq, Structural)]
pub struct Settings {
    pub game_settings: GameSettings,
}

/// Frame counters of the round in progress.
#[derive(Clone, Copy, Debug, PartialEq, Eq, Structural)]
pub struct RoundFrame {
    pub pre_frame: u32,
    pub frame: u32,
}

impl RoundFrame {
    pub open spec fn first_frame(&self) -> bool {
        self.pre_frame == 0xffff_ffff && self.frame == 0
    }

    /// The round has just started: no frame before, frame zero now.
    pub fn is_first_frame(&self) -> (r: bool)
        ensures
            r == self.first_frame(),
    {
        self.pre_frame == 0xffff_ffff && self.frame == 0
    }
}

/// Frame counters of the game in progress.
#[derive(Clone, Copy, Debug, PartialEq, Eq, Structural)]
pub struct Game {
    pub pre_frame: u32,
    pub frame: u32,
}

impl Game {
    /// The game has just started: no frame before, frame zero now.
    pub fn is_first_frame(&self) -> (r: bool)
        ensures
            r == (self.pre_frame == 0xffff_ffff && self.frame == 0),
    {
        self.pre_frame == 0xffff_ffff && self.frame == 0
    }
}

/// Online versus mode: the names typed in and the cards chosen.
#[derive(Clone, Debug)]
pub struct VSMode {
    pub player_name: Vec<u8>,
    pub room_name: Vec<u8>,
    pub p1_card: u8,
    pub p2_card: u8,
}

/// Size of the game window's drawing area.
#[derive(Clone, Copy, Debug, PartialEq, Eq, Structural)]
pub struct WindowInner {
    pub width: u32,
    pub height: u32,
}

impl WindowInner {
    pub fn new(width: u32, height: u32) -> (r: Self)
        ensures
            r.width == width,
            r.height == height,
    {
        WindowInner { width, height }
    }

    pub fn width(&self) -> (r: u32)
        ensures
            r == self.width,
    {
        self.width
    }

    pub fn height(&self) -> (r: u32)
        ensures
            r == self.height,
    {
        self.height
    }
}

/// A player's character and card.
#[derive(Clone, Copy, Debug, PartialEq, Eq, Structural)]
pub struct Player {
    /// Not set on the player select screen.
    pub character: u32,
    /// Set on the player select screen.
    pub card: u32,
}

/// Task identifier of the menu in the main loop's task list.
pub const MENU_TASK_ID: u32 = 0x0a;

/// One task of the game's main loop.
#[derive(Clone, Copy, Debug, PartialEq, Eq, Structural)]
pub struct MainLoopTasksLinkedListItem {
    pub id: u32,
    pub arg: u32,
}

/// The tasks of the game's main loop, in list order.
#[derive(Clone, Debug)]
pub struct MainLoopTasksLinkedList {
    pub items: Vec<MainLoopTasksLinkedListItem>,
}

impl MainLoopTasksLinkedList {
    /// The list always holds its own node's task.
    pub open spec fn wf(&self) -> bool {
        self.items@.len() >= 1
    }

    pub fn len(&self) -> (r: usize)
        ensures
            r == self.items@.len(),
    {
        self.items.len()
    }

    /// Never true: the list always holds its own node's task.
    pub fn is_empty(&self) -> (r: bool)
        requires
            self.wf(),
        ensures
            !r,
    {
        self.items.len() == 0
    }

    /// The argument of the first menu task, if the list holds one.
    pub fn find_menu(&self) -> (r: Option<u32>)
        ensures
            r is None ==> forall|i: int| 0 <= i < self.items@.len() ==> #[trigger] self.items@[i].id != MENU_TASK_ID,
            r matches Some(a) ==> exists|i: int|
                0 <= i < self.items@.len() && #[trigger] self.items@[i].id == MENU_TASK_ID
                    && self.items@[i].arg == a
                    && forall|j: int| 0 <= j < i ==> #[trigger] self.items@[j].id != MENU_TASK_ID,
    {
        let mut i: usize = 0;
        while i < self.items.len()
            invariant
                i <= self.items@.len(),
                forall|j: int| 0 <= j < i ==> #[trigger] self.items@[j].id != MENU_TASK_ID,
            decreases self.items@.len() - i,
        {
            if self.items[i].id == MENU_TASK_ID {
                return Some(self.items[i].arg);
            }
            i = i + 1;
        }
        None
    }
}

/// The application object: its main loop's tasks.
#[derive(Clone, Debug)]
pub struct App {
    pub main_loop_tasks: MainLoopTasksLinkedList,
}

/// Difficulty levels.
#[derive(Clone, Copy, Debug, PartialEq, Eq, Structural)]
pub enum Difficulty {
    Easy,
    Normal,
    Hard,
    Lunatic,
}

impl Difficulty {
    pub fn from_u32(value: u32) -> (r: Option<Self>)
        ensures
            r is Some <==> value < 4,
            value == 0 ==> r == Some(Difficulty::Easy),
            value == 1 ==> r == Some(Difficulty::Normal),
            value == 2 ==> r == Some(Difficulty::Hard),
            value == 3 ==> r == Some(Difficulty::Lunatic),
    {
        match value {
            0 => Some(Difficulty::Easy),
            1 => Some(Difficulty::Normal),
            2 => Some(Difficulty::Hard),
            3 => Some(Difficulty::Lunatic),
            _ => None,
        }
    }
}

impl Default for Difficulty {
    fn default() -> (r: Self)
        ensures
            r == Difficulty::Normal,
    {
        Difficulty::Normal
    }
}

/// Game modes.
#[derive(Clone, Copy, Debug, PartialEq, Eq, Structural)]
pub enum GameMode {
    Story,
    Unused,
    Versus,
}

impl GameMode {
    pub fn from_u32(value: u32) -> (r: Option<Self>)
        ensures
            r is Some <==> value < 3,
            value == 0 ==> r == Some(GameMode::Story),
            value == 1 ==> r == Some(GameMode::Unused),
            value == 2 ==> r == Some(GameMode::Versus),
    {
        match value {
            0 => Some(GameMode::Story),
            1 => Some(GameMode::Unused),
            2 => Some(GameMode::Versus),
            _ => None,
        }
    }
}

/// Who controls the two sides.
#[derive(Clone, Copy, Debug, PartialEq, Eq, Structural)]
pub enum PlayerMatchup {
    HumanVsHuman,
    HumanVsCpu,
    CpuVsCpu,
    YoukaiVsYoukai,
}

impl PlayerMatchup {
    pub fn from_u32(value: u32) -> (r: Option<Self>)
        ensures
            r is Some <==> value < 4,
            value == 0 ==> r == Some(PlayerMatchup::HumanVsHuman),
            value == 1 ==> r == Some(PlayerMatchup::HumanVsCpu),
            value == 2 ==> r == Some(PlayerMatchup::CpuVsCpu),
            value == 3 ==> r == Some(PlayerMatchup::YoukaiVsYoukai),
    {
        match value {
            0 => Some(PlayerMatchup::HumanVsHuman),
            1 => Some(PlayerMatchup::HumanVsCpu),
            2 => Some(PlayerMatchup::CpuVsCpu),
            3 => Some(PlayerMatchup::YoukaiVsYoukai),
            _ => None,
        }
    }
}

impl Default for PlayerMatchup {
    fn default() -> (r: Self)
        ensures
            r == PlayerMatchup::HumanVsHuman,
    {
        PlayerMatchup::HumanVsHuman
    }
}

/// The screen that the game's menu shows.
#[derive(Clone, Copy, Debug, PartialEq, Eq, Structural)]
pub enum ScreenId {
    TitleLoading,
    Title,
    GameLoading,
    Option,
    ControllerSettings,
    GameSettings,
    Unknown2,
    DifficultySelect,
    PlayerMatchupSelect,
    OnlineMenu,
    CharacterSelect,
    Unknown3,
    Unknown4,
    Unknown5,
    Unknown6,
    MusicRoom,
    Unknown7,
    Unknown8,
    Manual,
    Unknown9,
    Archievements,
}

/// A player's cursor on the character select screen.
#[derive(Clone, Copy, Debug, PartialEq, Eq, Structural)]
pub struct CharacterCursor {
    pub cursor: u32,
    pub prev_cursor: u32,
}

/// The game's menu: its screen and cursors.
#[derive(Clone, Copy, Debug, PartialEq, Eq, Structural)]
pub struct Menu {
    pub screen_id: ScreenId,
    pub cursor: u32,
    pub max_cursor: u32,
    pub p1_cursor: CharacterCursor,
    pub p2_cursor: CharacterCursor,
}

/// What the synchronization logic sees of the game process in one tick, and
/// what it writes back: inputs, seeds, settings, the menu and the round.
#[derive(Clone, Debug)]
pub struct Th19 {
    pub input_devices: DevicesInput,
    pub menu_input: Input,
    pub prev_menu_input: Input,
    /// Number key pressed this tick on the keyboard, if any.
    pub inputed_number: Option<u8>,
    pub rand_seed1: u16,
    pub rand_seed2: u16,
    pub rand_seed3: u16,
    pub rand_seed4: u16,
    pub no_wait: bool,
    pub game_settings_in_menu: GameSettings,
    pub game_settings_in_game: GameSettings,
    pub player_name: String,
    pub game_mode: u32,
    pub player_matchup: u32,
    /// The menu that the main loop runs, if it runs one.
    pub menu: Option<Menu>,
    /// The round in progress, if any.
    pub round: Option<RoundFrame>,
}

impl Th19 {
    pub open spec fn wf(&self) -> bool {
        self.input_devices.wf()
    }

    /// `o` equals `self` in everything but the input devices.
    pub open spec fn same_except_devices(&self, o: &Th19) -> bool {
        &&& o.menu_input == self.menu_input
        &&& o.prev_menu_input == self.prev_menu_input
        &&& o.inputed_number == self.inputed_number
        &&& o.rand_seed1 == self.rand_seed1
        &&& o.rand_seed2 == self.rand_seed2
        &&& o.rand_seed3 == self.rand_seed3
        &&& o.rand_seed4 == self.rand_seed4
        &&& o.no_wait == self.no_wait
        &&& o.game_settings_in_menu == self.game_settings_in_menu
        &&& o.game_settings_in_game == self.game_settings_in_game
        &&& o.player_name@ == self.player_name@
        &&& o.game_mode == self.game_mode
        &&& o.player_matchup == self.player_matchup
        &&& o.menu == self.menu
        &&& o.round == self.round
    }

    /// `o` is `self` with player 1's input set to `p1`, then player 2's to
    /// `p2`.
    pub open spec fn players_set(&self, o: &Th19, p1: Input, p2: Input) -> bool {
        &&& self.same_except_devices(o)
        &&& o.input_devices.p1_input_idx == self.input_devices.p1_input_idx
        &&& o.input_devices.p2_input_idx == self.input_devices.p2_input_idx
        &&& o.input_devices.input_device_array@ == self.input_devices.input_device_array@.update(
            self.input_devices.p1_input_idx as int,
            InputDevice { input: p1, prev_input: self.input_devices.p1_device().prev_input },
        ).update(
            self.input_devices.p2_input_idx as int,
            InputDevice { input: p2, prev_input: self.input_devices.p2_device().prev_input },
        )
    }

    /// `o` is `self` with the four random seeds set from `a` .. `d`.
    pub open spec fn seeds_set(&self, o: &Th19, a: u16, b: u16, c: u16, d: u16) -> bool {
        &&& o.rand_seed1 == a
        &&& o.rand_seed2 == b
        &&& o.rand_seed3 == c
        &&& o.rand_seed4 == d
        &&& o.input_devices == self.input_devices
        &&& o.menu_input == self.menu_input
        &&& o.prev_menu_input == self.prev_menu_input
        &&& o.inputed_number == self.inputed_number
        &&& o.no_wait == self.no_wait
        &&& o.game_settings_in_menu == self.game_settings_in_menu
        &&& o.game_settings_in_game == self.game_settings_in_game
        &&& o.player_name@ == self.player_name@
        &&& o.game_mode == self.game_mode
        &&& o.player_matchup == self.player_matchup
        &&& o.menu == self.menu
        &&& o.round == self.round
    }

    /// Writes both players' inputs.
    pub fn set_player_inputs(&mut self, p1: Input, p2: Input)
        requires
            old(self).wf(),
        ensures
            final(self).wf(),
            old(self).players_set(final(self), p1, p2),
    {
        self.input_devices.set_p1_input(p1);
        self.input_devices.set_p2_input(p2);
    }
}

} // verus!
