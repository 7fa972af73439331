//! Small steps that drive the game's own menus.
use vstd::prelude::*;

use crate::th19::{GameMode, Input, Menu, PlayerMatchup, ScreenId, Th19};

verus! {

/// Presses SHOT on every other frame, so that the game sees a fresh press.
pub fn shot_repeatedly(prev: Input) -> (r: Input)
    ensures
        r == if prev.0 == Input::SHOT as u32 {
            Input(Input::NULL as u32)
        } else {
            Input(Input::SHOT as u32)
        },
{
    if prev.0 == Input::SHOT as u32 {
        Input(Input::NULL as u32)
    } else {
        Input(Input::SHOT as u32)
    }
}

/// Puts the cursor on `target` and presses SHOT on it.
pub fn select_cursor(
    current_input: &mut Input,
    prev_input: Input,
    current_cursor: &mut u32,
    target: u32,
)
    ensures
        *final(current_cursor) == target,
        *final(current_input) == if prev_input.0 == Input::SHOT as u32 {
            Input(Input::NULL as u32)
        } else {
            Input(Input::SHOT as u32)
        },
{
    if *current_cursor != target {
        *current_cursor = target;
    }
    *current_input = shot_repeatedly(prev_input);
}

/// The menu has reached the difficulty select of a local versus match: the
/// game mode is versus (2) and the matchup is human or CPU on both sides
/// (0 to 2).
pub open spec fn local_versus_reached(screen: ScreenId, game_mode: u32, matchup: u32) -> bool {
    &&& screen == ScreenId::DifficultySelect
    &&& game_mode == 2
    &&& matchup <= 2
}

/// Executable form of `local_versus_reached`.
pub fn is_local_versus_reached(screen: ScreenId, game_mode: u32, matchup: u32) -> (r: bool)
    ensures
        r == local_versus_reached(screen, game_mode, matchup),
{
    screen == ScreenId::DifficultySelect && game_mode == 2 && matchup <= 2
}

/// Takes the game's menus one step towards the difficulty select of a local
/// versus match with `target_player_matchup`. Returns whether it is there.
pub fn move_to_local_versus_difficulty_select(
    th19: &mut Th19,
    menu: &mut Menu,
    target_player_matchup: PlayerMatchup,
) -> (r: bool)
    ensures
        r == local_versus_reached(old(menu).screen_id, old(th19).game_mode, old(th19).player_matchup),
        final(th19).input_devices == old(th19).input_devices,
        final(th19).round == old(th19).round,
        final(th19).menu == old(th19).menu,
        final(th19).prev_menu_input == old(th19).prev_menu_input,
        final(menu).screen_id == old(menu).screen_id,
        old(menu).screen_id == ScreenId::Title ==> final(menu).cursor == 1,
        old(menu).screen_id == ScreenId::PlayerMatchupSelect ==> final(menu).cursor == if target_player_matchup == PlayerMatchup::HumanVsCpu {
            1u32
        } else {
            0u32
        },
        old(menu).screen_id == ScreenId::Title || old(menu).screen_id == ScreenId::PlayerMatchupSelect
            ==> final(th19).menu_input == if old(th19).prev_menu_input.0 == Input::SHOT as u32 {
            Input(Input::NULL as u32)
        } else {
            Input(Input::SHOT as u32)
        },
        !(old(menu).screen_id == ScreenId::Title || old(menu).screen_id == ScreenId::PlayerMatchupSelect)
            ==> *final(th19) == *old(th19) && *final(menu) == *old(menu),
{
    let prev = th19.prev_menu_input;
    match menu.screen_id {
        ScreenId::Title => {
            select_cursor(&mut th19.menu_input, prev, &mut menu.cursor, 1);
            false
        },
        ScreenId::PlayerMatchupSelect => {
            let target: u32 = if target_player_matchup == PlayerMatchup::HumanVsCpu {
                1
            } else {
                0
            };
            select_cursor(&mut th19.menu_input, prev, &mut menu.cursor, target);
            false
        },
        ScreenId::DifficultySelect => {
            match (GameMode::from_u32(th19.game_mode), PlayerMatchup::from_u32(th19.player_matchup)) {
                (
                    Some(GameMode::Versus),
                    Some(PlayerMatchup::HumanVsHuman),
                ) | (Some(GameMode::Versus), Some(PlayerMatchup::HumanVsCpu)) | (
                    Some(GameMode::Versus),
                    Some(PlayerMatchup::CpuVsCpu),
                ) => true,
                _ => false,
            }
        },
        _ => false,
    }
}

} // verus!
