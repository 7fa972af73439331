use std::sync::mpsc::channel;

use junowen::session::{RoundInitial, SessionError};
use junowen::spectator::{SpectatorInitial, SpectatorMessage, SpectatorSessionGuest};
use junowen::state::junowen_state::JunowenState;
use junowen::state::spectator_session_state::SpectatorSessionState;
use junowen::th19::{
    CharacterCursor, DevicesInput, GameSettings, Input, InputDevice, Menu, RoundFrame, ScreenId,
    Th19,
};

fn menu(screen_id: ScreenId) -> Menu {
    let cursor = CharacterCursor { cursor: 0, prev_cursor: 0 };
    Menu { screen_id, cursor: 0, max_cursor: 0, p1_cursor: cursor, p2_cursor: cursor }
}

fn th19() -> Th19 {
    let device = InputDevice { input: Input(0), prev_input: Input(0) };
    Th19 {
        input_devices: DevicesInput { input_device_array: vec![device, device], p1_input_idx: 0, p2_input_idx: 1 },
        menu_input: Input(0),
        prev_menu_input: Input(0),
        inputed_number: None,
        rand_seed1: 0,
        rand_seed2: 0,
        rand_seed3: 0,
        rand_seed4: 0,
        no_wait: false,
        game_settings_in_menu: GameSettings::default(),
        game_settings_in_game: GameSettings::default(),
        player_name: String::new(),
        game_mode: 2,
        player_matchup: 0,
        menu: None,
        round: None,
    }
}

fn initial() -> SpectatorInitial {
    SpectatorInitial::new("alice".to_owned(), "bob".to_owned(), GameSettings { common: 4, p1: 5, p2: 6 })
}

#[test]
fn spectator_receives_initial_seeds_and_pairs() {
    let (tx, rx) = channel();
    let mut session = SpectatorSessionGuest::new(rx);
    tx.send(SpectatorMessage::Initial(initial())).unwrap();
    tx.send(SpectatorMessage::InitRound(RoundInitial { seed1: 1, seed2: 2, seed3: 3, seed4: 4 })).unwrap();
    tx.send(SpectatorMessage::Inputs(7, 8)).unwrap();
    assert_eq!(session.recv_init_spectator(), Ok(()));
    let got = session.spectator_initial().unwrap();
    assert_eq!(got.p1_name(), "alice");
    assert_eq!(got.p2_name(), "bob");
    assert_eq!(got.game_settings(), GameSettings { common: 4, p1: 5, p2: 6 });
    // A second call keeps what arrived and reads nothing.
    assert_eq!(session.recv_init_spectator(), Ok(()));
    assert_eq!(session.recv_init_round(), Ok(RoundInitial { seed1: 1, seed2: 2, seed3: 3, seed4: 4 }));
    assert_eq!(session.dequeue_inputs(), Ok((7, 8)));
    drop(tx);
    assert_eq!(session.dequeue_inputs(), Err(SessionError::Disconnected));
    assert_eq!(session.recv_init_round(), Err(SessionError::Disconnected));
}

#[test]
fn spectator_refuses_out_of_order_message() {
    let (tx, rx) = channel();
    let mut session = SpectatorSessionGuest::new(rx);
    tx.send(SpectatorMessage::Inputs(1, 2)).unwrap();
    assert_eq!(session.recv_init_round(), Err(SessionError::UnexpectedMessage));
}

#[test]
fn spectator_follows_select_and_round() {
    let (tx, rx) = channel();
    let mut state = SpectatorSessionState::prepare(SpectatorSessionGuest::new(rx));
    let mut t = th19();
    t.menu = Some(menu(ScreenId::DifficultySelect));
    state.update_state(&t);
    assert!(matches!(state, SpectatorSessionState::Select { first_time: true, .. }));
    tx.send(SpectatorMessage::Initial(initial())).unwrap();
    tx.send(SpectatorMessage::InitRound(RoundInitial { seed1: 1, seed2: 2, seed3: 3, seed4: 4 })).unwrap();
    t.menu = Some(menu(ScreenId::CharacterSelect));
    tx.send(SpectatorMessage::Inputs(0x10, 0x20)).unwrap();
    let m = t.menu;
    assert_eq!(state.update_th19_on_input_players(m, &mut t), Ok(()));
    assert_eq!((t.rand_seed1, t.rand_seed2, t.rand_seed3, t.rand_seed4), (1, 2, 3, 4));
    assert_eq!(t.input_devices.p1_input(), Input(0x10));
    assert_eq!(t.input_devices.p2_input(), Input(0x20));
    assert_eq!(state.game_settings(), Some(GameSettings { common: 4, p1: 5, p2: 6 }));

    t.menu = Some(menu(ScreenId::GameLoading));
    state.update_state(&t);
    t.round = Some(RoundFrame { pre_frame: 0xffff_ffff, frame: 0 });
    state.update_state(&t);
    assert!(matches!(state, SpectatorSessionState::Game { .. }));
    t.round = Some(RoundFrame { pre_frame: 0, frame: 1 });
    tx.send(SpectatorMessage::Inputs(3, 4)).unwrap();
    assert_eq!(state.update_th19_on_input_players(None, &mut t), Ok(()));
    assert_eq!(t.input_devices.p1_input(), Input(3));
    assert_eq!(t.input_devices.p2_input(), Input(4));

    tx.send(SpectatorMessage::InitRound(RoundInitial { seed1: 9, seed2: 9, seed3: 9, seed4: 9 })).unwrap();
    assert_eq!(state.on_round_over(&mut t), Ok(()));
    assert_eq!(t.rand_seed1, 9);
}

#[test]
fn start_ends_watching() {
    let (tx, rx) = channel::<SpectatorMessage>();
    tx.send(SpectatorMessage::Initial(initial())).unwrap();
    tx.send(SpectatorMessage::InitRound(RoundInitial { seed1: 1, seed2: 2, seed3: 3, seed4: 4 })).unwrap();
    let mut state = JunowenState::Standby;
    state.start_spectator_session(SpectatorSessionGuest::new(rx));
    let mut t = th19();
    t.menu = Some(menu(ScreenId::DifficultySelect));
    let mut waiting = None;
    assert_eq!(state.on_input_players(&mut t, &mut waiting), Ok(()));
    assert!(state.has_session());
    t.menu = Some(menu(ScreenId::CharacterSelect));
    t.input_devices.set_p1_input(Input(Input::START as u32));
    assert_eq!(state.on_input_players(&mut t, &mut waiting), Ok(()));
    assert!(!state.has_session());
}

#[test]
fn start_on_difficulty_select_leaves_even_when_closed() {
    let (tx, rx) = channel::<SpectatorMessage>();
    tx.send(SpectatorMessage::Initial(initial())).unwrap();
    tx.send(SpectatorMessage::InitRound(RoundInitial { seed1: 1, seed2: 2, seed3: 3, seed4: 4 })).unwrap();
    let mut state = SpectatorSessionState::prepare(SpectatorSessionGuest::new(rx));
    let mut t = th19();
    t.menu = Some(menu(ScreenId::DifficultySelect));
    state.update_state(&t);
    let m = t.menu;
    assert_eq!(state.update_th19_on_input_players(m, &mut t), Ok(()));
    drop(tx);
    // Off START the menu input is relayed, and the closed channel shows.
    assert_eq!(state.on_input_menu(&mut t), Err(SessionError::Disconnected));
    t.menu_input = Input(Input::START as u32);
    assert_eq!(state.on_input_menu(&mut t), Ok(false));
}
