use std::sync::mpsc::channel;

use junowen::session::{BattleSession, Message, SessionError};
use junowen::state::battle_session_state::BattleSessionState;
use junowen::state::junowen_state::{JunowenState, WaitingForMatch};
use junowen::th19::{
    CharacterCursor, DevicesInput, GameSettings, Input, InputDevice, Menu, RoundFrame, ScreenId,
    Th19,
};

fn menu(screen_id: ScreenId) -> Menu {
    let cursor = CharacterCursor { cursor: 0, prev_cursor: 0 };
    Menu { screen_id, cursor: 0, max_cursor: 0, p1_cursor: cursor, p2_cursor: cursor }
}

fn th19() -> Th19 {
    let device = InputDevice { input: Input(0), prev_input: Input(0) };
    Th19 {
        input_devices: DevicesInput {
            input_device_array: vec![device, device, device],
            p1_input_idx: 0,
            p2_input_idx: 1,
        },
        menu_input: Input(0),
        prev_menu_input: Input(0),
        inputed_number: None,
        rand_seed1: 11,
        rand_seed2: 12,
        rand_seed3: 13,
        rand_seed4: 14,
        no_wait: false,
        game_settings_in_menu: GameSettings { common: 1, p1: 2, p2: 3 },
        game_settings_in_game: GameSettings::default(),
        player_name: "me".to_owned(),
        game_mode: 2,
        player_matchup: 0,
        menu: None,
        round: None,
    }
}

#[test]
fn standby_without_waiting_session_stays() {
    let mut state = JunowenState::Standby;
    let mut t = th19();
    let mut waiting = None;
    assert_eq!(state.on_input_players(&mut t, &mut waiting), Ok(()));
    assert!(!state.has_session());
    assert_eq!(state.is_online_vs(0), 0);
    assert!(state.on_rewrite_controller_assignments());
    assert_eq!(state.game_settings(), None);
}

#[test]
fn waiting_session_starts_unless_online_menu_shows() {
    let (tx, _peer_rx) = channel();
    let (_peer_tx, rx) = channel();
    let mut state = JunowenState::Standby;
    let mut t = th19();
    t.menu = Some(menu(ScreenId::OnlineMenu));
    let mut waiting = Some(WaitingForMatch::Opponent(BattleSession::new(tx, rx, true)));
    assert_eq!(state.on_input_players(&mut t, &mut waiting), Ok(()));
    assert!(!state.has_session());
    // On the online menu the waiting entry is dropped.
    assert!(waiting.is_none());

    let (tx, _peer_rx) = channel();
    let (_peer_tx, rx) = channel();
    waiting = Some(WaitingForMatch::Opponent(BattleSession::new(tx, rx, true)));
    t.menu = Some(menu(ScreenId::Title));
    assert_eq!(state.on_input_players(&mut t, &mut waiting), Ok(()));
    assert!(waiting.is_none());
    assert!(matches!(state, JunowenState::BattleSession(BattleSessionState::Prepare { .. })));
    assert!(t.no_wait);
    assert_eq!(state.is_online_vs(0), 1);
    assert!(!state.on_rewrite_controller_assignments());
}

#[test]
fn disconnection_returns_to_standby_once() {
    let (tx, peer_rx) = channel();
    let (peer_tx, rx) = channel::<Message>();
    drop(peer_rx);
    drop(peer_tx);
    let mut state = JunowenState::Standby;
    let mut t = th19();
    let mut waiting = Some(WaitingForMatch::Opponent(BattleSession::new(tx, rx, true)));
    t.menu = Some(menu(ScreenId::Title));
    assert_eq!(state.on_input_players(&mut t, &mut waiting), Ok(()));
    // The menus reach the versus difficulty select: the select phase runs
    // its handshakes, which find the channel closed.
    t.menu = Some(menu(ScreenId::DifficultySelect));
    assert_eq!(state.on_input_players(&mut t, &mut waiting), Err(SessionError::Disconnected));
    assert!(!state.has_session());
    assert!(!t.no_wait);
    assert_eq!(state.on_input_players(&mut t, &mut waiting), Ok(()));
    assert!(!state.has_session());
}

#[test]
fn host_phases_through_a_round() {
    let (host_tx, peer_rx) = channel();
    let (peer_tx, host_rx) = channel();
    let session = BattleSession::new(host_tx, host_rx, true);
    let mut state = BattleSessionState::prepare(session);
    let mut t = th19();

    t.menu = Some(menu(ScreenId::DifficultySelect));
    assert_eq!(state.update_state(&t), Some(Some(menu(ScreenId::DifficultySelect))));
    assert!(matches!(state, BattleSessionState::Select { first_time: true, .. }));

    peer_tx.send(Message::InitMatch("peer".to_owned(), None)).unwrap();
    peer_tx.send(Message::InitRound(None)).unwrap();
    let m = t.menu;
    assert_eq!(state.update_th19_on_input_players(m, &mut t), Ok(()));
    assert!(matches!(peer_rx.recv().unwrap(), Message::InitMatch(_, Some(_))));
    assert!(matches!(peer_rx.recv().unwrap(), Message::InitRound(Some(_))));
    assert_eq!(state.game_settings(), Some(GameSettings { common: 1, p1: 2, p2: 3 }));

    t.menu = Some(menu(ScreenId::GameLoading));
    state.update_state(&t);
    assert!(matches!(state, BattleSessionState::GameLoading { .. }));

    t.round = Some(RoundFrame { pre_frame: 0xffff_ffff, frame: 0 });
    assert_eq!(state.update_state(&t), Some(None));
    assert!(matches!(state, BattleSessionState::Game { .. }));

    // Frame zero is not synchronized: both players are idle.
    t.input_devices.set_p1_input(Input(5));
    assert_eq!(state.update_th19_on_input_players(None, &mut t), Ok(()));
    assert_eq!(t.input_devices.p1_input(), Input(0));
    assert_eq!(t.input_devices.p2_input(), Input(0));

    t.round = None;
    state.update_state(&t);
    assert!(matches!(state, BattleSessionState::BackToSelect { .. }));
    t.menu = Some(menu(ScreenId::CharacterSelect));
    state.update_state(&t);
    assert!(matches!(state, BattleSessionState::Select { first_time: true, .. }));
}

#[test]
fn select_ends_match_on_matchup_select() {
    let (tx, _peer_rx) = channel();
    let (_peer_tx, rx) = channel();
    let mut state = BattleSessionState::prepare(BattleSession::new(tx, rx, true));
    let mut t = th19();
    t.menu = Some(menu(ScreenId::DifficultySelect));
    state.update_state(&t);
    t.menu = Some(menu(ScreenId::PlayerMatchupSelect));
    assert_eq!(state.update_state(&t), None);
}

#[test]
fn loaded_settings_follow_the_match() {
    let (tx, _peer_rx) = channel();
    let (_peer_tx, rx) = channel();
    let mut session = BattleSession::new(tx, rx, true);
    let agreed = GameSettings { common: 7, p1: 8, p2: 9 };
    session.set_match_initial(Some(junowen::session::MatchInitial { game_settings: agreed }));
    let state = JunowenState::BattleSession(BattleSessionState::prepare(session));
    let mut t = th19();
    state.on_loaded_game_settings(&mut t);
    assert_eq!(t.game_settings_in_game, agreed);
}

#[test]
fn round_sends_only_the_low_eight_bits() {
    let (host_tx, peer_rx) = channel();
    let (peer_tx, host_rx) = channel();
    let mut session = BattleSession::new(host_tx, host_rx, true);
    let mut t = th19();
    t.round = Some(RoundFrame { pre_frame: 0, frame: 1 });
    t.input_devices.set_p1_input(Input(Input::START as u32 | Input::SHOT as u32));
    peer_tx.send(Message::Input(junowen::delayed_inputs::InputFrame { input: 0, delay: 1 })).unwrap();
    assert_eq!(junowen::state::game::on_input_players(&mut session, &mut t), Ok(()));
    match peer_rx.recv().unwrap() {
        Message::Input(frame) => assert_eq!(frame.input, Input::SHOT),
        _ => panic!("expected an input frame"),
    }
}
