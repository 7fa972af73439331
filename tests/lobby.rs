use junowen::in_game_lobby::common_menu::{
    CommonMenu, LobbyScene, MenuAction, MenuContent, MenuDefine, MenuItem, OnMenuInputResult,
    SOUND_CANCEL, SOUND_DECIDE, SOUND_SELECT,
};
use junowen::in_game_lobby::lobby::Root;
use junowen::th19::{
    DevicesInput, GameSettings, Input, InputDevice, Th19,
};

fn th19() -> Th19 {
    let device = InputDevice { input: Input(0), prev_input: Input(0) };
    Th19 {
        input_devices: DevicesInput { input_device_array: vec![device, device], p1_input_idx: 0, p2_input_idx: 1 },
        menu_input: Input(0),
        prev_menu_input: Input(0),
        inputed_number: None,
        rand_seed1: 0,
        rand_seed2: 0,
        rand_seed3: 0,
        rand_seed4: 0,
        no_wait: false,
        game_settings_in_menu: GameSettings::default(),
        game_settings_in_game: GameSettings::default(),
        player_name: String::new(),
        game_mode: 0,
        player_matchup: 0,
        menu: None,
        round: None,
    }
}

const IDLE: Input = Input(0);
const SHOT: Input = Input(Input::SHOT as u32);
const DOWN: Input = Input(Input::DOWN as u32);
const UP: Input = Input(Input::UP as u32);
const CHARGE: Input = Input(Input::CHARGE as u32);

fn actions_menu() -> CommonMenu {
    CommonMenu::new(
        "Test",
        false,
        100,
        MenuDefine::new(
            0,
            vec![
                MenuItem::new("Quiet", MenuContent::Action(MenuAction::Action(1, false))),
                MenuItem::new("Loud", MenuContent::Action(MenuAction::Action(2, true))),
            ],
        ),
    )
}

#[test]
fn shot_on_action_returns_it() {
    let mut menu = actions_menu();
    assert_eq!(menu.on_input_menu(SHOT, IDLE), OnMenuInputResult::Action(MenuAction::Action(1, false)));
    assert_eq!(menu.sound(), None);
    assert_eq!(menu.on_input_menu(DOWN, IDLE), OnMenuInputResult::Nothing);
    assert_eq!(menu.sound(), Some(SOUND_SELECT));
    assert_eq!(menu.on_input_menu(SHOT, IDLE), OnMenuInputResult::Action(MenuAction::Action(2, true)));
    assert_eq!(menu.sound(), Some(SOUND_DECIDE));
}

#[test]
fn cursor_stays_in_range() {
    let mut menu = actions_menu();
    assert_eq!(menu.on_input_menu(UP, IDLE), OnMenuInputResult::Nothing);
    assert_eq!(menu.cursor(), 0);
    assert_eq!(menu.sound(), None);
    menu.on_input_menu(IDLE, UP);
    menu.on_input_menu(DOWN, IDLE);
    menu.on_input_menu(IDLE, DOWN);
    menu.on_input_menu(DOWN, IDLE);
    assert_eq!(menu.cursor(), 1);
}

#[test]
fn held_direction_repeats() {
    let mut menu = CommonMenu::new(
        "Long",
        false,
        0,
        MenuDefine::new(0, (0..5).map(|i| MenuItem::new("Item", MenuContent::Action(MenuAction::Action(i, false)))).collect()),
    );
    menu.on_input_menu(DOWN, IDLE);
    assert_eq!(menu.cursor(), 1);
    for _ in 0..24 {
        menu.on_input_menu(DOWN, DOWN);
    }
    assert_eq!(menu.cursor(), 1);
    menu.on_input_menu(DOWN, DOWN);
    assert_eq!(menu.cursor(), 2);
    // Later repeats come every nine ticks.
    for _ in 0..8 {
        menu.on_input_menu(DOWN, DOWN);
    }
    assert_eq!(menu.cursor(), 2);
    menu.on_input_menu(DOWN, DOWN);
    assert_eq!(menu.cursor(), 3);
}

#[test]
fn cancel_at_top_of_non_instant_menu_animates() {
    let mut menu = actions_menu();
    assert_eq!(menu.on_input_menu(CHARGE, IDLE), OnMenuInputResult::Nothing);
    assert_eq!(menu.sound(), Some(SOUND_CANCEL));
    for _ in 0..19 {
        assert_eq!(menu.on_input_menu(IDLE, IDLE), OnMenuInputResult::Nothing);
    }
    assert_eq!(menu.on_input_menu(IDLE, IDLE), OnMenuInputResult::Cancel);
}

#[test]
fn root_leads_to_shared_room() {
    let mut root = Root::new();
    let mut t = th19();
    assert_eq!(root.on_input_menu(SHOT, IDLE, &mut t), None);
    assert_eq!(root.common_menu().sound(), Some(SOUND_DECIDE));
    for _ in 0..19 {
        assert_eq!(root.on_input_menu(IDLE, IDLE, &mut t), None);
    }
    assert_eq!(root.on_input_menu(IDLE, IDLE, &mut t), Some(LobbyScene::SharedRoom));
    assert_eq!(root.common_menu().depth(), 0);
}

#[test]
fn root_submenu_leads_to_pure_p2p_host() {
    let mut root = Root::new();
    let mut t = th19();
    root.on_input_menu(DOWN, IDLE, &mut t);
    assert_eq!(root.common_menu().cursor(), 1);
    assert_eq!(root.common_menu().current_menu().0, "Ju.N.Owen");
    root.on_input_menu(SHOT, IDLE, &mut t);
    for _ in 0..20 {
        assert_eq!(root.on_input_menu(IDLE, IDLE, &mut t), None);
    }
    assert_eq!(root.common_menu().depth(), 1);
    assert_eq!(root.common_menu().cursor(), 0);
    assert_eq!(root.common_menu().current_menu().0, "Pure P2P");
    root.on_input_menu(SHOT, IDLE, &mut t);
    for _ in 0..19 {
        assert_eq!(root.on_input_menu(IDLE, IDLE, &mut t), None);
    }
    assert_eq!(root.on_input_menu(IDLE, IDLE, &mut t), Some(LobbyScene::PureP2pHost));
}

#[test]
fn root_cancel_leaves_lobby() {
    let mut root = Root::new();
    let mut t = th19();
    assert_eq!(root.on_input_menu(CHARGE, IDLE, &mut t), Some(LobbyScene::Root));
    assert_eq!(t.menu_input, Input(Input::START as u32));
}

#[test]
fn input_is_handled_on_the_tick_an_animation_ends() {
    let mut root = Root::new();
    let mut t = th19();
    root.on_input_menu(DOWN, IDLE, &mut t);
    root.on_input_menu(IDLE, DOWN, &mut t);
    root.on_input_menu(SHOT, IDLE, &mut t);
    for _ in 0..19 {
        root.on_input_menu(IDLE, IDLE, &mut t);
    }
    // The last animation tick enters the submenu and moves its cursor.
    assert_eq!(root.on_input_menu(DOWN, IDLE, &mut t), None);
    assert_eq!(root.common_menu().depth(), 1);
    assert_eq!(root.common_menu().cursor(), 1);
}
