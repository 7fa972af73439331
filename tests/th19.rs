use junowen::th19::{
    DevicesInput, Difficulty, GameMode, Input, InputDevice, MainLoopTasksLinkedList,
    MainLoopTasksLinkedListItem, PlayerMatchup, RoundFrame, MENU_TASK_ID,
};
use junowen::th19_helpers::{select_cursor, shot_repeatedly};

#[test]
fn first_frame_is_frame_zero_after_none() {
    assert!(RoundFrame { pre_frame: 0xffff_ffff, frame: 0 }.is_first_frame());
    assert!(!RoundFrame { pre_frame: 0, frame: 0 }.is_first_frame());
    assert!(!RoundFrame { pre_frame: 0xffff_ffff, frame: 1 }.is_first_frame());
}

#[test]
fn player_inputs_go_to_their_devices() {
    let idle = InputDevice { input: Input(0), prev_input: Input(3) };
    let mut devices = DevicesInput { input_device_array: vec![idle, idle, idle], p1_input_idx: 2, p2_input_idx: 0 };
    devices.set_p1_input(Input(5));
    devices.set_p2_input(Input(6));
    assert_eq!(devices.p1_input(), Input(5));
    assert_eq!(devices.p2_input(), Input(6));
    assert_eq!(devices.p1_prev_input(), Input(3));
    assert_eq!(devices.p2_prev_input(), Input(3));
    assert_eq!(devices.input_device_array[1].input, Input(0));
}

#[test]
fn shot_alternates() {
    assert_eq!(shot_repeatedly(Input(Input::SHOT as u32)), Input(0));
    assert_eq!(shot_repeatedly(Input(0)), Input(Input::SHOT as u32));
    let mut input = Input(0);
    let mut cursor = 3;
    select_cursor(&mut input, Input(0), &mut cursor, 1);
    assert_eq!(cursor, 1);
    assert_eq!(input, Input(Input::SHOT as u32));
}

#[test]
fn enums_from_numbers() {
    assert_eq!(Difficulty::from_u32(3), Some(Difficulty::Lunatic));
    assert_eq!(Difficulty::from_u32(4), None);
    assert_eq!(GameMode::from_u32(2), Some(GameMode::Versus));
    assert_eq!(GameMode::from_u32(3), None);
    assert_eq!(PlayerMatchup::from_u32(1), Some(PlayerMatchup::HumanVsCpu));
    assert_eq!(PlayerMatchup::default(), PlayerMatchup::HumanVsHuman);
    assert_eq!(Difficulty::default(), Difficulty::Normal);
}

#[test]
fn menu_task_is_found_first() {
    let list = MainLoopTasksLinkedList {
        items: vec![
            MainLoopTasksLinkedListItem { id: 1, arg: 100 },
            MainLoopTasksLinkedListItem { id: MENU_TASK_ID, arg: 200 },
            MainLoopTasksLinkedListItem { id: MENU_TASK_ID, arg: 300 },
        ],
    };
    assert_eq!(list.len(), 3);
    assert!(!list.is_empty());
    assert_eq!(list.find_menu(), Some(200));
    let only_self = MainLoopTasksLinkedList { items: vec![MainLoopTasksLinkedListItem { id: 1, arg: 0 }] };
    assert!(!only_self.is_empty());
    assert_eq!(only_self.find_menu(), None);
}
