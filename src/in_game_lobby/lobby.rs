//! The lobby's root menu: its tree of rooms and connection modes.
use vstd::prelude::*;

use super::common_menu::{
    menu_tick, CommonMenu, LobbyScene, MenuAction, MenuContent, MenuDefine, MenuItem,
    OnMenuInputResult,
};
use crate::th19::{Input, Th19};

verus! {

/// Height on screen of the root menu's first item.
pub const ROOT_BASE_HEIGHT: u32 = 240;

/// The scene that a menu result leads to. Going back from the root menu
/// leaves the lobby, which the game sees as START on its menu.
pub open spec fn scene_of(result: OnMenuInputResult) -> Option<LobbyScene> {
    match result {
        OnMenuInputResult::Nothing => None,
        OnMenuInputResult::Cancel => Some(LobbyScene::Root),
        OnMenuInputResult::Action(MenuAction::SubScene(scene)) => Some(scene),
        OnMenuInputResult::Action(MenuAction::Action(..)) => None,
    }
}

/// The lobby's first menu.
pub struct Root {
    common_menu: CommonMenu,
}

impl Root {
    pub closed spec fn menu(&self) -> CommonMenu {
        self.common_menu
    }

    pub open spec fn wf(&self) -> bool {
        self.menu().wf()
    }

    pub fn new() -> (r: Self)
        ensures
            r.wf(),
            r.menu().level() == 0,
            r.menu().decide_ticks() == 0,
            r.menu().exits_instantly(),
            r.menu().label() == "Ju.N.Owen",
            r.menu().height() == ROOT_BASE_HEIGHT,
            r.menu().repeat_counters() == (0u32, 0u32),
            r.menu().tree() matches MenuContent::SubMenu(d) && d.cursor == 0 && d.items@.len() == 2
                && d.items@[0] == (MenuItem {
                label: "Shared Room",
                content: MenuContent::Action(MenuAction::SubScene(LobbyScene::SharedRoom)),
            }) && d.items@[1].label == "Pure P2P" && (d.items@[1].content matches MenuContent::SubMenu(p)
                && p.cursor == 0 && p.items@.len() == 3 && p.items@[0] == (MenuItem {
                label: "Connect as Host",
                content: MenuContent::Action(MenuAction::SubScene(LobbyScene::PureP2pHost)),
            }) && p.items@[1] == (MenuItem {
                label: "Connect as Guest",
                content: MenuContent::Action(MenuAction::SubScene(LobbyScene::PureP2pGuest)),
            }) && p.items@[2] == (MenuItem {
                label: "Connect as Spectator",
                content: MenuContent::Action(MenuAction::SubScene(LobbyScene::PureP2pSpectator)),
            })),
    {
        let pure_p2p = MenuDefine::new(
            0,
            vec![
                MenuItem::new("Connect as Host", MenuContent::Action(MenuAction::SubScene(LobbyScene::PureP2pHost))),
                MenuItem::new("Connect as Guest", MenuContent::Action(MenuAction::SubScene(LobbyScene::PureP2pGuest))),
                MenuItem::new(
                    "Connect as Spectator",
                    MenuContent::Action(MenuAction::SubScene(LobbyScene::PureP2pSpectator)),
                ),
            ],
        );
        let root = MenuDefine::new(
            0,
            vec![
                MenuItem::new("Shared Room", MenuContent::Action(MenuAction::SubScene(LobbyScene::SharedRoom))),
                MenuItem::new("Pure P2P", MenuContent::SubMenu(pure_p2p)),
            ],
        );
        Root { common_menu: CommonMenu::new("Ju.N.Owen", true, ROOT_BASE_HEIGHT, root) }
    }

    /// The menu, for drawing it and for its sound effects.
    pub fn common_menu(&self) -> (r: &CommonMenu)
        ensures
            *r == self.menu(),
    {
        &self.common_menu
    }

    /// Turns a menu result into the scene it leads to; leaving the lobby
    /// presses START on the game's menu.
    pub fn scene_for(result: OnMenuInputResult, th19: &mut Th19) -> (r: Option<LobbyScene>)
        ensures
            r == scene_of(result),
            *final(th19) == if result == OnMenuInputResult::Cancel {
                Th19 { menu_input: Input(Input::START as u32), ..*old(th19) }
            } else {
                *old(th19)
            },
    {
        match result {
            OnMenuInputResult::Nothing => None,
            OnMenuInputResult::Cancel => {
                th19.menu_input = Input(Input::START as u32);
                Some(LobbyScene::Root)
            },
            OnMenuInputResult::Action(MenuAction::SubScene(scene)) => Some(scene),
            OnMenuInputResult::Action(MenuAction::Action(..)) => None,
        }
    }

    /// One tick of menu input on the root menu. Returns the scene to move
    /// to, if any; going back from the top leaves the lobby.
    pub fn on_input_menu(&mut self, current_input: Input, prev_input: Input, th19: &mut Th19) -> (r:
        Option<LobbyScene>)
        requires
            old(self).wf(),
            old(self).menu().exits_instantly(),
        ensures
            final(self).wf(),
            final(self).menu().exits_instantly(),
            exists|result: OnMenuInputResult|
                #[trigger] menu_tick(old(self).menu(), final(self).menu(), current_input, prev_input, result)
                && r == scene_of(result) && *final(th19) == if result == OnMenuInputResult::Cancel {
                Th19 { menu_input: Input(Input::START as u32), ..*old(th19) }
            } else {
                *old(th19)
            },
    {
        let result = self.common_menu.on_input_menu(current_input, prev_input);
        let r = Self::scene_for(result, th19);
        assert(menu_tick(old(self).menu(), self.menu(), current_input, prev_input, result));
        r
    }
}

} // verus!
