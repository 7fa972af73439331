//! A nested menu moved through with the game's menu input: up and down with
//! key repeat, SHOT to decide, CHARGE, BOMB or START to go back. Entering or
//! leaving a level waits a short animation of a fixed number of ticks.
use vstd::prelude::*;

use crate::th19::Input;

verus! {

/// Ticks that entering or leaving a level takes.
pub const DECIDE_TICKS: i32 = 20;
/// Ticks that a held direction waits before it repeats.
pub const REPEAT_DELAY: u32 = 25;
/// Where the repeat counter restarts after a repeat, so that later repeats
/// come faster.
pub const REPEAT_RESTART: u32 = 17;
/// Sound effect of a decision.
pub const SOUND_DECIDE: u32 = 0x07;
/// Sound effect of going back.
pub const SOUND_CANCEL: u32 = 0x09;
/// Sound effect of a cursor move.
pub const SOUND_SELECT: u32 = 0x0a;

/// The scenes of the lobby.
#[derive(Clone, Copy, Debug, PartialEq, Eq, Structural)]
pub enum LobbyScene {
    Root,
    SharedRoom,
    ReservedRoom,
    PureP2pHost,
    PureP2pGuest,
    PureP2pSpectator,
}

/// What deciding on an item does.
#[derive(Clone, Copy, Debug, PartialEq, Eq, Structural)]
pub enum MenuAction {
    /// An action with its identifier, and whether deciding plays a sound.
    Action(u8, bool),
    /// Moves to another scene of the lobby.
    SubScene(LobbyScene),
}

/// What an item holds: an action or a menu one level down.
#[derive(Debug)]
pub enum MenuContent {
    Action(MenuAction),
    SubMenu(MenuDefine),
}

/// What one tick of menu input leads to.
#[derive(Clone, Copy, Debug, PartialEq, Eq, Structural)]
pub enum OnMenuInputResult {
    Nothing,
    Cancel,
    Action(MenuAction),
}

/// A labelled menu item.
#[derive(Debug)]
pub struct MenuItem {
    pub label: &'static str,
    pub content: MenuContent,
}

impl MenuItem {
    pub fn new(label: &'static str, content: MenuContent) -> (r: Self)
        ensures
            r.label == label,
            r.content == content,
    {
        MenuItem { label, content }
    }
}

/// A menu: its items and the cursor on them.
#[derive(Debug)]
pub struct MenuDefine {
    pub cursor: usize,
    pub items: Vec<MenuItem>,
}

impl MenuDefine {
    pub fn new(cursor: usize, items: Vec<MenuItem>) -> (r: Self)
        ensures
            r.cursor == cursor,
            r.items@ == items@,
    {
        MenuDefine { cursor, items }
    }
}

/// The content that the cursors select `depth` levels below `c`, if the
/// cursors lead that far.
pub open spec fn content_at(c: MenuContent, depth: nat) -> Option<MenuContent>
    decreases depth,
{
    if depth == 0 {
        Some(c)
    } else {
        match c {
            MenuContent::SubMenu(d) => if d.cursor < d.items@.len() {
                content_at(d.items@[d.cursor as int].content, (depth - 1) as nat)
            } else {
                None
            },
            MenuContent::Action(_) => None,
        }
    }
}

/// The label of the menu `depth` levels below `c`: the label of the item
/// whose menu it is, or `label` where it is `c` itself.
pub open spec fn label_at(c: MenuContent, depth: nat, label: &'static str) -> &'static str
    decreases depth,
{
    if depth == 0 {
        label
    } else {
        match c {
            MenuContent::SubMenu(d) => if d.cursor < d.items@.len() {
                label_at(
                    d.items@[d.cursor as int].content,
                    (depth - 1) as nat,
                    d.items@[d.cursor as int].label,
                )
            } else {
                label
            },
            MenuContent::Action(_) => label,
        }
    }
}

/// `c2` is `c1` with the cursor of the menu `depth` levels down set to
/// `cursor`, and nothing else changed.
pub open spec fn cursor_moved(c1: MenuContent, c2: MenuContent, depth: nat, cursor: nat) -> bool
    decreases depth,
{
    match (c1, c2) {
        (MenuContent::SubMenu(d1), MenuContent::SubMenu(d2)) => if depth == 0 {
            d2.cursor == cursor && d2.items@ == d1.items@
        } else {
            let k = d1.cursor as int;
            &&& d2.cursor == d1.cursor
            &&& k < d1.items@.len()
            &&& d2.items@ == d1.items@.update(
                k,
                MenuItem { label: d1.items@[k].label, content: d2.items@[k].content },
            )
            &&& cursor_moved(d1.items@[k].content, d2.items@[k].content, (depth - 1) as nat, cursor)
        },
        _ => false,
    }
}

/// `flag` goes from released to pressed.
pub open spec fn pulse_spec(current: Input, prev: Input, flag: u16) -> bool {
    current.0 & (flag as u32) != 0 && prev.0 & (flag as u32) == 0
}

fn pulse(current: Input, prev: Input, flag: u16) -> (r: bool)
    ensures
        r == pulse_spec(current, prev, flag),
{
    current.0 & (flag as u32) != 0 && prev.0 & (flag as u32) == 0
}

/// The content `depth` levels below `c`.
fn content_at_exec(c: &MenuContent, depth: u32) -> (r: Option<&MenuContent>)
    ensures
        r matches Some(x) ==> content_at(*c, depth as nat) == Some(*x),
        r is None ==> content_at(*c, depth as nat) is None,
{
    let mut cur = c;
    let mut i: u32 = 0;
    while i < depth
        invariant
            i <= depth,
            content_at(*c, depth as nat) == content_at(*cur, (depth - i) as nat),
        decreases depth - i,
    {
        match cur {
            MenuContent::SubMenu(d) => {
                if d.cursor < d.items.len() {
                    cur = &d.items[d.cursor].content;
                } else {
                    return None;
                }
            },
            MenuContent::Action(_) => {
                return None;
            },
        }
        i = i + 1;
    }
    Some(cur)
}

/// Sets the cursor of the menu `depth` levels below `c`.
fn set_cursor_at(c: &mut MenuContent, depth: u32, cursor: usize)
    requires
        content_at(*old(c), depth as nat) matches Some(MenuContent::SubMenu(_)),
    ensures
        cursor_moved(*old(c), *final(c), depth as nat, cursor as nat),
    decreases depth,
{
    match c {
        MenuContent::SubMenu(d) => {
            if depth == 0 {
                d.cursor = cursor;
            } else {
                let k = d.cursor;
                let ghost before = d.items@;
                let mut item = d.items.remove(k);
                set_cursor_at(&mut item.content, depth - 1, cursor);
                d.items.insert(k, item);
                assert(d.items@ =~= before.update(
                    k as int,
                    MenuItem { label: before[k as int].label, content: d.items@[k as int].content },
                ));
            }
        },
        MenuContent::Action(_) => {},
    }
}

/// Where the cursor goes on a menu of `len` items when up, down, or both
/// fire in one tick.
pub open spec fn next_cursor(cursor: nat, len: nat, up: bool, down: bool) -> nat {
    let after_up = if up && cursor > 0 {
        (cursor - 1) as nat
    } else {
        cursor
    };
    if down && after_up + 1 < len {
        after_up + 1
    } else {
        after_up
    }
}

/// A direction moves the cursor this tick: on its first tick, and then
/// each time the repeat counter comes round.
pub open spec fn repeat_fires(held: bool, fresh: bool, count: u32) -> bool {
    held && (fresh || count > 0) && (count == 0 || count == REPEAT_DELAY)
}

/// The repeat counter after a tick.
pub open spec fn next_repeat(held: bool, fresh: bool, count: u32) -> u32 {
    if held && (fresh || count > 0) {
        if count + 1 > REPEAT_DELAY {
            REPEAT_RESTART
        } else {
            (count + 1) as u32
        }
    } else {
        0
    }
}

/// A nested menu with its navigation state.
pub struct CommonMenu {
    root_label: &'static str,
    menu: MenuContent,
    instant_exit: bool,
    base_height: u32,
    depth: u32,
    repeat_up: u32,
    repeat_down: u32,
    decide_count: i32,
    sound: Option<u32>,
}

impl CommonMenu {
    /// The whole menu tree, its root as a submenu.
    pub closed spec fn tree(&self) -> MenuContent {
        self.menu
    }

    /// How many levels below the root the shown menu is.
    pub closed spec fn level(&self) -> nat {
        self.depth as nat
    }

    /// Ticks into entering (positive) or leaving (negative) a level.
    pub closed spec fn decide_ticks(&self) -> int {
        self.decide_count as int
    }

    pub closed spec fn label(&self) -> &'static str {
        self.root_label
    }

    pub closed spec fn height(&self) -> u32 {
        self.base_height
    }

    pub closed spec fn sound_effect(&self) -> Option<u32> {
        self.sound
    }

    pub closed spec fn exits_instantly(&self) -> bool {
        self.instant_exit
    }

    pub closed spec fn repeat_counters(&self) -> (u32, u32) {
        (self.repeat_up, self.repeat_down)
    }

    pub closed spec fn wf(&self) -> bool {
        &&& content_at(self.menu, self.depth as nat) matches Some(MenuContent::SubMenu(_))
        &&& -DECIDE_TICKS - 1 <= self.decide_count <= DECIDE_TICKS + 1
        &&& self.repeat_up <= REPEAT_DELAY
        &&& self.repeat_down <= REPEAT_DELAY
        &&& self.decide_count > 0 ==> (content_at(self.menu, self.depth as nat + 1) matches Some(MenuContent::SubMenu(_)) || content_at(self.menu, self.depth as nat + 1) matches Some(MenuContent::Action(MenuAction::SubScene(_))))
    }

    pub fn new(
        root_label: &'static str,
        instant_exit: bool,
        base_height: u32,
        menu_define: MenuDefine,
    ) -> (r: Self)
        ensures
            r.wf(),
            r.tree() == MenuContent::SubMenu(menu_define),
            r.level() == 0,
            r.decide_ticks() == 0,
            r.exits_instantly() == instant_exit,
            r.repeat_counters() == (0u32, 0u32),
            r.sound_effect() is None,
            r.label() == root_label,
            r.height() == base_height,
    {
        CommonMenu {
            root_label,
            menu: MenuContent::SubMenu(menu_define),
            instant_exit,
            base_height,
            depth: 0,
            repeat_up: 0,
            repeat_down: 0,
            decide_count: 0,
            sound: None,
        }
    }

    pub fn root_label(&self) -> (r: &'static str)
        ensures
            r == self.label(),
    {
        self.root_label
    }

    pub fn base_height(&self) -> (r: u32)
        ensures
            r == self.height(),
    {
        self.base_height
    }

    /// The sound effect that the last tick of input called for, if any.
    pub fn sound(&self) -> (r: Option<u32>)
        ensures
            r == self.sound_effect(),
    {
        self.sound
    }

    /// How many levels below the root the shown menu is.
    pub fn depth(&self) -> (r: u32)
        ensures
            r as nat == self.level(),
    {
        self.depth
    }

    /// The shown menu with its label.
    pub fn current_menu(&self) -> (r: (&'static str, &MenuContent))
        requires
            self.wf(),
        ensures
            r.0 == label_at(self.tree(), self.level(), self.label()),
            content_at(self.tree(), self.level()) == Some(*r.1),
    {
        let mut cur = &self.menu;
        let mut label = self.root_label;
        let mut i: u32 = 0;
        while i < self.depth
            invariant
                i <= self.depth,
                self.wf(),
                content_at(self.menu, self.depth as nat) == content_at(*cur, (self.depth - i) as nat),
                label_at(self.menu, self.depth as nat, self.root_label) == label_at(
                    *cur,
                    (self.depth - i) as nat,
                    label,
                ),
            decreases self.depth - i,
        {
            match cur {
                MenuContent::SubMenu(d) => {
                    if d.cursor < d.items.len() {
                        label = d.items[d.cursor].label;
                        cur = &d.items[d.cursor].content;
                    } else {
                        return (label, cur);
                    }
                },
                MenuContent::Action(_) => {
                    return (label, cur);
                },
            }
            i = i + 1;
        }
        (label, cur)
    }

    /// The cursor of the shown menu.
    pub fn cursor(&self) -> (r: usize)
        requires
            self.wf(),
        ensures
            content_at(self.tree(), self.level()) matches Some(MenuContent::SubMenu(d)) && r
                == d.cursor,
    {
        match content_at_exec(&self.menu, self.depth) {
            Some(MenuContent::SubMenu(d)) => d.cursor,
            _ => 0,
        }
    }

    /// Runs the entering or leaving animation one tick on. Returns what the
    /// tick leads to, or `None` where no animation runs or the animation has
    /// just ended on a menu, so that the tick's input is still handled.
    fn apply_decide_count(&mut self) -> (r: Option<OnMenuInputResult>)
        requires
            old(self).wf(),
        ensures
            final(self).wf(),
            final(self).menu == old(self).menu,
            final(self).root_label == old(self).root_label,
            final(self).instant_exit == old(self).instant_exit,
            final(self).repeat_up == old(self).repeat_up,
            final(self).repeat_down == old(self).repeat_down,
            final(self).sound == old(self).sound,
            old(self).decide_count == 0 ==> r is None && *final(self) == *old(self),
            old(self).decide_count > 0 && old(self).decide_count + 1 <= DECIDE_TICKS ==> r == Some(
                OnMenuInputResult::Nothing,
            ) && final(self).decide_count == old(self).decide_count + 1 && final(self).depth
                == old(self).depth,
            old(self).decide_count > 0 && old(self).decide_count + 1 > DECIDE_TICKS ==> final(self).decide_count == 0 && match content_at(old(self).menu, old(self).depth as nat + 1) {
                Some(MenuContent::Action(MenuAction::SubScene(s))) => r == Some(
                    OnMenuInputResult::Action(MenuAction::SubScene(s)),
                ) && final(self).depth == old(self).depth,
                _ => r is None && final(self).depth == if old(self).depth < u32::MAX {
                    (old(self).depth + 1) as u32
                } else {
                    old(self).depth
                },
            },
            old(self).decide_count < 0 && old(self).decide_count - 1 >= -DECIDE_TICKS ==> r == Some(
                OnMenuInputResult::Nothing,
            ) && final(self).decide_count == old(self).decide_count - 1 && final(self).depth
                == old(self).depth,
            old(self).decide_count < 0 && old(self).decide_count - 1 < -DECIDE_TICKS ==> final(self).decide_count == 0 && if old(self).depth == 0 {
                r == Some(OnMenuInputResult::Cancel) && final(self).depth == 0
            } else {
                r is None && final(self).depth == old(self).depth - 1
            },
    {
        if self.decide_count == 0 {
            return None;
        }
        if self.decide_count > 0 {
            self.decide_count = self.decide_count + 1;
            if self.decide_count <= DECIDE_TICKS {
                return Some(OnMenuInputResult::Nothing);
            }
            self.decide_count = 0;
            proof {
                lemma_content_step(self.menu, self.depth as nat);
            }
            match content_at_exec(&self.menu, self.depth) {
                Some(MenuContent::SubMenu(d)) => {
                    if d.cursor < d.items.len() {
                        if let MenuContent::Action(MenuAction::SubScene(scene)) = &d.items[d.cursor].content {
                            return Some(OnMenuInputResult::Action(MenuAction::SubScene(*scene)));
                        }
                    }
                },
                _ => {},
            }
            if self.depth < u32::MAX {
                self.depth = self.depth + 1;
            }
            None
        } else {
            self.decide_count = self.decide_count - 1;
            if self.decide_count >= -DECIDE_TICKS {
                return Some(OnMenuInputResult::Nothing);
            }
            self.decide_count = 0;
            if self.depth == 0 {
                return Some(OnMenuInputResult::Cancel);
            }
            self.depth = self.depth - 1;
            proof {
                lemma_content_prefix(self.menu, self.depth as nat);
            }
            None
        }
    }
}

impl CommonMenu {
    /// Goes back a level, or leaves the menu where that is immediate.
    fn cancel(&mut self) -> (r: OnMenuInputResult)
        requires
            old(self).wf(),
            old(self).decide_count == 0,
        ensures
            final(self).wf(),
            if old(self).depth == 0 && old(self).instant_exit {
                r == OnMenuInputResult::Cancel && *final(self) == *old(self)
            } else {
                r == OnMenuInputResult::Nothing && *final(self) == (CommonMenu {
                    decide_count: -1i32,
                    sound: Some(SOUND_CANCEL),
                    ..*old(self)
                })
            },
    {
        if self.depth == 0 && self.instant_exit {
            OnMenuInputResult::Cancel
        } else {
            self.sound = Some(SOUND_CANCEL);
            self.decide_count = -1;
            OnMenuInputResult::Nothing
        }
    }

    /// Moves the cursor of the shown menu by the held directions, with key
    /// repeat.
    fn select(&mut self, current_input: Input, prev_input: Input)
        requires
            old(self).wf(),
            old(self).decide_count == 0,
            content_at(old(self).menu, old(self).depth as nat) matches Some(MenuContent::SubMenu(d))
                && d.items@.len() > 0,
        ensures
            final(self).wf(),
            ({
                let d = content_at(old(self).menu, old(self).depth as nat)->0->SubMenu_0;
                let up = current_input.0 & (Input::UP as u32) != 0;
                let up_fresh = prev_input.0 & (Input::UP as u32) == 0;
                let down = current_input.0 & (Input::DOWN as u32) != 0;
                let down_fresh = prev_input.0 & (Input::DOWN as u32) == 0;
                let up_fires = repeat_fires(up, up_fresh, old(self).repeat_up);
                let down_fires = repeat_fires(down, down_fresh, old(self).repeat_down);
                let cursor = next_cursor(d.cursor as nat, d.items@.len(), up_fires, down_fires);
                &&& cursor_moved(old(self).menu, final(self).menu, old(self).depth as nat, cursor)
                &&& final(self).repeat_up == next_repeat(up, up_fresh, old(self).repeat_up)
                &&& final(self).repeat_down == next_repeat(down, down_fresh, old(self).repeat_down)
                &&& final(self).sound == if cursor != d.cursor || (up_fires && d.cursor > 0) {
                    Some(SOUND_SELECT)
                } else {
                    old(self).sound
                }
                &&& final(self).depth == old(self).depth
                &&& final(self).decide_count == 0
                &&& final(self).instant_exit == old(self).instant_exit
                &&& final(self).root_label == old(self).root_label
            }),
    {
        let (cursor, len) = match content_at_exec(&self.menu, self.depth) {
            Some(MenuContent::SubMenu(d)) => (d.cursor, d.items.len()),
            _ => (0, 0),
        };
        let up = current_input.0 & (Input::UP as u32) != 0;
        let up_fresh = prev_input.0 & (Input::UP as u32) == 0;
        let down = current_input.0 & (Input::DOWN as u32) != 0;
        let down_fresh = prev_input.0 & (Input::DOWN as u32) == 0;
        let mut next = cursor;
        if up && (up_fresh || self.repeat_up > 0) {
            if (self.repeat_up == 0 || self.repeat_up == REPEAT_DELAY) && next > 0 {
                next = next - 1;
                self.sound = Some(SOUND_SELECT);
            }
            self.repeat_up = if self.repeat_up + 1 > REPEAT_DELAY {
                REPEAT_RESTART
            } else {
                self.repeat_up + 1
            };
        } else {
            self.repeat_up = 0;
        }
        if down && (down_fresh || self.repeat_down > 0) {
            if (self.repeat_down == 0 || self.repeat_down == REPEAT_DELAY) && next < len - 1 {
                next = next + 1;
                self.sound = Some(SOUND_SELECT);
            }
            self.repeat_down = if self.repeat_down + 1 > REPEAT_DELAY {
                REPEAT_RESTART
            } else {
                self.repeat_down + 1
            };
        } else {
            self.repeat_down = 0;
        }
        let ghost before = self.menu;
        set_cursor_at(&mut self.menu, self.depth, next);
        proof {
            lemma_cursor_moved_keeps_path(before, self.menu, self.depth as nat, next as nat);
        }
    }

    /// Handles one tick of input on the shown menu, with no animation
    /// running; see `input_step`.
    fn handle_input(&mut self, current_input: Input, prev_input: Input) -> (r: OnMenuInputResult)
        requires
            old(self).wf(),
            old(self).decide_count == 0,
            old(self).sound is None,
        ensures
            final(self).wf(),
            final(self).exits_instantly() == old(self).exits_instantly(),
            final(self).label() == old(self).label(),
            input_step(
                old(self).tree(),
                old(self).level(),
                old(self).repeat_counters(),
                old(self).exits_instantly(),
                *final(self),
                current_input,
                prev_input,
                r,
            ),
    {
        if pulse(current_input, prev_input, Input::CHARGE) || pulse(
            current_input,
            prev_input,
            Input::BOMB,
        ) || pulse(current_input, prev_input, Input::START) {
            return self.cancel();
        }
        let (len, cursor) = match content_at_exec(&self.menu, self.depth) {
            Some(MenuContent::SubMenu(d)) => (d.items.len(), d.cursor),
            _ => (0, 0),
        };
        if len == 0 {
            return OnMenuInputResult::Nothing;
        }
        if pulse(current_input, prev_input, Input::SHOT) {
            if cursor >= len {
                return OnMenuInputResult::Nothing;
            }
            proof {
                lemma_content_step(self.menu, self.depth as nat);
            }
            let action = match content_at_exec(&self.menu, self.depth) {
                Some(MenuContent::SubMenu(d)) => match &d.items[d.cursor].content {
                    MenuContent::Action(MenuAction::Action(a, sound)) => Some((*a, *sound)),
                    _ => None,
                },
                _ => None,
            };
            return match action {
                Some((a, sound)) => {
                    if sound {
                        self.sound = Some(SOUND_DECIDE);
                    }
                    OnMenuInputResult::Action(MenuAction::Action(a, sound))
                },
                None => {
                    self.sound = Some(SOUND_DECIDE);
                    self.decide_count = 1;
                    OnMenuInputResult::Nothing
                },
            };
        }
        self.select(current_input, prev_input);
        OnMenuInputResult::Nothing
    }

    /// One tick of menu input. A running animation advances; its last tick
    /// enters or leaves the level and, unless that leads to a scene or out
    /// of the menu, the tick's input is then handled as `input_step` says.
    /// Without an animation the input is handled at once.
    pub fn on_input_menu(&mut self, current_input: Input, prev_input: Input) -> (r:
        OnMenuInputResult)
        requires
            old(self).wf(),
        ensures
            final(self).wf(),
            final(self).exits_instantly() == old(self).exits_instantly(),
            final(self).label() == old(self).label(),
            menu_tick(*old(self), *final(self), current_input, prev_input, r),
    {
        self.sound = None;
        if let Some(result) = self.apply_decide_count() {
            return result;
        }
        self.handle_input(current_input, prev_input)
    }
}

/// What one tick of input does on a menu with no animation running, shown
/// at `level` of `tree`, with repeat counters `repeats`: CHARGE, BOMB or
/// START goes back (at once where the menu exits instantly from its top),
/// SHOT decides on the item under the cursor, and otherwise the directions
/// move the cursor. `m1` is the menu after the tick.
pub open spec fn input_step(
    tree: MenuContent,
    level: nat,
    repeats: (u32, u32),
    instant: bool,
    m1: CommonMenu,
    current_input: Input,
    prev_input: Input,
    r: OnMenuInputResult,
) -> bool {
    let d = content_at(tree, level)->0->SubMenu_0;
    let shot = pulse_spec(current_input, prev_input, Input::SHOT);
    &&& m1.level() == level
    &&& cancel_pressed(current_input, prev_input) ==> {
        &&& m1.tree() == tree
        &&& m1.repeat_counters() == repeats
        &&& if level == 0 && instant {
            r == OnMenuInputResult::Cancel && m1.decide_ticks() == 0 && m1.sound_effect() is None
        } else {
            r == OnMenuInputResult::Nothing && m1.decide_ticks() == -1 && m1.sound_effect() == Some(
                SOUND_CANCEL,
            )
        }
    }
    &&& !cancel_pressed(current_input, prev_input) ==> {
        &&& d.items@.len() == 0 ==> r == OnMenuInputResult::Nothing && m1.tree() == tree
            && m1.decide_ticks() == 0 && m1.repeat_counters() == repeats && m1.sound_effect() is None
        &&& d.items@.len() > 0 && shot && d.cursor < d.items@.len() ==> m1.tree() == tree
            && m1.repeat_counters() == repeats && match d.items@[d.cursor as int].content {
            MenuContent::Action(MenuAction::Action(a, sound)) => r == OnMenuInputResult::Action(
                MenuAction::Action(a, sound),
            ) && m1.decide_ticks() == 0 && m1.sound_effect() == if sound {
                Some(SOUND_DECIDE)
            } else {
                None
            },
            _ => r == OnMenuInputResult::Nothing && m1.decide_ticks() == 1 && m1.sound_effect()
                == Some(SOUND_DECIDE),
        }
        &&& d.items@.len() > 0 && shot && d.cursor >= d.items@.len() ==> r
            == OnMenuInputResult::Nothing && m1.tree() == tree && m1.decide_ticks() == 0
            && m1.repeat_counters() == repeats && m1.sound_effect() is None
        &&& d.items@.len() > 0 && !shot ==> {
            let up = current_input.0 & (Input::UP as u32) != 0;
            let up_fresh = prev_input.0 & (Input::UP as u32) == 0;
            let down = current_input.0 & (Input::DOWN as u32) != 0;
            let down_fresh = prev_input.0 & (Input::DOWN as u32) == 0;
            let up_fires = repeat_fires(up, up_fresh, repeats.0);
            let down_fires = repeat_fires(down, down_fresh, repeats.1);
            let cursor = next_cursor(d.cursor as nat, d.items@.len(), up_fires, down_fires);
            &&& r == OnMenuInputResult::Nothing
            &&& m1.decide_ticks() == 0
            &&& cursor_moved(tree, m1.tree(), level, cursor)
            &&& m1.repeat_counters() == (next_repeat(up, up_fresh, repeats.0), next_repeat(
                down,
                down_fresh,
                repeats.1,
            ))
            &&& m1.sound_effect() == if cursor != d.cursor || (up_fires && d.cursor > 0) {
                Some(SOUND_SELECT)
            } else {
                None
            }
        }
    }
}

/// What one tick of input does to the menu `m0`, leaving `m1` and the
/// result `r`; see `CommonMenu::on_input_menu`.
pub open spec fn menu_tick(
    m0: CommonMenu,
    m1: CommonMenu,
    current_input: Input,
    prev_input: Input,
    r: OnMenuInputResult,
) -> bool {
    let dc = m0.decide_ticks();
    let quiet = m1.tree() == m0.tree() && m1.repeat_counters() == m0.repeat_counters()
        && m1.sound_effect() is None;
    if dc == 0 {
        input_step(m0.tree(), m0.level(), m0.repeat_counters(), m0.exits_instantly(), m1, current_input, prev_input, r)
    } else if 0 < dc < DECIDE_TICKS {
        r == OnMenuInputResult::Nothing && m1.decide_ticks() == dc + 1 && m1.level() == m0.level() && quiet
    } else if -DECIDE_TICKS < dc < 0 {
        r == OnMenuInputResult::Nothing && m1.decide_ticks() == dc - 1 && m1.level() == m0.level() && quiet
    } else if dc > 0 {
        match content_at(m0.tree(), m0.level() + 1) {
            Some(MenuContent::Action(MenuAction::SubScene(s))) => r == OnMenuInputResult::Action(
                MenuAction::SubScene(s),
            ) && m1.level() == m0.level() && m1.decide_ticks() == 0 && quiet,
            _ => input_step(
                m0.tree(),
                if m0.level() < u32::MAX {
                    m0.level() + 1
                } else {
                    m0.level()
                },
                m0.repeat_counters(),
                m0.exits_instantly(),
                m1,
                current_input,
                prev_input,
                r,
            ),
        }
    } else if m0.level() == 0 {
        r == OnMenuInputResult::Cancel && m1.level() == 0 && m1.decide_ticks() == 0 && quiet
    } else {
        input_step(
            m0.tree(),
            (m0.level() - 1) as nat,
            m0.repeat_counters(),
            m0.exits_instantly(),
            m1,
            current_input,
            prev_input,
            r,
        )
    }
}

/// CHARGE, BOMB or START goes from released to pressed.
pub open spec fn cancel_pressed(current: Input, prev: Input) -> bool {
    pulse_spec(current, prev, Input::CHARGE) || pulse_spec(current, prev, Input::BOMB)
        || pulse_spec(current, prev, Input::START)
}

/// Moving a cursor leaves a menu, with the same items, where the moved
/// cursor was.
proof fn lemma_cursor_moved_keeps_path(c1: MenuContent, c2: MenuContent, depth: nat, cursor: nat)
    requires
        cursor_moved(c1, c2, depth, cursor),
    ensures
        content_at(c1, depth) matches Some(MenuContent::SubMenu(_)),
        content_at(c2, depth) matches Some(MenuContent::SubMenu(_)),
        (content_at(c2, depth)->0->SubMenu_0).cursor == cursor,
        (content_at(c2, depth)->0->SubMenu_0).items@ == (content_at(c1, depth)->0->SubMenu_0).items@,
    decreases depth,
{
    if depth > 0 {
        match (c1, c2) {
            (MenuContent::SubMenu(d1), MenuContent::SubMenu(d2)) => {
                let k = d1.cursor as int;
                lemma_cursor_moved_keeps_path(
                    d1.items@[k].content,
                    d2.items@[k].content,
                    (depth - 1) as nat,
                    cursor,
                );
            },
            _ => {},
        }
    }
}

/// One level further down is one step from the content at `depth`.
proof fn lemma_content_step(c: MenuContent, depth: nat)
    ensures
        content_at(c, depth + 1) == match content_at(c, depth) {
            Some(MenuContent::SubMenu(d)) => if d.cursor < d.items@.len() {
                Some(d.items@[d.cursor as int].content)
            } else {
                None
            },
            _ => None,
        },
    decreases depth,
{
    match c {
        MenuContent::SubMenu(d) => {
            if d.cursor < d.items@.len() {
                let sub = d.items@[d.cursor as int].content;
                if depth > 0 {
                    lemma_content_step(sub, (depth - 1) as nat);
                } else {
                    assert(content_at(sub, 0) == Some(sub));
                }
            }
        },
        MenuContent::Action(_) => {},
    }
}

/// Where the cursors lead `depth + 1` levels down, they lead through a
/// menu at `depth`.
proof fn lemma_content_prefix(c: MenuContent, depth: nat)
    requires
        content_at(c, depth + 1) is Some,
    ensures
        content_at(c, depth) matches Some(MenuContent::SubMenu(_)),
{
    lemma_content_step(c, depth);
}

} // verus!
