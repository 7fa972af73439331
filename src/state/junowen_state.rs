//! The top of the lifecycle: no match, a match as a player, or a match as
//! a spectator. Any failure of a session ends it and returns to standby.
use vstd::prelude::*;

use super::battle_session_state::BattleSessionState;
use super::spectator_session_state::SpectatorSessionState;
use crate::session::{BattleSession, SessionError};
use crate::spectator::{SpectatorSessionGuest, SpectatorSessionHost};
use crate::th19::{GameSettings, Menu, ScreenId, Th19};

verus! {

/// A session whose connection has completed and that waits to start.
pub enum WaitingForMatch {
    Opponent(BattleSession),
    SpectatorHost(SpectatorSessionGuest),
}

impl WaitingForMatch {
    pub open spec fn wf(&self) -> bool {
        self matches WaitingForMatch::Opponent(s) ==> s.wf()
    }
}

/// Whether a match is live, and in which role.
pub enum JunowenState {
    Standby,
    BattleSession(BattleSessionState),
    SpectatorSession(SpectatorSessionState),
}

impl JunowenState {
    pub open spec fn wf(&self) -> bool {
        match self {
            JunowenState::Standby => true,
            JunowenState::BattleSession(s) => s.wf(),
            JunowenState::SpectatorSession(s) => s.wf(),
        }
    }

    /// The settings of the live match, if any are known.
    pub fn game_settings(&self) -> (r: Option<GameSettings>)
        requires
            self.wf(),
        ensures
            *self is Standby ==> r is None,
            self matches JunowenState::BattleSession(s) ==> r == match s.session().agreed() {
                Some(m) => Some(m.game_settings),
                None => None,
            },
            self matches JunowenState::SpectatorSession(s) ==> r == match s.session().initial() {
                Some(i) => Some(i.settings()),
                None => None,
            },
    {
        match self {
            JunowenState::Standby => None,
            JunowenState::BattleSession(session_state) => session_state.game_settings(),
            JunowenState::SpectatorSession(session_state) => session_state.game_settings(),
        }
    }

    pub fn has_session(&self) -> (r: bool)
        ensures
            r == !(*self is Standby),
    {
        !matches!(self, JunowenState::Standby)
    }

    fn start_battle_session(&mut self, battle_session: BattleSession)
        requires
            battle_session.wf(),
        ensures
            *final(self) == JunowenState::BattleSession(
                BattleSessionState::Prepare { session: battle_session },
            ),
            final(self).wf(),
    {
        *self = JunowenState::BattleSession(BattleSessionState::prepare(battle_session));
    }

    fn end_session(&mut self)
        ensures
            *final(self) is Standby,
    {
        *self = JunowenState::Standby;
    }

    /// Lets the live match feed a spectator. Returns whether a match as a
    /// player is live; without one the relay is dropped.
    pub fn attach_spectator(&mut self, relay: SpectatorSessionHost) -> (r: bool)
        requires
            old(self).wf(),
        ensures
            final(self).wf(),
            r == *old(self) is BattleSession,
            !r ==> *final(self) == *old(self),
            *old(self) matches JunowenState::BattleSession(b0) ==> (*final(self) matches JunowenState::BattleSession(b1)
                && BattleSessionState::same_phase(b0, b1) && b1.session().queue() == b0.session().queue()
                && b1.session().agreed() == b0.session().agreed() && (b0.session().agreed() is None
                ==> b1.session().relay() == Some(relay))),
    {
        match self {
            JunowenState::BattleSession(session_state) => {
                session_state.attach_spectator(relay);
                true
            },
            _ => false,
        }
    }

    /// Ends the live match and lets the game run at its own pace again.
    pub fn abort_session(&mut self, th19: &mut Th19)
        ensures
            *final(self) is Standby,
            *final(th19) == (Th19 { no_wait: false, ..*old(th19) }),
    {
        self.end_session();
        th19.no_wait = false;
    }

    /// Starts following a match as a spectator.
    pub fn start_spectator_session(&mut self, session: SpectatorSessionGuest)
        ensures
            *final(self) == JunowenState::SpectatorSession(
                SpectatorSessionState::Prepare { session },
            ),
            final(self).wf(),
    {
        *self = JunowenState::SpectatorSession(SpectatorSessionState::prepare(session));
    }

    /// How the lifecycle moves on in one tick; see `update_state`. In
    /// standby a waiting session starts, unless the game shows the online
    /// menu, where the waiting entry is dropped. A live phase moves on as
    /// its own `update_state` says, and its match ends where that returns
    /// `None`.
    pub open spec fn update_rel(
        j0: Self,
        j1: Self,
        th19: Th19,
        w0: Option<WaitingForMatch>,
        w1: Option<WaitingForMatch>,
        r: (bool, Option<Menu>),
    ) -> bool {
        match j0 {
            JunowenState::Standby => match w0 {
                None => r == (false, None::<Menu>) && j1 is Standby && w1 is None,
                Some(w) => if th19.menu matches Some(m) && m.screen_id == ScreenId::OnlineMenu {
                    r == (false, None::<Menu>) && j1 is Standby && w1 is None
                } else {
                    &&& r == (true, None::<Menu>)
                    &&& w1 is None
                    &&& match w {
                        WaitingForMatch::Opponent(s) => j1 == JunowenState::BattleSession(
                            BattleSessionState::Prepare { session: s },
                        ),
                        WaitingForMatch::SpectatorHost(s) => j1 == JunowenState::SpectatorSession(
                            SpectatorSessionState::Prepare { session: s },
                        ),
                    }
                },
            },
            JunowenState::BattleSession(b0) => w1 == w0 && if r.0 {
                j1 is Standby && r.1 is None && exists|b1: BattleSessionState|
                    #[trigger] BattleSessionState::update_done(b0, b1, th19, None)
            } else {
                j1 matches JunowenState::BattleSession(b1) && BattleSessionState::update_done(
                    b0,
                    b1,
                    th19,
                    Some(r.1),
                )
            },
            JunowenState::SpectatorSession(s0) => w1 == w0 && if r.0 {
                j1 is Standby && r.1 is None && exists|s1: SpectatorSessionState|
                    #[trigger] SpectatorSessionState::update_done(s0, s1, th19, None)
            } else {
                j1 matches JunowenState::SpectatorSession(s1) && SpectatorSessionState::update_done(
                    s0,
                    s1,
                    th19,
                    Some(r.1),
                )
            },
        }
    }

    /// What a tick does with the players' inputs after the lifecycle moved
    /// on; see `update_th19_on_input_players`.
    pub open spec fn players_rel(
        j0: Self,
        j1: Self,
        changed: bool,
        menu: Option<Menu>,
        t0: Th19,
        t1: Th19,
        r: Result<(), SessionError>,
    ) -> bool {
        match j0 {
            JunowenState::Standby => r is Ok && j1 is Standby && t1 == if changed {
                Th19 { no_wait: false, ..t0 }
            } else {
                t0
            },
            JunowenState::BattleSession(b0) => j1 matches JunowenState::BattleSession(b1)
                && BattleSessionState::players_done(b0, b1, menu, t0, t1, r),
            JunowenState::SpectatorSession(s0) => j1 matches JunowenState::SpectatorSession(s1)
                && SpectatorSessionState::players_done(s0, s1, menu, t0, t1, r),
        }
    }

    /// What a tick of menu input does; see `on_input_menu`. A failure, or a
    /// spectator leaving, ends the match.
    pub open spec fn menu_rel(j0: Self, j1: Self, t0: Th19, t1: Th19, r: Result<(), SessionError>) -> bool {
        match j0 {
            JunowenState::Standby => r is Ok && j1 is Standby && t1 == t0,
            JunowenState::BattleSession(b0) => exists|b1: BattleSessionState, t2: Th19|
                #[trigger] BattleSessionState::menu_done(b0, b1, t0, t2, r) && if r is Ok {
                    j1 == JunowenState::BattleSession(b1) && t1 == t2
                } else {
                    j1 is Standby && t1 == (Th19 { no_wait: false, ..t2 })
                },
            JunowenState::SpectatorSession(s0) => exists|
                s1: SpectatorSessionState,
                t2: Th19,
                rr: Result<bool, SessionError>,
            |
                #[trigger] SpectatorSessionState::menu_done(s0, s1, t0, t2, rr) && match rr {
                    Ok(true) => r is Ok && j1 == JunowenState::SpectatorSession(s1) && t1 == t2,
                    Ok(false) => r is Ok && j1 is Standby && t1 == (Th19 { no_wait: false, ..t2 }),
                    Err(e) => r == Err::<(), SessionError>(e) && j1 is Standby && t1 == (Th19 {
                        no_wait: false,
                        ..t2
                    }),
                },
        }
    }

    /// What the end of a round does; see `on_round_over`. A failure ends
    /// the match.
    pub open spec fn round_over_rel(j0: Self, j1: Self, t0: Th19, t1: Th19, r: Result<(), SessionError>) -> bool {
        match j0 {
            JunowenState::Standby => r is Ok && j1 is Standby && t1 == t0,
            JunowenState::BattleSession(b0) => exists|b1: BattleSessionState, t2: Th19|
                #[trigger] BattleSessionState::round_over(b0, b1, t0, t2, r) && if r is Ok {
                    j1 == JunowenState::BattleSession(b1) && t1 == t2
                } else {
                    j1 is Standby && t1 == (Th19 { no_wait: false, ..t2 })
                },
            JunowenState::SpectatorSession(s0) => exists|s1: SpectatorSessionState, t2: Th19|
                #[trigger] SpectatorSessionState::round_over(s0, s1, t0, t2, r) && if r is Ok {
                    j1 == JunowenState::SpectatorSession(s1) && t1 == t2
                } else {
                    j1 is Standby && t1 == (Th19 { no_wait: false, ..t2 })
                },
        }
    }

    /// Moves the lifecycle on by what the game shows. Returns whether a
    /// session started or ended, and the menu for this tick.
    fn update_state(&mut self, th19: &Th19, waiting_for_match: &mut Option<WaitingForMatch>) -> (r: (
        bool,
        Option<Menu>,
    ))
        requires
            old(self).wf(),
            th19.wf(),
            *old(waiting_for_match) matches Some(w) ==> w.wf(),
        ensures
            final(self).wf(),
            *final(waiting_for_match) matches Some(w) ==> w.wf(),
            Self::update_rel(*old(self), *final(self), *th19, *old(waiting_for_match), *final(waiting_for_match), r),
    {
        match self {
            JunowenState::Standby => {
                let mut taken = None;
                std::mem::swap(waiting_for_match, &mut taken);
                let waiting = match taken {
                    Some(waiting) => waiting,
                    None => {
                        return (false, None);
                    },
                };
                let on_online_menu = match th19.menu {
                    Some(menu) => menu.screen_id == ScreenId::OnlineMenu,
                    None => false,
                };
                if on_online_menu {
                    return (false, None);
                }
                match waiting {
                    WaitingForMatch::Opponent(session) => {
                        self.start_battle_session(session);
                    },
                    WaitingForMatch::SpectatorHost(session) => {
                        self.start_spectator_session(session);
                    },
                }
                (true, None)
            },
            JunowenState::BattleSession(session_state) => {
                let ghost b0 = *session_state;
                let r = session_state.update_state(th19);
                let ghost b1 = *session_state;
                match r {
                    Some(menu) => (false, menu),
                    None => {
                        assert(BattleSessionState::update_done(b0, b1, *th19, None));
                        self.end_session();
                        (true, None)
                    },
                }
            },
            JunowenState::SpectatorSession(session_state) => {
                let ghost s0 = *session_state;
                let r = session_state.update_state(th19);
                let ghost s1 = *session_state;
                match r {
                    Some(menu) => (false, menu),
                    None => {
                        assert(SpectatorSessionState::update_done(s0, s1, *th19, None));
                        self.end_session();
                        (true, None)
                    },
                }
            },
        }
    }

    fn update_th19_on_input_players(&mut self, changed: bool, menu: Option<Menu>, th19: &mut Th19) -> (r:
        Result<(), SessionError>)
        requires
            old(self).wf(),
            old(th19).wf(),
        ensures
            final(self).wf(),
            final(th19).wf(),
            Self::players_rel(*old(self), *final(self), changed, menu, *old(th19), *final(th19), r),
    {
        match self {
            JunowenState::Standby => {
                if changed {
                    th19.no_wait = false;
                }
                Ok(())
            },
            JunowenState::BattleSession(session_state) => {
                session_state.update_th19_on_input_players(menu, th19)
            },
            JunowenState::SpectatorSession(session_state) => {
                session_state.update_th19_on_input_players(menu, th19)
            },
        }
    }

    /// One tick of the players' input: the lifecycle moves on
    /// (`update_rel`), then the live phase does its work (`players_rel`).
    /// A failure ends the match: the state is back in standby, the game at
    /// its own pace, and the error is returned.
    pub fn on_input_players(
        &mut self,
        th19: &mut Th19,
        waiting_for_match: &mut Option<WaitingForMatch>,
    ) -> (r: Result<(), SessionError>)
        requires
            old(self).wf(),
            old(th19).wf(),
            *old(waiting_for_match) matches Some(w) ==> w.wf(),
        ensures
            final(self).wf(),
            final(th19).wf(),
            *final(waiting_for_match) matches Some(w) ==> w.wf(),
            r is Ok ==> exists|jm: JunowenState, c: bool, m: Option<Menu>|
                #[trigger] Self::update_rel(*old(self), jm, *old(th19), *old(waiting_for_match), *final(waiting_for_match), (c, m))
                && Self::players_rel(jm, *final(self), c, m, *old(th19), *final(th19), r),
            r is Err ==> *final(self) is Standby && exists|
                jm: JunowenState,
                c: bool,
                m: Option<Menu>,
                j2: JunowenState,
                t2: Th19,
            |
                #[trigger] Self::update_rel(*old(self), jm, *old(th19), *old(waiting_for_match), *final(waiting_for_match), (c, m))
                && #[trigger] Self::players_rel(jm, j2, c, m, *old(th19), t2, r) && *final(th19) == (Th19 {
                no_wait: false,
                ..t2
            }),
    {
        let ghost j0 = *self;
        let ghost t0 = *th19;
        let (changed, menu) = self.update_state(th19, waiting_for_match);
        let ghost jm = *self;
        match self.update_th19_on_input_players(changed, menu, th19) {
            Ok(()) => {
                assert(Self::update_rel(j0, jm, t0, *old(waiting_for_match), *waiting_for_match, (changed, menu)));
                Ok(())
            },
            Err(e) => {
                let ghost j2 = *self;
                let ghost t2 = *th19;
                assert(Self::update_rel(j0, jm, t0, *old(waiting_for_match), *waiting_for_match, (changed, menu)));
                assert(Self::players_rel(jm, j2, changed, menu, t0, t2, Err(e)));
                self.abort_session(th19);
                Err(e)
            },
        }
    }

    /// One tick of the menu input; see `menu_rel`.
    pub fn on_input_menu(&mut self, th19: &mut Th19) -> (r: Result<(), SessionError>)
        requires
            old(self).wf(),
        ensures
            final(self).wf(),
            Self::menu_rel(*old(self), *final(self), *old(th19), *final(th19), r),
    {
        match self {
            JunowenState::Standby => Ok(()),
            JunowenState::BattleSession(session_state) => {
                let ghost b0 = *session_state;
                let r = session_state.on_input_menu(th19);
                let ghost b1 = *session_state;
                let ghost t2 = *th19;
                assert(BattleSessionState::menu_done(b0, b1, *old(th19), t2, r));
                if r.is_err() {
                    self.abort_session(th19);
                }
                r
            },
            JunowenState::SpectatorSession(session_state) => {
                let ghost s0 = *session_state;
                let rr = session_state.on_input_menu(th19);
                let ghost s1 = *session_state;
                let ghost t2 = *th19;
                assert(SpectatorSessionState::menu_done(s0, s1, *old(th19), t2, rr));
                match rr {
                    Ok(true) => Ok(()),
                    Ok(false) => {
                        self.abort_session(th19);
                        Ok(())
                    },
                    Err(e) => {
                        self.abort_session(th19);
                        Err(e)
                    },
                }
            },
        }
    }

    /// The game ended a round; see `round_over_rel`.
    pub fn on_round_over(&mut self, th19: &mut Th19) -> (r: Result<(), SessionError>)
        requires
            old(self).wf(),
        ensures
            final(self).wf(),
            Self::round_over_rel(*old(self), *final(self), *old(th19), *final(th19), r),
    {
        match self {
            JunowenState::Standby => Ok(()),
            JunowenState::BattleSession(session_state) => {
                let ghost b0 = *session_state;
                let r = session_state.on_round_over(th19);
                let ghost b1 = *session_state;
                let ghost t2 = *th19;
                assert(BattleSessionState::round_over(b0, b1, *old(th19), t2, r));
                if r.is_err() {
                    self.abort_session(th19);
                }
                r
            },
            JunowenState::SpectatorSession(session_state) => {
                let ghost s0 = *session_state;
                let r = session_state.on_round_over(th19);
                let ghost s1 = *session_state;
                let ghost t2 = *th19;
                assert(SpectatorSessionState::round_over(s0, s1, *old(th19), t2, r));
                if r.is_err() {
                    self.abort_session(th19);
                }
                r
            },
        }
    }

    /// What the game's "is this an online match" check answers: online
    /// while a session is live, else what the game itself says.
    pub fn is_online_vs(&self, game_answer: u8) -> (r: u8)
        ensures
            r == if *self is Standby {
                game_answer
            } else {
                1u8
            },
    {
        if !self.has_session() {
            return game_answer;
        }
        1
    }

    /// Whether the game may assign controllers to players by itself: only
    /// without a live session, which assigns them its own way.
    pub fn on_rewrite_controller_assignments(&self) -> (r: bool)
        ensures
            r == *self is Standby,
    {
        !self.has_session()
    }

    /// The game loaded its settings: a live match's agreed settings replace
    /// them.
    pub fn on_loaded_game_settings(&self, th19: &mut Th19)
        requires
            self.wf(),
        ensures
            *self is Standby ==> *final(th19) == *old(th19),
            self matches JunowenState::BattleSession(s) ==> *final(th19) == match s.session().agreed() {
                Some(m) => Th19 { game_settings_in_game: m.game_settings, ..*old(th19) },
                None => *old(th19),
            },
            self matches JunowenState::SpectatorSession(s) ==> *final(th19) == match s.session().initial() {
                Some(i) => Th19 { game_settings_in_game: i.settings(), ..*old(th19) },
                None => *old(th19),
            },
    {
        if let Some(game_settings) = self.game_settings() {
            th19.game_settings_in_game = game_settings;
        }
    }
}

} // verus!
