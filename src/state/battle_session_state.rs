//! The phases of a match for one of its two players.
use vstd::prelude::*;

use super::{game, select};
use super::select::select_players;
use crate::session::{BattleSession, SessionError};
use crate::spectator::SpectatorSessionHost;
use crate::th19::{GameSettings, Input, Menu, PlayerMatchup, ScreenId, Th19};
use crate::th19_helpers::{
    is_local_versus_reached, local_versus_reached, move_to_local_versus_difficulty_select,
};

verus! {

/// The live phase of a match, owning its session. The session moves from
/// phase to phase; `Null` only stands in while it moves.
pub enum BattleSessionState {
    Null,
    /// Taking the game's menus to the match setup.
    Prepare { session: BattleSession },
    /// On the select screens; `first_time` until the handshakes of the
    /// phase have run.
    Select { session: BattleSession, first_time: bool },
    /// Waiting for the round's first frame.
    GameLoading { session: BattleSession },
    /// A round in progress.
    Game { session: BattleSession },
    /// Waiting for the select screen after a round.
    BackToSelect { session: BattleSession },
}

impl BattleSessionState {
    pub open spec fn session(&self) -> BattleSession {
        match self {
            BattleSessionState::Prepare { session } => *session,
            BattleSessionState::Select { session, .. } => *session,
            BattleSessionState::GameLoading { session } => *session,
            BattleSessionState::Game { session } => *session,
            BattleSessionState::BackToSelect { session } => *session,
            BattleSessionState::Null => arbitrary(),
        }
    }

    pub open spec fn wf(&self) -> bool {
        &&& !(self is Null)
        &&& self.session().wf()
    }

    /// `b1` is in the same phase as `b0`.
    pub open spec fn same_phase(b0: Self, b1: Self) -> bool {
        match b0 {
            BattleSessionState::Null => b1 is Null,
            BattleSessionState::Prepare { .. } => b1 is Prepare,
            BattleSessionState::Select { first_time, .. } => b1 is Select && b1->first_time == first_time,
            BattleSessionState::GameLoading { .. } => b1 is GameLoading,
            BattleSessionState::Game { .. } => b1 is Game,
            BattleSessionState::BackToSelect { .. } => b1 is BackToSelect,
        }
    }

    /// Lets the live session feed a spectator; see
    /// `BattleSession::attach_spectator`.
    pub fn attach_spectator(&mut self, relay: SpectatorSessionHost)
        requires
            old(self).wf(),
        ensures
            final(self).wf(),
            Self::same_phase(*old(self), *final(self)),
            final(self).session().is_host() == old(self).session().is_host(),
            final(self).session().is_closed() == old(self).session().is_closed(),
            final(self).session().queue() == old(self).session().queue(),
            final(self).session().agreed() == old(self).session().agreed(),
            final(self).session().sent_messages() == old(self).session().sent_messages(),
            final(self).session().received_messages() == old(self).session().received_messages(),
            old(self).session().agreed() is None ==> final(self).session().relay() == Some(relay),
    {
        match self {
            BattleSessionState::Prepare { session } => session.attach_spectator(relay),
            BattleSessionState::Select { session, .. } => session.attach_spectator(relay),
            BattleSessionState::GameLoading { session } => session.attach_spectator(relay),
            BattleSessionState::Game { session } => session.attach_spectator(relay),
            BattleSessionState::BackToSelect { session } => session.attach_spectator(relay),
            BattleSessionState::Null => {},
        }
    }

    /// Starts a match in its first phase.
    pub fn prepare(session: BattleSession) -> (r: Self)
        requires
            session.wf(),
        ensures
            r.wf(),
            r is Prepare,
            r.session() == session,
    {
        BattleSessionState::Prepare { session }
    }

    /// The settings agreed for the match, if any yet.
    pub fn game_settings(&self) -> (r: Option<GameSettings>)
        requires
            self.wf(),
        ensures
            r == match self.session().agreed() {
                Some(m) => Some(m.game_settings),
                None => None,
            },
    {
        let agreed = match self {
            BattleSessionState::Prepare { session } => session.match_initial(),
            BattleSessionState::Select { session, .. } => session.match_initial(),
            BattleSessionState::GameLoading { session } => session.match_initial(),
            BattleSessionState::Game { session } => session.match_initial(),
            BattleSessionState::BackToSelect { session } => session.match_initial(),
            BattleSessionState::Null => None,
        };
        match agreed {
            Some(m) => Some(m.game_settings),
            None => None,
        }
    }

    /// Gives the session up, ending the phases.
    pub fn inner_session(self) -> (r: BattleSession)
        requires
            self.wf(),
        ensures
            r == self.session(),
    {
        match self {
            BattleSessionState::Prepare { session } => session,
            BattleSessionState::Select { session, .. } => session,
            BattleSessionState::GameLoading { session } => session,
            BattleSessionState::Game { session } => session,
            BattleSessionState::BackToSelect { session } => session,
            BattleSessionState::Null => unreached(),
        }
    }

    /// Takes the state out, leaving `Null` behind.
    fn take(&mut self) -> (r: Self)
        ensures
            r == *old(self),
            *final(self) is Null,
    {
        let mut taken = BattleSessionState::Null;
        std::mem::swap(self, &mut taken);
        taken
    }

    /// Enters the select phase, from the preparation or after a round.
    pub fn change_to_select(&mut self)
        requires
            old(self).wf(),
            *old(self) is Prepare || *old(self) is BackToSelect,
        ensures
            final(self).wf(),
            *final(self) == (BattleSessionState::Select {
                session: old(self).session(),
                first_time: true,
            }),
    {
        let session = self.take().inner_session();
        *self = BattleSessionState::Select { session, first_time: true };
    }

    /// Leaves the select screens for the loading of a round.
    pub fn change_to_game_loading(&mut self)
        requires
            old(self).wf(),
            *old(self) is Select,
        ensures
            final(self).wf(),
            *final(self) == (BattleSessionState::GameLoading { session: old(self).session() }),
    {
        let session = self.take().inner_session();
        *self = BattleSessionState::GameLoading { session };
    }

    /// Starts the round.
    pub fn change_to_game(&mut self)
        requires
            old(self).wf(),
            *old(self) is GameLoading,
        ensures
            final(self).wf(),
            *final(self) == (BattleSessionState::Game { session: old(self).session() }),
    {
        let session = self.take().inner_session();
        *self = BattleSessionState::Game { session };
    }

    /// Leaves the ended round for the select screen.
    pub fn change_to_back_to_select(&mut self)
        requires
            old(self).wf(),
            *old(self) is Game,
        ensures
            final(self).wf(),
            *final(self) == (BattleSessionState::BackToSelect { session: old(self).session() }),
    {
        let session = self.take().inner_session();
        *self = BattleSessionState::BackToSelect { session };
    }

    /// How a phase moves on by what the game shows; see `update_state`.
    pub open spec fn update_done(b0: Self, b1: Self, th19: Th19, r: Option<Option<Menu>>) -> bool {
        &&& b1.session() == b0.session()
        &&& b0 is Prepare ==> match th19.menu {
            None => r == Some(None::<Menu>) && b1 == b0,
            Some(m) => r == Some(Some(m)) && if local_versus_reached(
                m.screen_id,
                th19.game_mode,
                th19.player_matchup,
            ) {
                b1 is Select && b1->first_time
            } else {
                b1 == b0
            },
        }
        &&& b0 is Select ==> match th19.menu {
            None => r == Some(None::<Menu>) && b1 == b0,
            Some(m) => if m.screen_id == ScreenId::GameLoading {
                r == Some(Some(m)) && b1 is GameLoading
            } else if m.screen_id == ScreenId::PlayerMatchupSelect {
                r is None && b1 == b0
            } else {
                r == Some(Some(m)) && b1 == b0
            },
        }
        &&& b0 is GameLoading ==> r == Some(None::<Menu>) && if th19.round matches Some(f)
            && f.first_frame() {
            b1 is Game
        } else {
            b1 == b0
        }
        &&& b0 is Game ==> r == Some(None::<Menu>) && if th19.round is None {
            b1 is BackToSelect
        } else {
            b1 == b0
        }
        &&& b0 is BackToSelect ==> match th19.menu {
            None => r == Some(None::<Menu>) && b1 == b0,
            Some(m) => r == Some(Some(m)) && if m.screen_id == ScreenId::CharacterSelect {
                b1 is Select && b1->first_time
            } else {
                b1 == b0
            },
        }
    }

    /// What a phase does with the players' inputs in one tick; see
    /// `update_th19_on_input_players`.
    pub open spec fn players_done(
        b0: Self,
        b1: Self,
        menu: Option<Menu>,
        t0: Th19,
        t1: Th19,
        r: Result<(), SessionError>,
    ) -> bool {
        &&& b1.session().is_host() == b0.session().is_host()
        &&& r is Err ==> b1.session().is_closed()
        &&& match b0 {
            BattleSessionState::Prepare { .. } => r is Ok && b1 == b0 && exists|o: Th19|
                t0.players_set(&o, Input(0), Input(0)) && t1 == (Th19 { no_wait: true, ..o }),
            BattleSessionState::Select { session, first_time } => match menu {
                Some(m) => b1 == (BattleSessionState::Select {
                    session: b1.session(),
                    first_time: false,
                }) && select_players(first_time, m.screen_id, session, b1.session(), t0, t1, r),
                None => b1 == b0 && t1 == t0 && (r is Ok <==> !session.is_closed()),
            },
            BattleSessionState::Game { session } => if t0.round is Some {
                b1 == (BattleSessionState::Game { session: b1.session() }) && game::round_tick(
                    session,
                    b1.session(),
                    t0,
                    t1,
                    r,
                )
            } else {
                b1 == b0 && t1 == t0 && (r is Ok <==> !session.is_closed())
            },
            BattleSessionState::GameLoading { .. } | BattleSessionState::BackToSelect { .. } => r is Ok
                && b1 == b0 && t1 == t0,
            BattleSessionState::Null => true,
        }
    }

    /// What a phase does with the menu input in one tick; see
    /// `on_input_menu`.
    pub open spec fn menu_done(b0: Self, b1: Self, t0: Th19, t1: Th19, r: Result<(), SessionError>) -> bool {
        &&& b1.session().is_host() == b0.session().is_host()
        &&& r is Err ==> b1.session().is_closed()
        &&& match b0 {
            BattleSessionState::Prepare { .. } => r is Ok && b1 == b0 && t1.round == t0.round
                && t1.input_devices == t0.input_devices,
            BattleSessionState::Select { session, first_time } => b1 == (BattleSessionState::Select {
                session: b1.session(),
                first_time,
            }) && select::menu_tick(session, b1.session(), t0, t1, r),
            _ => r is Ok && b1 == b0 && t1 == t0,
        }
    }

    /// What the end of a round does in each phase; see `on_round_over`.
    pub open spec fn round_over(b0: Self, b1: Self, t0: Th19, t1: Th19, r: Result<(), SessionError>) -> bool {
        match b0 {
            BattleSessionState::Game { session } => b1 == (BattleSessionState::Game {
                session: b1.session(),
            }) && game::round_over_done(session, b1.session(), t0, t1, r),
            _ => r is Ok && b1 == b0 && t1 == t0,
        }
    }

    /// Moves to the next phase where what the game shows calls for it.
    /// Returns `None` where the match has to end (the game went back to the
    /// matchup select), else the menu for this tick's input handling where
    /// the phase works with one.
    pub fn update_state(&mut self, th19: &Th19) -> (r: Option<Option<Menu>>)
        requires
            old(self).wf(),
        ensures
            final(self).wf(),
            Self::update_done(*old(self), *final(self), *th19, r),

    {
        match self {
            BattleSessionState::Prepare { .. } => {
                let menu = match th19.menu {
                    Some(menu) => menu,
                    None => {
                        return Some(None);
                    },
                };
                if is_local_versus_reached(menu.screen_id, th19.game_mode, th19.player_matchup) {
                    self.change_to_select();
                }
                Some(Some(menu))
            },
            BattleSessionState::Select { .. } => {
                let menu = match th19.menu {
                    Some(menu) => menu,
                    None => {
                        return Some(None);
                    },
                };
                match menu.screen_id {
                    ScreenId::GameLoading => {
                        self.change_to_game_loading();
                        Some(Some(menu))
                    },
                    ScreenId::PlayerMatchupSelect => None,
                    _ => Some(Some(menu)),
                }
            },
            BattleSessionState::GameLoading { .. } => {
                let first = match th19.round {
                    Some(round) => round.is_first_frame(),
                    None => false,
                };
                if first {
                    self.change_to_game();
                }
                Some(None)
            },
            BattleSessionState::Game { .. } => {
                if th19.round.is_none() {
                    self.change_to_back_to_select();
                }
                Some(None)
            },
            BattleSessionState::BackToSelect { .. } => {
                let menu = match th19.menu {
                    Some(menu) => menu,
                    None => {
                        return Some(None);
                    },
                };
                if menu.screen_id == ScreenId::CharacterSelect {
                    self.change_to_select();
                }
                Some(Some(menu))
            },
            BattleSessionState::Null => None,
        }
    }

    /// This tick's work on the players' inputs: the preparation runs the
    /// game at full speed with both players idle; the select phase and the
    /// round exchange inputs; the waiting phases do nothing.
    pub fn update_th19_on_input_players(&mut self, menu: Option<Menu>, th19: &mut Th19) -> (r:
        Result<(), SessionError>)
        requires
            old(self).wf(),
            old(th19).wf(),
        ensures
            final(self).wf(),
            final(th19).wf(),
            Self::players_done(*old(self), *final(self), menu, *old(th19), *final(th19), r),

    {
        match self {
            BattleSessionState::Prepare { .. } => {
                th19.set_player_inputs(Input(0), Input(0));
                let ghost mid = *th19;
                th19.no_wait = true;
                assert(*th19 == (Th19 { no_wait: true, ..mid }));
                Ok(())
            },
            BattleSessionState::Select { session, first_time } => {
                match menu {
                    Some(menu) => {
                        let r = select::on_input_players(*first_time, session, &menu, th19);
                        *first_time = false;
                        r
                    },
                    None => {
                        if session.is_closed_now() {
                            Err(SessionError::Disconnected)
                        } else {
                            Ok(())
                        }
                    },
                }
            },
            BattleSessionState::Game { session } => {
                if th19.round.is_some() {
                    game::on_input_players(session, th19)
                } else if session.is_closed_now() {
                    Err(SessionError::Disconnected)
                } else {
                    Ok(())
                }
            },
            _ => Ok(()),
        }
    }

    /// This tick's work on the menu input: the preparation takes the menus
    /// one step on, the select phase exchanges the difficulty select's input.
    pub fn on_input_menu(&mut self, th19: &mut Th19) -> (r: Result<(), SessionError>)
        requires
            old(self).wf(),
        ensures
            final(self).wf(),
            Self::menu_done(*old(self), *final(self), *old(th19), *final(th19), r),

    {
        match self {
            BattleSessionState::Prepare { .. } => {
                if let Some(mut menu) = th19.menu {
                    move_to_local_versus_difficulty_select(th19, &mut menu, PlayerMatchup::HumanVsHuman);
                    th19.menu = Some(menu);
                }
                Ok(())
            },
            BattleSessionState::Select { session, .. } => select::on_input_menu(session, th19),
            _ => Ok(()),
        }
    }

    /// The game ended a round: in the round phase, the next round's seeds
    /// are exchanged.
    pub fn on_round_over(&mut self, th19: &mut Th19) -> (r: Result<(), SessionError>)
        requires
            old(self).wf(),
        ensures
            final(self).wf(),
            Self::round_over(*old(self), *final(self), *old(th19), *final(th19), r),

    {
        match self {
            BattleSessionState::Game { session } => game::on_round_over(session, th19),
            _ => Ok(()),
        }
    }
}

} // verus!
