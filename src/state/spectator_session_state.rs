//! The phases of a match as a spectator follows it. They mirror the
//! players' phases, but only receive; START ends the watching.
use vstd::prelude::*;

use crate::session::SessionError;
use crate::spectator::{SpectatorMessage, SpectatorSessionGuest};
use crate::th19::{GameSettings, Input, Menu, PlayerMatchup, ScreenId, Th19};
use crate::th19_helpers::{
    is_local_versus_reached, local_versus_reached, move_to_local_versus_difficulty_select,
};
use super::game::{seeds_of, FIRST_SYNCED_FRAME};
use super::select::seeds_from;

verus! {

/// The live phase of a watched match, owning the spectator's session.
pub enum SpectatorSessionState {
    Null,
    Prepare { session: SpectatorSessionGuest },
    Select { session: SpectatorSessionGuest, first_time: bool },
    GameLoading { session: SpectatorSessionGuest },
    Game { session: SpectatorSessionGuest },
    BackToSelect { session: SpectatorSessionGuest },
}

/// Whether player 1 holds START.
pub open spec fn start_held(th19: &Th19) -> bool {
    th19.input_devices.p1_device().input.0 & 256u32 != 0
}

impl SpectatorSessionState {
    pub open spec fn session(&self) -> SpectatorSessionGuest {
        match self {
            SpectatorSessionState::Prepare { session } => *session,
            SpectatorSessionState::Select { session, .. } => *session,
            SpectatorSessionState::GameLoading { session } => *session,
            SpectatorSessionState::Game { session } => *session,
            SpectatorSessionState::BackToSelect { session } => *session,
            SpectatorSessionState::Null => arbitrary(),
        }
    }

    pub open spec fn wf(&self) -> bool {
        !(self is Null)
    }

    /// Starts following a match in its first phase.
    pub fn prepare(session: SpectatorSessionGuest) -> (r: Self)
        ensures
            r.wf(),
            r is Prepare,
            r.session() == session,
    {
        SpectatorSessionState::Prepare { session }
    }

    /// The settings of the watched match, once they have arrived.
    pub fn game_settings(&self) -> (r: Option<GameSettings>)
        requires
            self.wf(),
        ensures
            r == match self.session().initial() {
                Some(i) => Some(i.settings()),
                None => None,
            },
    {
        let session = match self {
            SpectatorSessionState::Prepare { session } => session,
            SpectatorSessionState::Select { session, .. } => session,
            SpectatorSessionState::GameLoading { session } => session,
            SpectatorSessionState::Game { session } => session,
            SpectatorSessionState::BackToSelect { session } => session,
            SpectatorSessionState::Null => {
                return None;
            },
        };
        match session.spectator_initial() {
            Some(initial) => Some(initial.game_settings()),
            None => None,
        }
    }

    /// Gives the session up, ending the phases.
    pub fn inner_spectator_session(self) -> (r: SpectatorSessionGuest)
        requires
            self.wf(),
        ensures
            r == self.session(),
    {
        match self {
            SpectatorSessionState::Prepare { session } => session,
            SpectatorSessionState::Select { session, .. } => session,
            SpectatorSessionState::GameLoading { session } => session,
            SpectatorSessionState::Game { session } => session,
            SpectatorSessionState::BackToSelect { session } => session,
            SpectatorSessionState::Null => unreached(),
        }
    }

    fn take(&mut self) -> (r: Self)
        ensures
            r == *old(self),
            *final(self) is Null,
    {
        let mut taken = SpectatorSessionState::Null;
        std::mem::swap(self, &mut taken);
        taken
    }

    pub fn change_to_select(&mut self)
        requires
            old(self).wf(),
        ensures
            *final(self) == (SpectatorSessionState::Select {
                session: old(self).session(),
                first_time: true,
            }),
    {
        let session = self.take().inner_spectator_session();
        *self = SpectatorSessionState::Select { session, first_time: true };
    }

    pub fn change_to_game_loading(&mut self)
        requires
            old(self).wf(),
        ensures
            *final(self) == (SpectatorSessionState::GameLoading { session: old(self).session() }),
    {
        let session = self.take().inner_spectator_session();
        *self = SpectatorSessionState::GameLoading { session };
    }

    pub fn change_to_game(&mut self)
        requires
            old(self).wf(),
        ensures
            *final(self) == (SpectatorSessionState::Game { session: old(self).session() }),
    {
        let session = self.take().inner_spectator_session();
        *self = SpectatorSessionState::Game { session };
    }

    pub fn change_to_back_to_select(&mut self)
        requires
            old(self).wf(),
        ensures
            *final(self) == (SpectatorSessionState::BackToSelect { session: old(self).session() }),
    {
        let session = self.take().inner_spectator_session();
        *self = SpectatorSessionState::BackToSelect { session };
    }

    /// How a phase moves on by what the game shows; see `update_state`.
    pub open spec fn update_done(b0: Self, b1: Self, th19: Th19, r: Option<Option<Menu>>) -> bool {
        &&& b1.session() == b0.session()
        &&& b0 is Prepare ==> match th19.menu {
            None => r == Some(None::<Menu>) && b1 == b0,
            Some(m) => r == Some(Some(m)) && if local_versus_reached(
                m.screen_id,
                th19.game_mode,
                th19.player_matchup,
            ) {
                b1 is Select && b1->first_time
            } else {
                b1 == b0
            },
        }
        &&& b0 is Select ==> match th19.menu {
            None => r == Some(None::<Menu>) && b1 == b0,
            Some(m) => if m.screen_id == ScreenId::GameLoading {
                r == Some(Some(m)) && b1 is GameLoading
            } else if m.screen_id == ScreenId::PlayerMatchupSelect || (m.screen_id
                == ScreenId::CharacterSelect && start_held(&th19)) {
                r is None && b1 == b0
            } else {
                r == Some(Some(m)) && b1 == b0
            },
        }
        &&& b0 is GameLoading ==> r == Some(None::<Menu>) && if th19.round matches Some(f)
            && f.first_frame() {
            b1 is Game
        } else {
            b1 == b0
        }
        &&& b0 is Game ==> if start_held(&th19) {
            r is None && b1 == b0
        } else if th19.round is None {
            r == Some(None::<Menu>) && b1 is BackToSelect
        } else {
            r == Some(None::<Menu>) && b1 == b0
        }
        &&& b0 is BackToSelect ==> match th19.menu {
            None => r == Some(None::<Menu>) && b1 == b0,
            Some(m) => r == Some(Some(m)) && if m.screen_id == ScreenId::CharacterSelect {
                b1 is Select && b1->first_time
            } else {
                b1 == b0
            },
        }
    }

    /// What a phase does with the players' inputs in one tick; see
    /// `update_th19_on_input_players`. The select phase's first tick
    /// receives the match's names and settings (unless they came before)
    /// and the round's seeds; after that, off the difficulty select and in
    /// a round, the relayed pair is written to both players.
    pub open spec fn players_done(
        b0: Self,
        b1: Self,
        menu: Option<Menu>,
        t0: Th19,
        t1: Th19,
        r: Result<(), SessionError>,
    ) -> bool {
        &&& r is Err ==> b1.session().is_closed() && t1.input_devices == t0.input_devices
        &&& match b0 {
            SpectatorSessionState::Prepare { .. } => r is Ok && b1 == b0 && exists|o: Th19|
                t0.players_set(&o, Input(0), Input(0)) && t1 == (Th19 { no_wait: true, ..o }),
            SpectatorSessionState::Select { session, first_time } => match menu {
                None => b1 == b0 && t1 == t0 && (r is Ok <==> !session.is_closed()),
                Some(m) => {
                    let g0 = session;
                    let g1 = b1.session();
                    let n = g0.received().len();
                    let hs: nat = if !first_time {
                        0
                    } else if g0.initial() is None {
                        2
                    } else {
                        1
                    };
                    let mid = if first_time {
                        seeds_from(Th19 { no_wait: false, ..t0 }, t1)
                    } else {
                        t0
                    };
                    &&& b1 == (SpectatorSessionState::Select { session: g1, first_time: false })
                    &&& r is Ok <==> !g1.is_closed()
                    &&& !first_time || g0.initial() is Some ==> g1.initial() == g0.initial()
                    &&& r is Ok && first_time ==> g1.initial() is Some && g1.received()[n + hs - 1]
                        == SpectatorMessage::InitRound(seeds_of(&t1))
                    &&& r is Ok && first_time && g0.initial() is None ==> g1.received()[n as int]
                        == SpectatorMessage::Initial(g1.initial()->0)
                    &&& r is Ok && m.screen_id == ScreenId::DifficultySelect ==> t1 == mid
                        && g1.received().len() == n + hs
                    &&& r is Ok && m.screen_id != ScreenId::DifficultySelect ==> g1.received().len()
                        == n + hs + 1 && (g1.received().last() matches SpectatorMessage::Inputs(p1, p2)
                        && mid.players_set(&t1, Input(p1 as u32), Input(p2 as u32)))
                },
            },
            SpectatorSessionState::Game { session } => {
                let g1 = b1.session();
                &&& b1 == (SpectatorSessionState::Game { session: g1 })
                &&& r is Ok <==> !g1.is_closed()
                &&& g1.initial() == session.initial()
                &&& if t0.round matches Some(f) && f.frame >= FIRST_SYNCED_FRAME {
                    r is Ok ==> (g1.received().len() == session.received().len() + 1
                        && g1.received().drop_last() == session.received() && (g1.received().last() matches SpectatorMessage::Inputs(p1, p2)
                        && t0.players_set(&t1, Input(p1 as u32), Input(p2 as u32))))
                } else {
                    b1 == b0 && t1 == t0
                }
            },
            SpectatorSessionState::GameLoading { .. }
            | SpectatorSessionState::BackToSelect { .. } => r is Ok && b1 == b0 && t1 == t0,
            SpectatorSessionState::Null => true,
        }
    }

    /// What a phase does with the menu input in one tick; see
    /// `on_input_menu`. `Ok(false)` ends the watching: START on the
    /// difficulty select.
    pub open spec fn menu_done(b0: Self, b1: Self, t0: Th19, t1: Th19, r: Result<bool, SessionError>) -> bool {
        match b0 {
            SpectatorSessionState::Prepare { .. } => r == Ok::<bool, SessionError>(true) && b1 == b0
                && t1.round == t0.round && t1.input_devices == t0.input_devices,
            SpectatorSessionState::Select { session, first_time } => {
                let g1 = b1.session();
                let on_difficulty = t0.menu matches Some(m) && m.screen_id == ScreenId::DifficultySelect;
                &&& b1 == (SpectatorSessionState::Select { session: g1, first_time })
                &&& if !on_difficulty {
                    r == Ok::<bool, SessionError>(true) && b1 == b0 && t1 == t0
                } else if t0.menu_input.0 & 256u32 != 0 {
                    r == Ok::<bool, SessionError>(false) && b1 == b0 && t1 == t0
                } else if session.is_closed() {
                    r == Err::<bool, SessionError>(SessionError::Disconnected) && b1 == b0 && t1 == t0
                } else {
                    &&& r is Ok <==> !g1.is_closed()
                    &&& r is Err ==> t1 == t0
                    &&& r is Ok ==> r == Ok::<bool, SessionError>(true) && g1.received().drop_last()
                        == session.received() && g1.received().len() == session.received().len() + 1
                        && (g1.received().last() matches SpectatorMessage::Inputs(p1, p2) && t1 == (Th19 {
                        menu_input: Input(
                            if p1 != 0 {
                                p1
                            } else {
                                p2
                            } as u32,
                        ),
                        ..t0
                    }))
                }
            },
            _ => r == Ok::<bool, SessionError>(true) && b1 == b0 && t1 == t0,
        }
    }

    /// What the end of a round does in each phase; see `on_round_over`.
    pub open spec fn round_over(b0: Self, b1: Self, t0: Th19, t1: Th19, r: Result<(), SessionError>) -> bool {
        match b0 {
            SpectatorSessionState::Game { session } => {
                let g1 = b1.session();
                &&& b1 == (SpectatorSessionState::Game { session: g1 })
                &&& r is Ok <==> !g1.is_closed()
                &&& r is Err ==> t1 == t0
                &&& r is Ok ==> g1.received() == session.received().push(
                    SpectatorMessage::InitRound(seeds_of(&t1)),
                ) && t1 == seeds_from(t0, t1)
            },
            _ => r is Ok && b1 == b0 && t1 == t0,
        }
    }

    /// Moves to the next phase where what the game shows calls for it.
    /// Returns `None` where the watching has to end: the game went back to
    /// the matchup select, or START is held on the character select or in
    /// a round.
    pub fn update_state(&mut self, th19: &Th19) -> (r: Option<Option<Menu>>)
        requires
            old(self).wf(),
            th19.wf(),
        ensures
            final(self).wf(),
            Self::update_done(*old(self), *final(self), *th19, r),

    {
        let start = th19.input_devices.p1_input().is_start();
        match self {
            SpectatorSessionState::Prepare { .. } => {
                let menu = match th19.menu {
                    Some(menu) => menu,
                    None => {
                        return Some(None);
                    },
                };
                if is_local_versus_reached(menu.screen_id, th19.game_mode, th19.player_matchup) {
                    self.change_to_select();
                }
                Some(Some(menu))
            },
            SpectatorSessionState::Select { .. } => {
                let menu = match th19.menu {
                    Some(menu) => menu,
                    None => {
                        return Some(None);
                    },
                };
                match menu.screen_id {
                    ScreenId::PlayerMatchupSelect => None,
                    ScreenId::CharacterSelect => {
                        if start {
                            return None;
                        }
                        Some(Some(menu))
                    },
                    ScreenId::GameLoading => {
                        self.change_to_game_loading();
                        Some(Some(menu))
                    },
                    _ => Some(Some(menu)),
                }
            },
            SpectatorSessionState::GameLoading { .. } => {
                let first = match th19.round {
                    Some(round) => round.is_first_frame(),
                    None => false,
                };
                if first {
                    self.change_to_game();
                }
                Some(None)
            },
            SpectatorSessionState::Game { .. } => {
                if start {
                    return None;
                }
                if th19.round.is_none() {
                    self.change_to_back_to_select();
                }
                Some(None)
            },
            SpectatorSessionState::BackToSelect { .. } => {
                let menu = match th19.menu {
                    Some(menu) => menu,
                    None => {
                        return Some(None);
                    },
                };
                if menu.screen_id == ScreenId::CharacterSelect {
                    self.change_to_select();
                }
                Some(Some(menu))
            },
            SpectatorSessionState::Null => None,
        }
    }

    /// This tick's work on the players' inputs. The select phase first
    /// receives the match settings and the round's seeds; off the
    /// difficulty select and in a round, the relayed pair of the frame is
    /// written to both players.
    pub fn update_th19_on_input_players(&mut self, menu: Option<Menu>, th19: &mut Th19) -> (r:
        Result<(), SessionError>)
        requires
            old(self).wf(),
            old(th19).wf(),
        ensures
            final(self).wf(),
            final(th19).wf(),
            Self::players_done(*old(self), *final(self), menu, *old(th19), *final(th19), r),

    {
        match self {
            SpectatorSessionState::Prepare { .. } => {
                th19.set_player_inputs(Input(0), Input(0));
                let ghost mid = *th19;
                th19.no_wait = true;
                assert(*th19 == (Th19 { no_wait: true, ..mid }));
                Ok(())
            },
            SpectatorSessionState::Select { session, first_time } => {
                let menu = match menu {
                    Some(menu) => menu,
                    None => {
                        return if session.is_closed_now() {
                            Err(SessionError::Disconnected)
                        } else {
                            Ok(())
                        };
                    },
                };
                let ghost g0 = *session;
                let ghost t0 = *th19;
                let ghost n = g0.received().len();
                let was_first = *first_time;
                *first_time = false;
                if was_first {
                    th19.no_wait = false;
                    match session.recv_init_spectator() {
                        Ok(()) => {},
                        Err(e) => {
                            return Err(e);
                        },
                    }
                    let ghost g1 = *session;
                    match session.recv_init_round() {
                        Ok(init) => {
                            th19.rand_seed1 = init.seed1;
                            th19.rand_seed2 = init.seed2;
                            th19.rand_seed3 = init.seed3;
                            th19.rand_seed4 = init.seed4;
                            assert(seeds_of(th19) == init);
                            proof {
                                if g0.initial() is None {
                                    assert(session.received()[n as int] == g1.received()[n as int]);
                                }
                            }
                        },
                        Err(e) => {
                            return Err(e);
                        },
                    }
                }
                let ghost g_mid = *session;
                let ghost t_mid = *th19;
                if menu.screen_id == ScreenId::DifficultySelect {
                    return if session.is_closed_now() {
                        Err(SessionError::Disconnected)
                    } else {
                        Ok(())
                    };
                }
                match session.dequeue_inputs() {
                    Ok((p1, p2)) => {
                        th19.set_player_inputs(Input(p1 as u32), Input(p2 as u32));
                        proof {
                            let k = g_mid.received().len();
                            assert(session.received().last() == SpectatorMessage::Inputs(p1, p2));
                            if was_first {
                                assert(session.received()[k - 1] == g_mid.received()[k - 1]);
                                assert(session.received()[n as int] == g_mid.received()[n as int]);
                                assert(seeds_from(Th19 { no_wait: false, ..t0 }, *th19) == t_mid);
                            } else {
                                assert(t_mid == t0);
                            }
                            assert(t_mid.players_set(th19, Input(p1 as u32), Input(p2 as u32)));
                        }
                        Ok(())
                    },
                    Err(e) => Err(e),
                }
            },
            SpectatorSessionState::Game { session } => {
                let frame = match th19.round {
                    Some(round) => round.frame,
                    None => 0,
                };
                if frame < FIRST_SYNCED_FRAME {
                    return if session.is_closed_now() {
                        Err(SessionError::Disconnected)
                    } else {
                        Ok(())
                    };
                }
                let ghost g0 = *session;
                match session.dequeue_inputs() {
                    Ok((p1, p2)) => {
                        th19.set_player_inputs(Input(p1 as u32), Input(p2 as u32));
                        assert(old(th19).players_set(th19, Input(p1 as u32), Input(p2 as u32)));
                        assert(session.received().drop_last() =~= g0.received());
                        assert(session.received().last() == SpectatorMessage::Inputs(p1, p2));
                        Ok(())
                    },
                    Err(e) => Err(e),
                }
            },
            _ => Ok(()),
        }
    }

    /// This tick's work on the menu input. Returns `false` where the
    /// watching has to end: START on the difficulty select.
    pub fn on_input_menu(&mut self, th19: &mut Th19) -> (r: Result<bool, SessionError>)
        requires
            old(self).wf(),
        ensures
            final(self).wf(),
            Self::menu_done(*old(self), *final(self), *old(th19), *final(th19), r),

    {
        match self {
            SpectatorSessionState::Prepare { .. } => {
                if let Some(mut menu) = th19.menu {
                    move_to_local_versus_difficulty_select(th19, &mut menu, PlayerMatchup::HumanVsHuman);
                    th19.menu = Some(menu);
                }
                Ok(true)
            },
            SpectatorSessionState::Select { session, .. } => {
                let on_difficulty_select = match th19.menu {
                    Some(menu) => menu.screen_id == ScreenId::DifficultySelect,
                    None => false,
                };
                if !on_difficulty_select {
                    return Ok(true);
                }
                if th19.menu_input.is_start() {
                    return Ok(false);
                }
                let ghost g0 = *session;
                match session.dequeue_inputs() {
                    Ok((p1, p2)) => {
                        assert(session.received().drop_last() =~= g0.received());
                        assert(session.received().last() == SpectatorMessage::Inputs(p1, p2));
                        let chosen = if p1 != 0 {
                            p1
                        } else {
                            p2
                        };
                        th19.menu_input = Input(chosen as u32);
                        Ok(true)
                    },
                    Err(e) => Err(e),
                }
            },
            _ => Ok(true),
        }
    }

    /// The game ended a round: in the round phase, the next round's seeds
    /// are received and written to the game.
    pub fn on_round_over(&mut self, th19: &mut Th19) -> (r: Result<(), SessionError>)
        requires
            old(self).wf(),
        ensures
            final(self).wf(),
            Self::round_over(*old(self), *final(self), *old(th19), *final(th19), r),

    {
        match self {
            SpectatorSessionState::Game { session } => {
                match session.recv_init_round() {
                    Ok(init) => {
                        th19.rand_seed1 = init.seed1;
                        th19.rand_seed2 = init.seed2;
                        th19.rand_seed3 = init.seed3;
                        th19.rand_seed4 = init.seed4;
                        assert(old(th19).seeds_set(th19, init.seed1, init.seed2, init.seed3, init.seed4));
                        Ok(())
                    },
                    Err(e) => Err(e),
                }
            },
            _ => Ok(()),
        }
    }
}

} // verus!
