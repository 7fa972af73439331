//! The character and settings select screen: the match and round
//! handshakes, then per-frame exchange of menu input.
use vstd::prelude::*;

use super::game::seeds_of;
use crate::session::{BattleSession, MatchInitial, Message, RoundInitial, SessionError};
use crate::th19::{Input, Menu, ScreenId, Th19};

verus! {

/// The messages that the handshakes of a select phase's first tick send:
/// the match handshake while no settings are agreed, then the round
/// handshake. Later ticks send none.
pub open spec fn handshake_sent(
    first_time: bool,
    agreed: Option<MatchInitial>,
    host: bool,
    th19: Th19,
) -> Seq<Message> {
    if !first_time {
        Seq::empty()
    } else {
        let match_msgs = if agreed is None {
            seq![
                Message::InitMatch(
                    th19.player_name,
                    if host {
                        Some(MatchInitial { game_settings: th19.game_settings_in_menu })
                    } else {
                        None
                    },
                ),
            ]
        } else {
            Seq::empty()
        };
        match_msgs.push(
            Message::InitRound(
                if host {
                    Some(seeds_of(&th19))
                } else {
                    None
                },
            ),
        )
    }
}

/// `a` is a prefix of `b`.
pub open spec fn is_prefix_of(a: Seq<Message>, b: Seq<Message>) -> bool {
    a.len() <= b.len() && a == b.take(a.len() as int)
}

/// What a failed tick may have sent: part of what it planned before its
/// input, or all of that and its input.
pub open spec fn sent_within(before: Seq<Message>, after: Seq<Message>, planned: Seq<Message>) -> bool {
    let full = before + planned;
    ||| is_prefix_of(after, full)
    ||| after.len() == full.len() + 1 && after.drop_last() == full && after.last() is Input
}

/// `t1` is `t0` with the random seeds of `t1`.
pub open spec fn seeds_from(t0: Th19, t1: Th19) -> Th19 {
    Th19 {
        rand_seed1: t1.rand_seed1,
        rand_seed2: t1.rand_seed2,
        rand_seed3: t1.rand_seed3,
        rand_seed4: t1.rand_seed4,
        ..t0
    }
}

/// What the handshakes of a select phase's first tick do, where they
/// succeed: the messages sent are `handshake_sent`, one message is received
/// for each, the host's settings become the agreed ones, and the guest
/// writes the seeds of the host's round message to its game.
pub open spec fn handshakes_done(s0: BattleSession, s1: BattleSession, t0: Th19, t1: Th19) -> bool {
    let hs = handshake_sent(true, s0.agreed(), s0.is_host(), t0);
    let ghost n = s0.received_messages().len();
    &&& s1.sent_messages() == s0.sent_messages() + hs
    &&& s1.received_messages().len() == n + hs.len()
    &&& s1.received_messages().subrange(0, n as int) == s0.received_messages()
    &&& s1.received_messages().last() == Message::InitRound(
        if s0.is_host() {
            None
        } else {
            Some(seeds_of(&t1))
        },
    )
    &&& s1.agreed() is Some
    &&& s0.agreed() is Some ==> s1.agreed() == s0.agreed()
    &&& s0.agreed() is None && s0.is_host() ==> s1.agreed() == Some(
        MatchInitial { game_settings: t0.game_settings_in_menu },
    )
    &&& s0.agreed() is None && !s0.is_host() ==> s1.received_messages()[n as int] is InitMatch
        && s1.received_messages()[n as int]->InitMatch_1 == s1.agreed()
    &&& t1 == seeds_from(t0, t1)
    &&& s0.is_host() ==> seeds_of(&t1) == seeds_of(&t0)
}

/// Runs the handshakes of a select phase that has just begun. The match
/// handshake runs only while no settings are agreed; the host offers the
/// settings of its menu and the seeds of its generator, the guest writes
/// the seeds it receives to its game.
fn init_handshakes(session: &mut BattleSession, th19: &mut Th19) -> (r: Result<(), SessionError>)
    requires
        old(session).wf(),
        old(th19).wf(),
    ensures
        final(session).wf(),
        final(th19).wf(),
        final(session).is_host() == old(session).is_host(),
        final(session).queue() == old(session).queue(),
        r is Ok <==> !final(session).is_closed(),
        r is Err ==> *final(th19) == *old(th19),
        r is Ok ==> handshakes_done(*old(session), *final(session), *old(th19), *final(th19)),
        r is Err ==> is_prefix_of(
            final(session).sent_messages(),
            old(session).sent_messages() + handshake_sent(true, old(session).agreed(), old(session).is_host(), *old(th19)),
        ),
        r is Err ==> final(session).agreed() == old(session).agreed() || old(session).agreed() is None,
        r matches Err(e) ==> e == SessionError::Disconnected || e == SessionError::UnexpectedMessage,
{
    let ghost s0 = *session;
    let ghost t0 = *th19;
    let host = session.host();
    if session.match_initial().is_none() {
        let init = if host {
            Some(MatchInitial { game_settings: th19.game_settings_in_menu })
        } else {
            None
        };
        match session.init_match(th19.player_name.clone(), init) {
            Ok(_) => {},
            Err(e) => {
                proof {
                    let full = s0.sent_messages() + handshake_sent(true, s0.agreed(), host, t0);
                    assert(s0.sent_messages() =~= full.take(s0.sent_messages().len() as int));
                    if session.sent_messages() != s0.sent_messages() {
                        assert(session.sent_messages() =~= full.take(s0.sent_messages().len() + 1 as int));
                    }
                }
                return Err(e);
            },
        }
    }
    let ghost s1 = *session;
    let ghost n = s0.received_messages().len();
    proof {
        if s0.agreed() is None {
            assert(s1.received_messages().len() == n + 1) by {
                assert(s1.received_messages().drop_last() == s0.received_messages());
            }
            assert(s1.received_messages().subrange(0, n as int) =~= s0.received_messages());
        } else {
            assert(s1.received_messages().subrange(0, n as int) =~= s0.received_messages());
        }
    }
    let seeds = if host {
        Some(
            RoundInitial {
                seed1: th19.rand_seed1,
                seed2: th19.rand_seed2,
                seed3: th19.rand_seed3,
                seed4: th19.rand_seed4,
            },
        )
    } else {
        None
    };
    match session.init_round(seeds) {
        Ok(got) => {
            if let Some(init) = got {
                th19.rand_seed1 = init.seed1;
                th19.rand_seed2 = init.seed2;
                th19.rand_seed3 = init.seed3;
                th19.rand_seed4 = init.seed4;
            }
            proof {
                assert(session.sent_messages() =~= s0.sent_messages() + handshake_sent(
                    true,
                    s0.agreed(),
                    host,
                    t0,
                ));
                assert(session.received_messages().subrange(0, n as int)
                    =~= s1.received_messages().subrange(0, n as int));
                if s0.agreed() is None {
                    assert(session.received_messages()[n as int] == s1.received_messages()[n as int]);
                    assert(s1.received_messages()[n as int] == s1.received_messages().last());
                }
            }
            Ok(())
        },
        Err(e) => {
            proof {
                let full = s0.sent_messages() + handshake_sent(true, s0.agreed(), host, t0);
                assert(s1.sent_messages() =~= full.take(s1.sent_messages().len() as int));
                if session.sent_messages() != s1.sent_messages() {
                    assert(session.sent_messages() =~= full);
                    assert(full.take(full.len() as int) =~= full);
                }
            }
            Err(e)
        },
    }
}

/// What one tick of the select screen does to the players' inputs, where
/// it succeeds: on the first tick of the phase the game returns to its own
/// pace and the handshakes run; then, off the difficulty select, player 1's
/// device input is exchanged and the agreed pair written to both players.
pub open spec fn select_tick_done(
    first_time: bool,
    screen: ScreenId,
    s0: BattleSession,
    s1: BattleSession,
    t0: Th19,
    t1: Th19,
) -> bool {
    let hs = handshake_sent(first_time, s0.agreed(), s0.is_host(), t0);
    let ghost n = s0.received_messages().len();
    let mid = if first_time {
        seeds_from(Th19 { no_wait: false, ..t0 }, t1)
    } else {
        t0
    };
    let k = s0.queue().sent().len() as int;
    let q = s1.queue();
    let pair = q.output_at(k);
    &&& s1.is_host() == s0.is_host()
    &&& !first_time || s0.agreed() is Some ==> s1.agreed() == s0.agreed()
    &&& first_time ==> s1.agreed() is Some
    &&& first_time && s0.agreed() is None && s0.is_host() ==> s1.agreed() == Some(
        MatchInitial { game_settings: t0.game_settings_in_menu },
    )
    &&& first_time && s0.agreed() is None && !s0.is_host() ==> s1.received_messages()[n as int] is InitMatch
        && s1.received_messages()[n as int]->InitMatch_1 == s1.agreed()
    &&& first_time ==> s1.received_messages()[n + hs.len() - 1] == Message::InitRound(
        if s0.is_host() {
            None
        } else {
            Some(seeds_of(&t1))
        },
    )
    &&& first_time && s0.is_host() ==> seeds_of(&t1) == seeds_of(&t0)
    &&& screen == ScreenId::DifficultySelect ==> {
        &&& t1 == mid
        &&& s1.sent_messages() == s0.sent_messages() + hs
        &&& s1.received_messages().len() == n + hs.len()
        &&& q == s0.queue()
    }
    &&& screen != ScreenId::DifficultySelect ==> {
        &&& q.frame() == k + 1
        &&& q.sent().drop_last() == s0.queue().sent()
        &&& q.sent().last().input == (t0.input_devices.p1_device().input.0 % 0x10000) as u16
        &&& s0.is_host() ==> q.sent().last().delay == (match t0.inputed_number {
            Some(d) => d,
            None => s0.queue().current_delay(),
        })
        &&& s1.sent_messages() == s0.sent_messages() + hs + seq![Message::Input(q.sent().last())]
        &&& s1.received_messages().len() >= n + hs.len()
        &&& mid.players_set(&t1, Input(pair.0 as u32), Input(pair.1 as u32))
    }
}

/// One tick of the select screen for the players' inputs; see
/// `select_tick_done` for what it does where it succeeds.
pub fn on_input_players(
    first_time: bool,
    session: &mut BattleSession,
    menu: &Menu,
    th19: &mut Th19,
) -> (r: Result<(), SessionError>)
    requires
        old(session).wf(),
        old(th19).wf(),
    ensures
        final(session).wf(),
        final(th19).wf(),
        select_players(
            first_time,
            menu.screen_id,
            *old(session),
            *final(session),
            *old(th19),
            *final(th19),
            r,
        ),
{
    let ghost s0 = *session;
    let ghost t0 = *th19;
    if first_time {
        th19.no_wait = false;
        match init_handshakes(session, th19) {
            Ok(()) => {},
            Err(e) => {
                return Err(e);
            },
        }
    }
    let ghost s_mid = *session;
    let ghost t_mid = *th19;
    let ghost full = s0.sent_messages() + handshake_sent(first_time, s0.agreed(), s0.is_host(), t0);
    proof {
        if !first_time {
            assert(s0.sent_messages() + handshake_sent(first_time, s0.agreed(), s0.is_host(), t0)
                =~= s0.sent_messages());
        }
        assert(s_mid.sent_messages() == full);
        assert(full.take(full.len() as int) =~= full);
    }
    if menu.screen_id == ScreenId::DifficultySelect {
        if session.is_closed_now() {
            return Err(SessionError::Disconnected);
        }
        proof {
            if !first_time {
                assert(s0.sent_messages() + Seq::<Message>::empty() =~= s0.sent_messages());
            }
        }
        return Ok(());
    }
    let delay = if session.host() {
        th19.inputed_number
    } else {
        None
    };
    let input = (th19.input_devices.p1_input().0 % 0x10000) as u16;
    match session.enqueue_input_and_dequeue(input, delay) {
        Ok((p1, p2)) => {
            th19.set_player_inputs(Input(p1 as u32), Input(p2 as u32));
            proof {
                let hs = handshake_sent(first_time, s0.agreed(), s0.is_host(), t0);
                if !first_time {
                    assert(s0.sent_messages() + hs =~= s0.sent_messages());
                    assert(t_mid == t0);
                }
                assert(s_mid.sent_messages() == s0.sent_messages() + hs);
                assert(session.sent_messages() =~= s0.sent_messages() + hs + seq![
                    Message::Input(session.queue().sent().last()),
                ]);
                let n = s0.received_messages().len() + hs.len();
                assert(s_mid.received_messages().len() == n);
                assert(session.received_messages().subrange(0, n as int) =~= s_mid.received_messages());
                if first_time {
                    assert(session.received_messages()[n - 1] == s_mid.received_messages()[n - 1]);
                    if s0.agreed() is None && !s0.is_host() {
                        assert(session.received_messages()[s0.received_messages().len() as int]
                            == s_mid.received_messages()[s0.received_messages().len() as int]);
                    }
                    assert(seeds_of(th19) == seeds_of(&t_mid));
                    assert(seeds_from(Th19 { no_wait: false, ..t0 }, *th19) == t_mid);
                }
            }
            Ok(())
        },
        Err(e) => {
            proof {
                if session.sent_messages() != s_mid.sent_messages() {
                    assert(session.sent_messages().drop_last() == full);
                }
            }
            Err(e)
        },
    }
}

/// What a tick of menu input on the select screens does: on the
/// difficulty select the menu input is exchanged, and the game sees player
/// 1's when it holds anything, else player 2's; elsewhere nothing happens.
pub open spec fn menu_tick(s0: BattleSession, s1: BattleSession, t0: Th19, t1: Th19, r: Result<(), SessionError>) -> bool {
    &&& (s1.is_host() == s0.is_host())
    &&& (r matches Err(e) ==> e == SessionError::Disconnected || e == SessionError::UnexpectedMessage)
    &&& (s0.is_closed() && (t0.menu matches Some(m) && m.screen_id == ScreenId::DifficultySelect) ==> r
        == Err::<(), SessionError>(SessionError::Disconnected) && s1 == s0 && t1 == t0)
    &&& (s1.agreed() == s0.agreed())
    &&& (!(t0.menu matches Some(m) && m.screen_id == ScreenId::DifficultySelect) ==> r is Ok
            && t1 == t0 && s1 == s0)
    &&& (t0.menu matches Some(m) && m.screen_id == ScreenId::DifficultySelect ==> (r is Ok
            <==> !s1.is_closed()))
    &&& (r is Err ==> t1 == t0)
    &&& (t0.menu matches Some(m) && m.screen_id == ScreenId::DifficultySelect && r is Ok ==> {
            let k = s0.queue().sent().len() as int;
            let q = s1.queue();
            let pair = q.output_at(k);
            &&& q.sent().last().input == (t0.menu_input.0 % 0x10000) as u16
            &&& q.frame() == k + 1
            &&& s1.sent_messages() == s0.sent_messages().push(Message::Input(q.sent().last()))
            &&& t1 == (Th19 {
                menu_input: Input(
                    if pair.0 != 0 {
                        pair.0
                    } else {
                        pair.1
                    } as u32,
                ),
                ..t0
            })
        })
}

/// Whether a tick of the select screen for the players' inputs ended as
/// `select_tick_done` says, or failed with the session closed.
pub open spec fn select_players(
    first_time: bool,
    screen: ScreenId,
    s0: BattleSession,
    s1: BattleSession,
    t0: Th19,
    t1: Th19,
    r: Result<(), SessionError>,
) -> bool {
    &&& s1.is_host() == s0.is_host()
    &&& (r is Ok <==> !s1.is_closed())
    &&& r is Ok ==> select_tick_done(first_time, screen, s0, s1, t0, t1)
    &&& r is Err ==> s1.agreed() == s0.agreed() || (first_time && s0.agreed() is None)
    &&& r is Err ==> sent_within(
        s0.sent_messages(),
        s1.sent_messages(),
        handshake_sent(first_time, s0.agreed(), s0.is_host(), t0),
    )
    &&& r matches Err(e) ==> e == SessionError::Disconnected || e == SessionError::UnexpectedMessage
}

/// One tick of the difficulty select for the menu input: the menu input is
/// exchanged, and the game sees player 1's when it holds anything, else
/// player 2's.
pub fn on_input_menu(session: &mut BattleSession, th19: &mut Th19) -> (r: Result<
    (),
    SessionError,
>)
    requires
        old(session).wf(),
    ensures
        final(session).wf(),
        menu_tick(*old(session), *final(session), *old(th19), *final(th19), r),

{
    let on_difficulty_select = match th19.menu {
        Some(menu) => menu.screen_id == ScreenId::DifficultySelect,
        None => false,
    };
    if !on_difficulty_select {
        return Ok(());
    }
    let delay = if session.host() {
        th19.inputed_number
    } else {
        None
    };
    let input = (th19.menu_input.0 % 0x10000) as u16;
    match session.enqueue_input_and_dequeue(input, delay) {
        Ok((p1, p2)) => {
            let chosen = if p1 != 0 {
                p1
            } else {
                p2
            };
            th19.menu_input = Input(chosen as u32);
            Ok(())
        },
        Err(e) => Err(e),
    }
}

/// Writes the agreed match settings into the game.
pub fn on_loaded_game_settings(match_initial: &MatchInitial, th19: &mut Th19)
    ensures
        final(th19).game_settings_in_game == match_initial.game_settings,
        final(th19).input_devices == old(th19).input_devices,
        final(th19).menu == old(th19).menu,
        final(th19).round == old(th19).round,
{
    th19.game_settings_in_game = match_initial.game_settings;
}

} // verus!
