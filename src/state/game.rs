//! A round in progress: every simulated frame goes through the input queue.
use vstd::prelude::*;

use crate::session::{BattleSession, Message, RoundInitial, SessionError};
use crate::th19::{Input, Th19};

verus! {

/// Frame of a round from which inputs are exchanged. The game calls the
/// hook for the frames before it an uncertain number of times.
pub const FIRST_SYNCED_FRAME: u32 = 1;

/// What a tick of a round does (only the low eight bits of player 1's
/// input, its buttons and directions, are exchanged; START stays local): before the first synchronized frame both
/// players' inputs are cleared; from it on, player 1's device input is
/// exchanged and the agreed pair written to both players.
pub open spec fn round_tick(s0: BattleSession, s1: BattleSession, t0: Th19, t1: Th19, r: Result<(), SessionError>) -> bool {
    &&& (s1.is_host() == s0.is_host())
    &&& (r matches Err(e) ==> e == SessionError::Disconnected || e == SessionError::UnexpectedMessage)
    &&& (t0.round->0.frame >= FIRST_SYNCED_FRAME && s0.is_closed() ==> r == Err::<(), SessionError>(
        SessionError::Disconnected,
    ) && s1 == s0)
    &&& (s1.agreed() == s0.agreed())
    &&& (t0.round->0.frame < FIRST_SYNCED_FRAME ==> r is Ok && s1
            == s0 && t0.players_set(&t1,
            Input(0),
            Input(0),
        ))
    &&& (t0.round->0.frame >= FIRST_SYNCED_FRAME ==> (r is Ok <==> !s1.is_closed()))
    &&& (r is Err ==> t1 == t0)
    &&& (t0.round->0.frame >= FIRST_SYNCED_FRAME && r is Ok ==> {
            let k = s0.queue().sent().len() as int;
            let q = s1.queue();
            let pair = q.output_at(k);
            &&& q.frame() == k + 1
            &&& q.sent().last().input == (t0.input_devices.p1_device().input.0 % 0x100) as u16
            &&& s0.is_host() ==> q.sent().last().delay == (match t0.inputed_number {
                Some(d) => d,
                None => s0.queue().current_delay(),
            })
            &&& t0.players_set(&t1, Input(pair.0 as u32), Input(pair.1 as u32))
        })
}

/// Plays one frame of the round: before the first synchronized frame both
/// players' inputs are cleared; from it on, player 1's device input is
/// exchanged (the host may pass a new delay from the number keys) and the
/// agreed pair is written to both players.
pub fn on_input_players(session: &mut BattleSession, th19: &mut Th19) -> (r: Result<
    (),
    SessionError,
>)
    requires
        old(session).wf(),
        old(th19).wf(),
        old(th19).round is Some,
    ensures
        final(session).wf(),
        final(th19).wf(),
        round_tick(*old(session), *final(session), *old(th19), *final(th19), r),

{
    let frame = match th19.round {
        Some(round) => round.frame,
        None => 0,
    };
    if frame < FIRST_SYNCED_FRAME {
        th19.set_player_inputs(Input(0), Input(0));
        return Ok(());
    }
    let delay = if session.host() {
        th19.inputed_number
    } else {
        None
    };
    let input = (th19.input_devices.p1_input().0 % 0x100) as u16;
    match session.enqueue_input_and_dequeue(input, delay) {
        Ok((p1, p2)) => {
            th19.set_player_inputs(Input(p1 as u32), Input(p2 as u32));
            Ok(())
        },
        Err(e) => Err(e),
    }
}

/// The seeds of the game's random generator.
pub open spec fn seeds_of(th19: &Th19) -> RoundInitial {
    RoundInitial {
        seed1: th19.rand_seed1,
        seed2: th19.rand_seed2,
        seed3: th19.rand_seed3,
        seed4: th19.rand_seed4,
    }
}

/// What the end of a round does: the host sends its generator's seeds, the
/// guest writes the seeds of the host's message to its game.
pub open spec fn round_over_done(s0: BattleSession, s1: BattleSession, t0: Th19, t1: Th19, r: Result<(), SessionError>) -> bool {
    &&& (s1.is_host() == s0.is_host())
    &&& (s1.agreed() == s0.agreed())
    &&& (s1.queue() == s0.queue())
    &&& (r is Ok <==> !s1.is_closed())
    &&& (s0.is_host() || r is Err ==> t1 == t0)
    &&& (s0.is_closed() ==> r == Err::<(), SessionError>(SessionError::Disconnected) && s1 == s0)
    &&& (r matches Err(e) ==> e == SessionError::Disconnected || e == SessionError::UnexpectedMessage)
    &&& (s0.is_host() && r is Ok ==> s1.sent_messages() == s0.sent_messages().push(
            Message::InitRound(Some(seeds_of(&t0))),
        ) && s1.received_messages() == s0.received_messages().push(Message::InitRound(None)))
    &&& (!s0.is_host() && r is Ok ==> s1.sent_messages() == s0.sent_messages().push(
            Message::InitRound(None),
        ) && s1.received_messages() == s0.received_messages().push(
            Message::InitRound(Some(seeds_of(&t1))),
        ) && t0.seeds_set(&t1,
            t1.rand_seed1,
            t1.rand_seed2,
            t1.rand_seed3,
            t1.rand_seed4,
        ))
}

/// Ends a round: the host sends the seeds of the next round from the
/// game's generator; the guest receives them and writes them to its game.
pub fn on_round_over(session: &mut BattleSession, th19: &mut Th19) -> (r: Result<
    (),
    SessionError,
>)
    requires
        old(session).wf(),
    ensures
        final(session).wf(),
        round_over_done(*old(session), *final(session), *old(th19), *final(th19), r),

{
    if session.host() {
        let init = RoundInitial {
            seed1: th19.rand_seed1,
            seed2: th19.rand_seed2,
            seed3: th19.rand_seed3,
            seed4: th19.rand_seed4,
        };
        match session.init_round(Some(init)) {
            Ok(_) => Ok(()),
            Err(e) => Err(e),
        }
    } else {
        match session.init_round(None) {
            Ok(Some(init)) => {
                th19.rand_seed1 = init.seed1;
                th19.rand_seed2 = init.seed2;
                th19.rand_seed3 = init.seed3;
                th19.rand_seed4 = init.seed4;
                Ok(())
            },
            Ok(None) => Ok(()),
            Err(e) => Err(e),
        }
    }
}

} // verus!
