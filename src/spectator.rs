//! The watching side of a spectator relay: it receives the match settings,
//! the round seeds and every frame's input pair, and sends nothing.
use vstd::prelude::*;
use std::sync::mpsc::{Receiver, Sender};

use crate::channel::{recv_message, send_message};
use crate::session::{RoundInitial, SessionError};
use crate::th19::GameSettings;

verus! {

/// What a spectator learns once per match: both players' names and the
/// agreed settings.
#[derive(Clone, Debug)]
pub struct SpectatorInitial {
    p1_name: String,
    p2_name: String,
    game_settings: GameSettings,
}

impl SpectatorInitial {
    pub fn new(p1_name: String, p2_name: String, game_settings: GameSettings) -> (r: Self)
        ensures
            r.p1() == p1_name@,
            r.p2() == p2_name@,
            r.settings() == game_settings,
    {
        SpectatorInitial { p1_name, p2_name, game_settings }
    }

    pub closed spec fn p1(&self) -> Seq<char> {
        self.p1_name@
    }

    pub closed spec fn p2(&self) -> Seq<char> {
        self.p2_name@
    }

    pub closed spec fn settings(&self) -> GameSettings {
        self.game_settings
    }

    pub fn p1_name(&self) -> (r: &str)
        ensures
            r@ == self.p1(),
    {
        self.p1_name.as_str()
    }

    pub fn p2_name(&self) -> (r: &str)
        ensures
            r@ == self.p2(),
    {
        self.p2_name.as_str()
    }

    pub fn game_settings(&self) -> (r: GameSettings)
        ensures
            r == self.settings(),
    {
        self.game_settings
    }
}

/// What the relaying side sends a spectator.
#[derive(Clone, Debug)]
pub enum SpectatorMessage {
    Initial(SpectatorInitial),
    InitRound(RoundInitial),
    /// The pair of one frame, player 1's input first.
    Inputs(u16, u16),
}

/// A spectator's session. It only receives.
pub struct SpectatorSessionGuest {
    incoming: Receiver<SpectatorMessage>,
    spectator_initial: Option<SpectatorInitial>,
    closed: bool,
    received_log: Ghost<Seq<SpectatorMessage>>,
}

impl SpectatorSessionGuest {
    pub closed spec fn is_closed(&self) -> bool {
        self.closed
    }

    pub closed spec fn initial(&self) -> Option<SpectatorInitial> {
        self.spectator_initial
    }

    /// Every message taken from the channel, in order.
    pub closed spec fn received(&self) -> Seq<SpectatorMessage> {
        self.received_log@
    }

    /// Receives the next message, closing the session when none comes.
    fn recv(&mut self) -> (r: Option<SpectatorMessage>)
        ensures
            final(self).closed == (old(self).closed || r is None),
            final(self).spectator_initial == old(self).spectator_initial,
            final(self).received_log@ == match r {
                Some(m) => old(self).received_log@.push(m),
                None => old(self).received_log@,
            },
    {
        let r = recv_message(&self.incoming);
        match &r {
            Some(m) => {
                self.received_log = Ghost(self.received_log@.push(*m));
            },
            None => {
                self.closed = true;
            },
        }
        r
    }

    pub fn new(incoming: Receiver<SpectatorMessage>) -> (r: Self)
        ensures
            !r.is_closed(),
            r.initial() is None,
            r.received().len() == 0,
    {
        SpectatorSessionGuest {
            incoming,
            spectator_initial: None,
            closed: false,
            received_log: Ghost(Seq::empty()),
        }
    }

    /// Whether a receive has failed.
    pub fn is_closed_now(&self) -> (r: bool)
        ensures
            r == self.is_closed(),
    {
        self.closed
    }

    pub fn spectator_initial(&self) -> (r: Option<&SpectatorInitial>)
        ensures
            r matches Some(i) ==> self.initial() == Some(*i),
            r is None <==> self.initial() is None,
    {
        match &self.spectator_initial {
            Some(i) => Some(i),
            None => None,
        }
    }

    /// Receives the match's names and settings, unless it already has them.
    pub fn recv_init_spectator(&mut self) -> (r: Result<(), SessionError>)
        ensures
            old(self).is_closed() ==> r == Err::<(), SessionError>(SessionError::Disconnected)
                && *final(self) == *old(self),
            !old(self).is_closed() && old(self).initial() is Some ==> r is Ok && *final(self)
                == *old(self),
            r is Ok <==> !final(self).is_closed(),
            r is Ok ==> final(self).initial() is Some,
            !old(self).is_closed() && old(self).initial() is None ==> {
                let got = final(self).received();
                ||| got == old(self).received() && r == Err::<(), SessionError>(SessionError::Disconnected)
                ||| got.len() == old(self).received().len() + 1 && got.drop_last() == old(self).received()
                    && match initial_result(Some(got.last())) {
                    Ok(i) => r is Ok && final(self).initial() == Some(i),
                    Err(e) => r == Err::<(), SessionError>(e),
                }
            },
            old(self).initial() is Some ==> final(self).initial() == old(self).initial(),
            r is Ok && old(self).initial() is None ==> final(self).received() == old(self).received().push(
                SpectatorMessage::Initial(final(self).initial()->0),
            ),
            r is Err ==> final(self).initial() == old(self).initial(),
            r matches Err(e) ==> (e == SessionError::Disconnected ==> final(self).received() == old(self).received()),
            r matches Err(e) ==> (e == SessionError::UnexpectedMessage ==> final(self).received().len() == old(self).received().len() + 1),
            r matches Err(e) ==> e != SessionError::ConflictingMatchInitial,
    {
        if self.closed {
            return Err(SessionError::Disconnected);
        }
        if self.spectator_initial.is_some() {
            return Ok(());
        }
        let reply = self.recv();
        match initial_reply(reply) {
            Ok(initial) => {
                self.spectator_initial = Some(initial);
                Ok(())
            },
            Err(e) => {
                self.closed = true;
                Err(e)
            },
        }
    }

    /// Receives the next round's seeds.
    pub fn recv_init_round(&mut self) -> (r: Result<RoundInitial, SessionError>)
        ensures
            old(self).is_closed() ==> r == Err::<RoundInitial, SessionError>(
                SessionError::Disconnected,
            ) && *final(self) == *old(self),
            r is Ok <==> !final(self).is_closed(),
            final(self).initial() == old(self).initial(),
            r matches Ok(x) ==> final(self).received() == old(self).received().push(
                SpectatorMessage::InitRound(x),
            ),
            !old(self).is_closed() ==> {
                let got = final(self).received();
                ||| got == old(self).received() && r == Err::<RoundInitial, SessionError>(SessionError::Disconnected)
                ||| got.len() == old(self).received().len() + 1 && got.drop_last() == old(self).received()
                    && r == seeds_result(Some(got.last()))
            },
            r is Err ==> final(self).initial() == old(self).initial(),
            r matches Err(e) ==> (e == SessionError::Disconnected ==> final(self).received() == old(self).received()),
            r matches Err(e) ==> (e == SessionError::UnexpectedMessage ==> final(self).received().len() == old(self).received().len() + 1),
            r matches Err(e) ==> e != SessionError::ConflictingMatchInitial,
    {
        if self.closed {
            return Err(SessionError::Disconnected);
        }
        let reply = self.recv();
        match seeds_reply(reply) {
            Ok(x) => Ok(x),
            Err(e) => {
                self.closed = true;
                Err(e)
            },
        }
    }

    /// Receives the next frame's pair, player 1's input first.
    pub fn dequeue_inputs(&mut self) -> (r: Result<(u16, u16), SessionError>)
        ensures
            old(self).is_closed() ==> r == Err::<(u16, u16), SessionError>(
                SessionError::Disconnected,
            ) && *final(self) == *old(self),
            r is Ok <==> !final(self).is_closed(),
            final(self).initial() == old(self).initial(),
            r matches Ok(x) ==> final(self).received() == old(self).received().push(
                SpectatorMessage::Inputs(x.0, x.1),
            ),
            !old(self).is_closed() ==> {
                let got = final(self).received();
                ||| got == old(self).received() && r == Err::<(u16, u16), SessionError>(SessionError::Disconnected)
                ||| got.len() == old(self).received().len() + 1 && got.drop_last() == old(self).received()
                    && r == inputs_result(Some(got.last()))
            },
            r is Err ==> final(self).initial() == old(self).initial(),
            r matches Err(e) ==> (e == SessionError::Disconnected ==> final(self).received() == old(self).received()),
            r matches Err(e) ==> (e == SessionError::UnexpectedMessage ==> final(self).received().len() == old(self).received().len() + 1),
            r matches Err(e) ==> e != SessionError::ConflictingMatchInitial,
    {
        if self.closed {
            return Err(SessionError::Disconnected);
        }
        let reply = self.recv();
        match inputs_reply(reply) {
            Ok(x) => Ok(x),
            Err(e) => {
                self.closed = true;
                Err(e)
            },
        }
    }
}

/// What a spectator makes of the message it waits for: no message is a
/// disconnection, the expected kind is taken, any other breaks the
/// protocol.
pub open spec fn initial_result(reply: Option<SpectatorMessage>) -> Result<SpectatorInitial, SessionError> {
    match reply {
        None => Err(SessionError::Disconnected),
        Some(SpectatorMessage::Initial(i)) => Ok(i),
        Some(_) => Err(SessionError::UnexpectedMessage),
    }
}

/// See `initial_result`; for the round's seeds.
pub open spec fn seeds_result(reply: Option<SpectatorMessage>) -> Result<RoundInitial, SessionError> {
    match reply {
        None => Err(SessionError::Disconnected),
        Some(SpectatorMessage::InitRound(s)) => Ok(s),
        Some(_) => Err(SessionError::UnexpectedMessage),
    }
}

/// See `initial_result`; for a frame's pair.
pub open spec fn inputs_result(reply: Option<SpectatorMessage>) -> Result<(u16, u16), SessionError> {
    match reply {
        None => Err(SessionError::Disconnected),
        Some(SpectatorMessage::Inputs(p1, p2)) => Ok((p1, p2)),
        Some(_) => Err(SessionError::UnexpectedMessage),
    }
}

/// Decides on the message that should carry the match's names and settings.
pub fn initial_reply(reply: Option<SpectatorMessage>) -> (r: Result<SpectatorInitial, SessionError>)
    ensures
        r == initial_result(reply),
{
    match reply {
        None => Err(SessionError::Disconnected),
        Some(SpectatorMessage::Initial(i)) => Ok(i),
        Some(_) => Err(SessionError::UnexpectedMessage),
    }
}

/// Decides on the message that should carry a round's seeds.
pub fn seeds_reply(reply: Option<SpectatorMessage>) -> (r: Result<RoundInitial, SessionError>)
    ensures
        r == seeds_result(reply),
{
    match reply {
        None => Err(SessionError::Disconnected),
        Some(SpectatorMessage::InitRound(s)) => Ok(s),
        Some(_) => Err(SessionError::UnexpectedMessage),
    }
}

/// Decides on the message that should carry a frame's pair.
pub fn inputs_reply(reply: Option<SpectatorMessage>) -> (r: Result<(u16, u16), SessionError>)
    ensures
        r == inputs_result(reply),
{
    match reply {
        None => Err(SessionError::Disconnected),
        Some(SpectatorMessage::Inputs(p1, p2)) => Ok((p1, p2)),
        Some(_) => Err(SessionError::UnexpectedMessage),
    }
}

/// The relaying side of a spectator relay: it sends a spectator the match
/// settings, each round's seeds and each frame's pair, and receives nothing.
pub struct SpectatorSessionHost {
    outgoing: Sender<SpectatorMessage>,
    closed: bool,
    sent_log: Ghost<Seq<SpectatorMessage>>,
}

impl SpectatorSessionHost {
    pub closed spec fn is_closed(&self) -> bool {
        self.closed
    }

    /// Every message handed to the channel, in order.
    pub closed spec fn sent(&self) -> Seq<SpectatorMessage> {
        self.sent_log@
    }

    pub fn new(outgoing: Sender<SpectatorMessage>) -> (r: Self)
        ensures
            !r.is_closed(),
            r.sent().len() == 0,
    {
        SpectatorSessionHost { outgoing, closed: false, sent_log: Ghost(Seq::empty()) }
    }

    /// Sends one message to the spectator.
    pub fn send(&mut self, msg: SpectatorMessage) -> (r: Result<(), SessionError>)
        ensures
            old(self).is_closed() ==> r == Err::<(), SessionError>(SessionError::Disconnected)
                && *final(self) == *old(self),
            r is Ok <==> !final(self).is_closed(),
            r is Ok ==> final(self).sent() == old(self).sent().push(msg),
            r is Err ==> final(self).sent() == old(self).sent() && r == Err::<(), SessionError>(
                SessionError::Disconnected,
            ),
    {
        if self.closed {
            return Err(SessionError::Disconnected);
        }
        let ghost g = msg;
        if send_message(&self.outgoing, msg) {
            self.sent_log = Ghost(self.sent_log@.push(g));
            Ok(())
        } else {
            self.closed = true;
            Err(SessionError::Disconnected)
        }
    }
}

} // verus!
