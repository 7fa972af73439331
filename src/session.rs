//! A match between two peers: the match and round handshakes and the
//! per-frame input exchange over one ordered, reliable channel.
use vstd::prelude::*;
use std::sync::mpsc::{Receiver, Sender};

use crate::channel::{recv_message, send_message};
use crate::delayed_inputs::{
    frame_known, lemma_depth_bounds, lemma_peers_agree, DelayedInputs, InputFrame, INITIAL_DELAY,
};
use crate::spectator::{SpectatorInitial, SpectatorMessage, SpectatorSessionHost};
use crate::th19::GameSettings;

verus! {

/// Settings agreed once per match; the host originates them.
#[derive(Clone, Copy, Debug, PartialEq, Eq, Structural)]
pub struct MatchInitial {
    pub game_settings: GameSettings,
}

/// Random seeds of one round; the host originates them.
#[derive(Clone, Copy, Debug, PartialEq, Eq, Structural)]
pub struct RoundInitial {
    pub seed1: u16,
    pub seed2: u16,
    pub seed3: u16,
    pub seed4: u16,
}

/// What one peer sends the other.
#[derive(Clone, Debug)]
pub enum Message {
    /// The sender's player name, and the match settings if it is the host.
    InitMatch(String, Option<MatchInitial>),
    /// The round's seeds if the sender is the host.
    InitRound(Option<RoundInitial>),
    /// One frame's input.
    Input(InputFrame),
}

/// Why a session operation failed.
#[derive(Clone, Copy, Debug, PartialEq, Eq, Structural)]
pub enum SessionError {
    /// The channel closed: fatal to the match.
    Disconnected,
    /// The peer sent a message that the protocol does not allow here.
    UnexpectedMessage,
    /// The host offered match settings other than the ones already agreed.
    ConflictingMatchInitial,
}

/// `h1` is the relay `h0` after forwarding `msg`: a relay whose spectator
/// has gone is let go, and the match goes on without it.
pub open spec fn relayed(
    h0: Option<SpectatorSessionHost>,
    h1: Option<SpectatorSessionHost>,
    msg: SpectatorMessage,
) -> bool {
    match h0 {
        None => h1 is None,
        Some(h) => h1 is None || (h1 matches Some(h2) && !h2.is_closed() && h2.sent() == h.sent().push(
            msg,
        )),
    }
}

/// `h1` is the relay `h0` after forwarding the match's names, player 1's
/// first, and settings.
pub open spec fn relayed_initial(
    h0: Option<SpectatorSessionHost>,
    h1: Option<SpectatorSessionHost>,
    p1: Seq<char>,
    p2: Seq<char>,
    game_settings: GameSettings,
) -> bool {
    match h0 {
        None => h1 is None,
        Some(h) => h1 is None || (h1 matches Some(h2) && !h2.is_closed() && h2.sent().len()
            == h.sent().len() + 1 && h2.sent().drop_last() == h.sent() && (h2.sent().last() matches SpectatorMessage::Initial(i)
            && i.p1() == p1 && i.p2() == p2 && i.settings() == game_settings)),
    }
}

/// What the library makes of the peer's reply to its match handshake: no
/// reply is a disconnection; the peer's `InitMatch` gives its player name
/// and the host's settings, which exactly one side must carry; any other
/// message breaks the protocol.
pub open spec fn match_result(init: Option<MatchInitial>, reply: Option<Message>) -> Result<
    (String, MatchInitial),
    SessionError,
> {
    match reply {
        None => Err(SessionError::Disconnected),
        Some(Message::InitMatch(name, peer)) => match (init, peer) {
            (Some(mine), None) => Ok((name, mine)),
            (None, Some(theirs)) => Ok((name, theirs)),
            _ => Err(SessionError::UnexpectedMessage),
        },
        Some(_) => Err(SessionError::UnexpectedMessage),
    }
}

/// Decides on the peer's reply to the match handshake; see `match_result`.
pub fn match_reply(init: Option<MatchInitial>, reply: Option<Message>) -> (r: Result<
    (String, MatchInitial),
    SessionError,
>)
    ensures
        r == match_result(init, reply),
{
    match reply {
        None => Err(SessionError::Disconnected),
        Some(Message::InitMatch(name, peer)) => match (init, peer) {
            (Some(mine), None) => Ok((name, mine)),
            (None, Some(theirs)) => Ok((name, theirs)),
            _ => Err(SessionError::UnexpectedMessage),
        },
        Some(_) => Err(SessionError::UnexpectedMessage),
    }
}

/// What the library makes of the peer's reply to its round handshake: no
/// reply is a disconnection; the peer's `InitRound` is returned where it
/// carries seeds exactly when this side is the guest; anything else breaks
/// the protocol.
pub open spec fn round_result(host: bool, reply: Option<Message>) -> Result<
    Option<RoundInitial>,
    SessionError,
> {
    match reply {
        None => Err(SessionError::Disconnected),
        Some(Message::InitRound(peer)) => if (peer is Some) == host {
            Err(SessionError::UnexpectedMessage)
        } else {
            Ok(peer)
        },
        Some(_) => Err(SessionError::UnexpectedMessage),
    }
}

/// Decides on the peer's reply to the round handshake; see `round_result`.
pub fn round_reply(host: bool, reply: Option<Message>) -> (r: Result<Option<RoundInitial>, SessionError>)
    ensures
        r == round_result(host, reply),
{
    match reply {
        None => Err(SessionError::Disconnected),
        Some(Message::InitRound(peer)) => if peer.is_some() == host {
            Err(SessionError::UnexpectedMessage)
        } else {
            Ok(peer)
        },
        Some(_) => Err(SessionError::UnexpectedMessage),
    }
}

/// What the library makes of a message received while it waits for the
/// peer's input: no message is a disconnection, an input frame is taken,
/// anything else breaks the protocol.
pub open spec fn input_result(reply: Option<Message>) -> Result<InputFrame, SessionError> {
    match reply {
        None => Err(SessionError::Disconnected),
        Some(Message::Input(f)) => Ok(f),
        Some(_) => Err(SessionError::UnexpectedMessage),
    }
}

/// Decides on a message received while waiting for the peer's input; see
/// `input_result`.
pub fn input_reply(reply: Option<Message>) -> (r: Result<InputFrame, SessionError>)
    ensures
        r == input_result(reply),
{
    match reply {
        None => Err(SessionError::Disconnected),
        Some(Message::Input(f)) => Ok(f),
        Some(_) => Err(SessionError::UnexpectedMessage),
    }
}

/// The input frames among `msgs`, in order.
pub open spec fn inputs_of(msgs: Seq<Message>) -> Seq<InputFrame>
    decreases msgs.len(),
{
    if msgs.len() == 0 {
        Seq::empty()
    } else {
        let rest = inputs_of(msgs.drop_last());
        match msgs.last() {
            Message::Input(f) => rest.push(f),
            _ => rest,
        }
    }
}

/// Appending a message appends its frame, if it carries one.
pub proof fn lemma_inputs_of_push(msgs: Seq<Message>, m: Message)
    ensures
        inputs_of(msgs.push(m)) == match m {
            Message::Input(f) => inputs_of(msgs).push(f),
            _ => inputs_of(msgs),
        },
{
    assert(msgs.push(m).drop_last() =~= msgs);
}

/// A prefix of the messages carries a prefix of the frames.
pub proof fn lemma_inputs_of_prefix(a: Seq<Message>, b: Seq<Message>)
    requires
        a.len() <= b.len(),
        a == b.take(a.len() as int),
    ensures
        inputs_of(a).len() <= inputs_of(b).len(),
        inputs_of(a) == inputs_of(b).take(inputs_of(a).len() as int),
    decreases b.len(),
{
    if a.len() == b.len() {
        assert(a =~= b);
        assert(inputs_of(b).take(inputs_of(b).len() as int) =~= inputs_of(b));
    } else {
        let c = b.drop_last();
        assert(a =~= c.take(a.len() as int));
        lemma_inputs_of_prefix(a, c);
        assert(b =~= c.push(b.last()));
        lemma_inputs_of_push(c, b.last());
        assert(inputs_of(b).take(inputs_of(a).len() as int) =~= inputs_of(c).take(inputs_of(a).len() as int));
    }
}

/// The messages that carry `frames`, in order.
pub open spec fn input_messages(frames: Seq<InputFrame>) -> Seq<Message> {
    frames.map_values(|f: InputFrame| Message::Input(f))
}

/// One side of a match. It owns its channel ends: dropping it closes them.
pub struct BattleSession {
    outgoing: Sender<Message>,
    incoming: Receiver<Message>,
    remote_player_name: String,
    host: bool,
    delayed_inputs: DelayedInputs,
    match_initial: Option<MatchInitial>,
    closed: bool,
    sent_log: Ghost<Seq<Message>>,
    received_log: Ghost<Seq<Message>>,
    player_name: String,
    spectator_host: Option<SpectatorSessionHost>,
}

impl BattleSession {
    pub closed spec fn is_host(&self) -> bool {
        self.host
    }

    /// A receive or send has failed; every later operation fails too.
    pub closed spec fn is_closed(&self) -> bool {
        self.closed
    }

    /// The input queue of this side.
    pub closed spec fn queue(&self) -> DelayedInputs {
        self.delayed_inputs
    }

    /// The match settings agreed so far.
    pub closed spec fn agreed(&self) -> Option<MatchInitial> {
        self.match_initial
    }

    /// Every message handed to the channel, in order.
    pub closed spec fn sent_messages(&self) -> Seq<Message> {
        self.sent_log@
    }

    /// Every message taken from the channel, in order.
    pub closed spec fn received_messages(&self) -> Seq<Message> {
        self.received_log@
    }

    /// The spectator relay that this side feeds, if any.
    pub closed spec fn relay(&self) -> Option<SpectatorSessionHost> {
        self.spectator_host
    }

    /// This side's player name, as it went with the match handshake.
    pub closed spec fn own_name(&self) -> Seq<char> {
        self.player_name@
    }

    /// The other player's name, as it came with the match handshake.
    pub closed spec fn remote_name(&self) -> Seq<char> {
        self.remote_player_name@
    }

    pub closed spec fn wf(&self) -> bool {
        &&& self.delayed_inputs.wf()
        &&& self.delayed_inputs.is_host() == self.host
        &&& !self.closed ==> self.delayed_inputs.frame() == self.delayed_inputs.sent().len()
        &&& !self.closed && !self.host ==> self.delayed_inputs.received().len()
            == self.delayed_inputs.sent().len()
        &&& !self.closed ==> self.delayed_inputs.sent() == inputs_of(self.sent_log@)
        &&& !self.closed ==> self.delayed_inputs.received() == inputs_of(self.received_log@)
    }

    pub fn new(outgoing: Sender<Message>, incoming: Receiver<Message>, host: bool) -> (r: Self)
        ensures
            r.wf(),
            r.is_host() == host,
            !r.is_closed(),
            r.agreed() is None,
            r.queue().frame() == 0,
            r.queue().sent().len() == 0,
            r.queue().received().len() == 0,
            r.queue().current_delay() == INITIAL_DELAY,
            r.sent_messages().len() == 0,
            r.received_messages().len() == 0,
            r.relay() is None,
    {
        BattleSession {
            outgoing,
            incoming,
            remote_player_name: String::new(),
            host,
            delayed_inputs: DelayedInputs::new(host),
            match_initial: None,
            closed: false,
            sent_log: Ghost(Seq::empty()),
            received_log: Ghost(Seq::empty()),
            player_name: String::new(),
            spectator_host: None,
        }
    }

    pub fn host(&self) -> (r: bool)
        ensures
            r == self.is_host(),
    {
        self.host
    }

    /// Whether a receive or send has failed.
    pub fn is_closed_now(&self) -> (r: bool)
        ensures
            r == self.is_closed(),
    {
        self.closed
    }

    pub fn remote_player_name(&self) -> (r: &str)
        ensures
            r@ == self.remote_name(),
    {
        self.remote_player_name.as_str()
    }

    pub fn set_remote_player_name(&mut self, name: String)
        requires
            old(self).wf(),
        ensures
            final(self).wf(),
            final(self).remote_name() == name@,
            final(self).is_host() == old(self).is_host(),
            final(self).is_closed() == old(self).is_closed(),
            final(self).queue() == old(self).queue(),
            final(self).agreed() == old(self).agreed(),
    {
        self.remote_player_name = name;
    }

    /// The match settings agreed so far, if any.
    pub fn match_initial(&self) -> (r: Option<MatchInitial>)
        ensures
            r == self.agreed(),
    {
        self.match_initial
    }

    pub fn set_match_initial(&mut self, value: Option<MatchInitial>)
        requires
            old(self).wf(),
        ensures
            final(self).wf(),
            final(self).agreed() == value,
            final(self).remote_name() == old(self).remote_name(),
            final(self).is_host() == old(self).is_host(),
            final(self).is_closed() == old(self).is_closed(),
            final(self).queue() == old(self).queue(),
    {
        self.match_initial = value;
    }

    /// The delay that this side applies to its next frame.
    pub fn delay(&self) -> (r: u8)
        ensures
            r == self.queue().current_delay(),
    {
        self.delayed_inputs.delay()
    }

    /// Exchanges the match handshake: each side sends its player name, and
    /// the host the match settings. Both sides return the host's settings,
    /// and keep them: a later call exchanges nothing and returns them
    /// again. A host must not offer other settings once some are agreed;
    /// callers that Verus does not check get `ConflictingMatchInitial`.
    pub fn init_match(&mut self, player_name: String, init: Option<MatchInitial>) -> (r: Result<
        MatchInitial,
        SessionError,
    >)
        requires
            old(self).wf(),
            old(self).is_host() == init is Some,
            old(self).is_host() && old(self).agreed() is Some ==> init == old(self).agreed(),
        ensures
            final(self).wf(),
            final(self).is_host() == old(self).is_host(),
            final(self).queue() == old(self).queue(),
            r is Err ==> final(self).agreed() == old(self).agreed(),
            r == Err::<MatchInitial, SessionError>(SessionError::Disconnected) ==> final(self).received_messages() == old(self).received_messages(),
            r == Err::<MatchInitial, SessionError>(SessionError::UnexpectedMessage) ==> final(self).received_messages().len() == old(self).received_messages().len() + 1,
            old(self).is_closed() ==> r == Err::<MatchInitial, SessionError>(
                SessionError::Disconnected,
            ) && *final(self) == *old(self),
            !old(self).is_closed() && old(self).agreed() is Some ==> {
                let a = old(self).agreed()->0;
                &&& *final(self) == *old(self)
                &&& r == if old(self).is_host() && init != Some(a) {
                    Err::<MatchInitial, SessionError>(SessionError::ConflictingMatchInitial)
                } else {
                    Ok::<MatchInitial, SessionError>(a)
                }
            },
            r matches Ok(m) ==> final(self).agreed() == Some(m) && !final(self).is_closed(),
            r matches Ok(m) ==> (old(self).is_host() ==> init == Some(m)),
            r matches Err(e) ==> (e != SessionError::ConflictingMatchInitial ==> final(self).is_closed()),
            r matches Err(e) ==> (e == SessionError::ConflictingMatchInitial ==> old(self).agreed() is Some),
            !old(self).is_closed() && old(self).agreed() is None ==> {
                let sent = old(self).sent_messages().push(Message::InitMatch(player_name, init));
                let got = final(self).received_messages();
                ||| (final(self).sent_messages() == old(self).sent_messages() || final(self).sent_messages()
                    == sent) && got == old(self).received_messages() && r == Err::<MatchInitial, SessionError>(
                    SessionError::Disconnected,
                )
                ||| final(self).sent_messages() == sent && got.len() == old(self).received_messages().len() + 1
                    && got.drop_last() == old(self).received_messages() && match match_result(init, Some(got.last())) {
                    Ok(p) => r == Ok::<MatchInitial, SessionError>(p.1) && final(self).remote_name() == p.0@,
                    Err(e) => r == Err::<MatchInitial, SessionError>(e),
                }
            },
            r matches Ok(m) ==> (old(self).agreed() is None ==> final(self).own_name() == player_name@
                && relayed_initial(
                old(self).relay(),
                final(self).relay(),
                if old(self).is_host() { player_name@ } else { final(self).remote_name() },
                if old(self).is_host() { final(self).remote_name() } else { player_name@ },
                m.game_settings,
            )),
            r is Err || old(self).agreed() is Some ==> final(self).relay() == old(self).relay(),
            r is Ok && old(self).agreed() is None ==> {
                &&& final(self).sent_messages() == old(self).sent_messages().push(
                    Message::InitMatch(player_name, init),
                )
                &&& final(self).received_messages().len() == old(self).received_messages().len() + 1
                &&& final(self).received_messages().drop_last() == old(self).received_messages()
                &&& final(self).received_messages().last() matches Message::InitMatch(name, peer)
                &&& final(self).received_messages().last()->InitMatch_0@ == final(self).remote_name()
                &&& final(self).received_messages().last()->InitMatch_1 == if old(self).is_host() {
                    None
                } else {
                    final(self).agreed()
                }
            },
    {
        if self.closed {
            return Err(SessionError::Disconnected);
        }
        if let Some(agreed) = self.match_initial {
            if self.host && init != Some(agreed) {
                return Err(SessionError::ConflictingMatchInitial);
            }
            return Ok(agreed);
        }
        let own_name = player_name.clone();
        if !self.send(Message::InitMatch(player_name, init)) {
            return Err(SessionError::Disconnected);
        }
        let reply = self.recv();
        let agreed = match match_reply(init, reply) {
            Ok((name, agreed)) => {
                self.remote_player_name = name;
                agreed
            },
            Err(e) => {
                self.closed = true;
                return Err(e);
            },
        };
        self.match_initial = Some(agreed);
        self.player_name = own_name;
        self.relay_initial(agreed.game_settings);
        Ok(agreed)
    }

    /// Exchanges the round handshake: the host sends the round's seeds and
    /// the guest none. Returns what the other side sent: nothing to the
    /// host, the seeds to the guest.
    pub fn init_round(&mut self, init: Option<RoundInitial>) -> (r: Result<
        Option<RoundInitial>,
        SessionError,
    >)
        requires
            old(self).wf(),
            old(self).is_host() == init is Some,
        ensures
            final(self).wf(),
            final(self).is_host() == old(self).is_host(),
            final(self).queue() == old(self).queue(),
            final(self).agreed() == old(self).agreed(),
            old(self).is_closed() ==> r == Err::<Option<RoundInitial>, SessionError>(
                SessionError::Disconnected,
            ) && *final(self) == *old(self),
            r is Ok <==> !final(self).is_closed(),
            r matches Ok(x) ==> (x is Some <==> !old(self).is_host()),
            !old(self).is_closed() ==> {
                let sent = old(self).sent_messages().push(Message::InitRound(init));
                let got = final(self).received_messages();
                ||| (final(self).sent_messages() == old(self).sent_messages() || final(self).sent_messages()
                    == sent) && got == old(self).received_messages() && r == Err::<
                    Option<RoundInitial>,
                    SessionError,
                >(SessionError::Disconnected)
                ||| final(self).sent_messages() == sent && got.len() == old(self).received_messages().len() + 1
                    && got.drop_last() == old(self).received_messages() && r == round_result(
                    old(self).is_host(),
                    Some(got.last()),
                )
            },
            r matches Ok(x) ==> relayed(
                old(self).relay(),
                final(self).relay(),
                SpectatorMessage::InitRound(if old(self).is_host() { init->0 } else { x->0 }),
            ),
            r is Err ==> final(self).relay() == old(self).relay(),
            r matches Ok(x) ==> final(self).sent_messages() == old(self).sent_messages().push(
                Message::InitRound(init),
            ) && final(self).received_messages() == old(self).received_messages().push(
                Message::InitRound(x),
            ),
            r matches Err(e) ==> e != SessionError::ConflictingMatchInitial,
    {
        if self.closed {
            return Err(SessionError::Disconnected);
        }
        if !self.send(Message::InitRound(init)) {
            return Err(SessionError::Disconnected);
        }
        let reply = self.recv();
        match round_reply(self.host, reply) {
            Ok(peer) => {
                match (init, peer) {
                    (Some(seeds), _) | (None, Some(seeds)) => {
                        self.relay_message(SpectatorMessage::InitRound(seeds));
                    },
                    (None, None) => {},
                }
                Ok(peer)
            },
            Err(e) => {
                self.closed = true;
                Err(e)
            },
        }
    }

    /// Plays one frame: buffers and sends the local input, then returns the
    /// frame's pair, the host's input first, waiting for the other side's
    /// input where it has not arrived. Only the host passes a new delay; a
    /// guest first receives the host's message for the frame and takes its
    /// delay over.
    pub fn enqueue_input_and_dequeue(&mut self, input: u16, delay: Option<u8>) -> (r: Result<
        (u16, u16),
        SessionError,
    >)
        requires
            old(self).wf(),
            !old(self).is_host() ==> delay is None,
        ensures
            final(self).wf(),
            final(self).is_host() == old(self).is_host(),
            final(self).agreed() == old(self).agreed(),
            old(self).is_closed() ==> r == Err::<(u16, u16), SessionError>(
                SessionError::Disconnected,
            ) && *final(self) == *old(self),
            r is Ok <==> !final(self).is_closed(),
            r matches Err(e) ==> e != SessionError::ConflictingMatchInitial,
            r matches Ok(pair) ==> {
                let k = old(self).queue().sent().len() as int;
                let q = final(self).queue();
                &&& q.sent().drop_last() == old(self).queue().sent()
                &&& q.sent().last().input == input
                &&& old(self).is_host() ==> q.sent().last().delay == (match delay {
                    Some(d) => d,
                    None => old(self).queue().current_delay(),
                })
                &&& !old(self).is_host() ==> k < q.received().len() && q.sent().last().delay
                    == q.received()[k].delay
                &&& q.received().take(old(self).queue().received().len() as int)
                    == old(self).queue().received()
                &&& q.frame() == k + 1
                &&& pair == q.output_at(k)
                &&& final(self).sent_messages() == old(self).sent_messages().push(
                    Message::Input(q.sent().last()),
                )
                &&& final(self).received_messages() == old(self).received_messages() + input_messages(
                    q.received().subrange(
                        old(self).queue().received().len() as int,
                        q.received().len() as int,
                    ),
                )
                &&& q.current_delay() == q.sent().last().delay
                &&& relayed(old(self).relay(), final(self).relay(), SpectatorMessage::Inputs(pair.0, pair.1))
            },
            r is Err ==> final(self).relay() == old(self).relay(),
            !old(self).is_closed() ==> {
                let n = old(self).received_messages().len();
                let got = final(self).received_messages();
                &&& final(self).sent_messages() == old(self).sent_messages() || (final(self).sent_messages().len()
                    == old(self).sent_messages().len() + 1 && final(self).sent_messages().drop_last()
                    == old(self).sent_messages() && final(self).sent_messages().last() is Input
                    && final(self).sent_messages().last()->Input_0.input == input)
                &&& got.len() >= n && got.subrange(0, n as int) == old(self).received_messages()
                &&& forall|i: int| n <= i < got.len() - 1 ==> #[trigger] got[i] is Input
                &&& got.len() > n ==> match input_result(Some(got.last())) {
                    Err(e) => r == Err::<(u16, u16), SessionError>(e),
                    Ok(_) => true,
                }
                &&& r matches Err(e) ==> (e == SessionError::Disconnected || (got.len() > n
                    && input_result(Some(got.last())) == Err::<InputFrame, SessionError>(e)))
            },
    {
        if self.closed {
            return Err(SessionError::Disconnected);
        }
        let ghost old_received = self.delayed_inputs.received();
        if !self.host {
            let reply = self.recv();
            match input_reply(reply) {
                Err(e) => {
                    self.closed = true;
                    return Err(e);
                },
                Ok(m) => {
                    self.delayed_inputs.push_remote(m);
                    assert(self.delayed_inputs.received().subrange(
                        old_received.len() as int,
                        self.delayed_inputs.received().len() as int,
                    ) =~= seq![m]);
                    assert(input_messages(seq![m]) =~= seq![Message::Input(m)]);
                },
            }
        } else {
            assert(input_messages(
                self.delayed_inputs.received().subrange(
                    old_received.len() as int,
                    self.delayed_inputs.received().len() as int,
                ),
            ) =~= Seq::<Message>::empty());
        }
        let m = self.delayed_inputs.enqueue_local(input, delay);
        if !self.send(Message::Input(m)) {
            return Err(SessionError::Disconnected);
        }
        let ghost k = self.delayed_inputs.frame();
        let ghost sent = self.delayed_inputs.sent();
        assert(sent.drop_last() =~= old(self).delayed_inputs.sent());
        proof {
            lemma_depth_bounds(self.delayed_inputs.sent());
            lemma_depth_bounds(self.delayed_inputs.received());
            assert(self.received_log@ =~= old(self).received_log@ + input_messages(
                self.delayed_inputs.received().subrange(
                    old_received.len() as int,
                    self.delayed_inputs.received().len() as int,
                ),
            ));
        }
        while !self.delayed_inputs.is_ready()
            invariant
                self.delayed_inputs.wf(),
                self.delayed_inputs.is_host() == self.host,
                self.host == old(self).host,
                self.match_initial == old(self).match_initial,
                self.spectator_host == old(self).spectator_host,
                !old(self).closed,
                !self.closed,
                self.sent_log@ == old(self).sent_log@.push(Message::Input(m)),
                sent.last() == m,
                m.input == input,
                sent == inputs_of(self.sent_log@),
                self.delayed_inputs.received() == inputs_of(self.received_log@),
                self.delayed_inputs.current_delay() == m.delay,
                self.received_log@ == old(self).received_log@ + input_messages(
                    self.delayed_inputs.received().subrange(
                        old_received.len() as int,
                        self.delayed_inputs.received().len() as int,
                    ),
                ),
                sent.drop_last() == old(self).delayed_inputs.sent(),
                k == old(self).delayed_inputs.sent().len(),
                !self.host ==> k < self.delayed_inputs.received().len() && sent.last().delay
                    == self.delayed_inputs.received()[k as int].delay,
                self.delayed_inputs.frame() == k,
                self.delayed_inputs.sent() == sent,
                sent.len() == k + 1,
                !self.host ==> self.delayed_inputs.received().len() == sent.len(),
                self.delayed_inputs.received().take(old_received.len() as int) == old_received,
                old_received.len() <= self.delayed_inputs.received().len(),
            decreases k + 1 - self.delayed_inputs.received().len(),
        {
            proof {
                lemma_depth_bounds(self.delayed_inputs.sent());
                lemma_depth_bounds(self.delayed_inputs.received());
                assert(self.delayed_inputs.received().len() <= k);
            }
            let ghost log_pre = self.received_log@;
            let reply = self.recv();
            match input_reply(reply) {
                Err(e) => {
                    self.closed = true;
                    proof {
                        let n = old(self).received_log@.len();
                        let sub = self.delayed_inputs.received().subrange(
                            old_received.len() as int,
                            self.delayed_inputs.received().len() as int,
                        );
                        let g = self.received_log@;
                        assert(log_pre == old(self).received_log@ + input_messages(sub));
                        assert(g.subrange(0, n as int) =~= old(self).received_log@);
                        assert forall|i: int| n <= i < g.len() - 1 implies #[trigger] g[i] is Input by {
                            assert(g[i] == log_pre[i]);
                            assert(log_pre[i] == input_messages(sub)[i - n]);
                        }
                    }
                    return Err(e);
                },
                Ok(m) => {
                    let ghost before = self.delayed_inputs.received();
                    let ghost log_before = self.received_log@;
                    self.delayed_inputs.push_remote(m);
                    assert(self.delayed_inputs.received().subrange(
                        old_received.len() as int,
                        self.delayed_inputs.received().len() as int,
                    ) =~= before.subrange(old_received.len() as int, before.len() as int).push(m));
                    assert(input_messages(
                        before.subrange(old_received.len() as int, before.len() as int).push(m),
                    ) =~= input_messages(
                        before.subrange(old_received.len() as int, before.len() as int),
                    ).push(Message::Input(m)));
                    assert(self.received_log@ =~= old(self).received_log@ + input_messages(
                        self.delayed_inputs.received().subrange(
                            old_received.len() as int,
                            self.delayed_inputs.received().len() as int,
                        ),
                    ));
                    assert(self.delayed_inputs.received().take(old_received.len() as int)
                        =~= before.take(old_received.len() as int));
                },
            }
        }
        let pair = self.delayed_inputs.dequeue();
        self.relay_message(SpectatorMessage::Inputs(pair.0, pair.1));
        Ok(pair)
    }

    /// Forwards a message to the spectator relay, letting the relay go when
    /// its spectator has gone.
    fn relay_message(&mut self, msg: SpectatorMessage)
        ensures
            relayed(old(self).spectator_host, final(self).spectator_host, msg),
            final(self).closed == old(self).closed,
            final(self).host == old(self).host,
            final(self).delayed_inputs == old(self).delayed_inputs,
            final(self).match_initial == old(self).match_initial,
            final(self).remote_player_name == old(self).remote_player_name,
            final(self).player_name == old(self).player_name,
            final(self).sent_log == old(self).sent_log,
            final(self).received_log == old(self).received_log,
    {
        let mut taken = None;
        std::mem::swap(&mut self.spectator_host, &mut taken);
        if let Some(mut relay) = taken {
            if relay.send(msg).is_ok() {
                self.spectator_host = Some(relay);
            }
        }
    }

    /// The names of both players, player 1's (the host's) first.
    fn player_names(&self) -> (r: (String, String))
        ensures
            self.host ==> r.0@ == self.player_name@ && r.1@ == self.remote_player_name@,
            !self.host ==> r.0@ == self.remote_player_name@ && r.1@ == self.player_name@,
    {
        if self.host {
            (self.player_name.clone(), self.remote_player_name.clone())
        } else {
            (self.remote_player_name.clone(), self.player_name.clone())
        }
    }

    /// Forwards the match's names and settings to the spectator relay.
    fn relay_initial(&mut self, game_settings: GameSettings)
        ensures
            relayed_initial(
                old(self).spectator_host,
                final(self).spectator_host,
                if old(self).host { old(self).player_name@ } else { old(self).remote_player_name@ },
                if old(self).host { old(self).remote_player_name@ } else { old(self).player_name@ },
                game_settings,
            ),
            final(self).closed == old(self).closed,
            final(self).host == old(self).host,
            final(self).delayed_inputs == old(self).delayed_inputs,
            final(self).match_initial == old(self).match_initial,
            final(self).remote_player_name == old(self).remote_player_name,
            final(self).player_name == old(self).player_name,
            final(self).sent_log == old(self).sent_log,
            final(self).received_log == old(self).received_log,
    {
        let (p1, p2) = self.player_names();
        let initial = SpectatorInitial::new(p1, p2, game_settings);
        let ghost i = initial;
        let ghost h0 = self.spectator_host;
        self.relay_message(SpectatorMessage::Initial(initial));
        proof {
            if h0 is Some && self.spectator_host is Some {
                let h = h0->0;
                let h2 = self.spectator_host->0;
                assert(h2.sent() == h.sent().push(SpectatorMessage::Initial(i)));
                assert(h2.sent().drop_last() =~= h.sent());
                assert(h2.sent().last() == SpectatorMessage::Initial(i));
            }
        }
    }

    /// Starts feeding a spectator: it gets the match's names and settings at
    /// once where they are agreed, and every round and frame from then on.
    pub fn attach_spectator(&mut self, relay: SpectatorSessionHost)
        requires
            old(self).wf(),
        ensures
            final(self).wf(),
            final(self).is_host() == old(self).is_host(),
            final(self).is_closed() == old(self).is_closed(),
            final(self).queue() == old(self).queue(),
            final(self).agreed() == old(self).agreed(),
            final(self).sent_messages() == old(self).sent_messages(),
            final(self).received_messages() == old(self).received_messages(),
            old(self).agreed() is None ==> final(self).relay() == Some(relay),
            old(self).agreed() matches Some(m) ==> relayed_initial(
                Some(relay),
                final(self).relay(),
                if old(self).is_host() { old(self).own_name() } else { old(self).remote_name() },
                if old(self).is_host() { old(self).remote_name() } else { old(self).own_name() },
                m.game_settings,
            ),
    {
        self.spectator_host = Some(relay);
        if let Some(agreed) = self.match_initial {
            self.relay_initial(agreed.game_settings);
        }
    }

    /// Receives the next message, closing the session when none comes.
    fn recv(&mut self) -> (r: Option<Message>)
        ensures
            final(self).spectator_host == old(self).spectator_host,
            final(self).player_name == old(self).player_name,
            final(self).closed == (old(self).closed || r is None),
            final(self).sent_log == old(self).sent_log,
            final(self).received_log@ == match r {
                Some(m) => old(self).received_log@.push(m),
                None => old(self).received_log@,
            },
            inputs_of(final(self).received_log@) == match r {
                Some(Message::Input(f)) => inputs_of(old(self).received_log@).push(f),
                _ => inputs_of(old(self).received_log@),
            },
            final(self).host == old(self).host,
            final(self).delayed_inputs == old(self).delayed_inputs,
            final(self).match_initial == old(self).match_initial,
            final(self).remote_player_name == old(self).remote_player_name,
    {
        let r = recv_message(&self.incoming);
        match &r {
            Some(m) => {
                proof {
                    lemma_inputs_of_push(self.received_log@, *m);
                }
                self.received_log = Ghost(self.received_log@.push(*m));
            },
            None => {
                self.closed = true;
            },
        }
        r
    }

    /// Sends a message, closing the session when the channel is gone.
    fn send(&mut self, msg: Message) -> (r: bool)
        ensures
            final(self).spectator_host == old(self).spectator_host,
            final(self).player_name == old(self).player_name,
            final(self).closed == (old(self).closed || !r),
            final(self).received_log == old(self).received_log,
            final(self).sent_log@ == if r {
                old(self).sent_log@.push(msg)
            } else {
                old(self).sent_log@
            },
            r ==> inputs_of(final(self).sent_log@) == match msg {
                Message::Input(f) => inputs_of(old(self).sent_log@).push(f),
                _ => inputs_of(old(self).sent_log@),
            },
            final(self).host == old(self).host,
            final(self).delayed_inputs == old(self).delayed_inputs,
            final(self).match_initial == old(self).match_initial,
            final(self).remote_player_name == old(self).remote_player_name,
    {
        let ghost sent = msg;
        let r = send_message(&self.outgoing, msg);
        if r {
            proof {
                lemma_inputs_of_push(self.sent_log@, sent);
            }
            self.sent_log = Ghost(self.sent_log@.push(sent));
        } else {
            self.closed = true;
        }
        r
    }
}

/// Lockstep of two sessions: an open host and an open guest, each of
/// which has received, in order, a prefix of the messages the other sent,
/// yield the same pair for every frame whose inputs both of them know.
pub proof fn lemma_sessions_agree(h: BattleSession, g: BattleSession, k: int)
    requires
        h.wf(),
        g.wf(),
        h.is_host(),
        !g.is_host(),
        !h.is_closed(),
        !g.is_closed(),
        h.received_messages().len() <= g.sent_messages().len(),
        h.received_messages() == g.sent_messages().take(h.received_messages().len() as int),
        g.received_messages().len() <= h.sent_messages().len(),
        g.received_messages() == h.sent_messages().take(g.received_messages().len() as int),
        frame_known(h.queue().sent(), k),
        frame_known(h.queue().received(), k),
        frame_known(g.queue().sent(), k),
        frame_known(g.queue().received(), k),
    ensures
        h.queue().output_at(k) == g.queue().output_at(k),
{
    lemma_inputs_of_prefix(h.received_messages(), g.sent_messages());
    lemma_inputs_of_prefix(g.received_messages(), h.sent_messages());
    lemma_peers_agree(h.queue(), g.queue(), k);
}

} // verus!
