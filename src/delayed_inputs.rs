//! The delay-based input queue.
//!
//! Each peer contributes a stream of per-frame inputs. A message carries one
//! sampled input and the delay (in frames) that its sender applies. The
//! stream that a message sequence denotes is append-only: a longer delay
//! inserts null inputs before the new one, a shorter delay drops the new
//! input so that the buffered depth shrinks by one frame per message. Frame
//! `k` of the match consumes position `k` of both streams.
use vstd::prelude::*;
use std::collections::VecDeque;

verus! {

/// Delay that both peers apply before the host first sends one.
pub const INITIAL_DELAY: u8 = 1;

/// Input that stands for a frame in which nothing was pressed.
pub const NULL_INPUT: u16 = 0;

/// One frame's contribution of a peer: its sampled input and its delay.
#[derive(Clone, Copy, Debug, PartialEq, Eq, Structural)]
pub struct InputFrame {
    pub input: u16,
    pub delay: u8,
}

/// `n` null inputs.
pub open spec fn nulls(n: nat) -> Seq<u16> {
    Seq::new(n, |_i: int| NULL_INPUT)
}

/// The input stream that a peer's message sequence denotes.
pub open spec fn stream_of(msgs: Seq<InputFrame>) -> Seq<u16>
    decreases msgs.len(),
{
    if msgs.len() == 0 {
        nulls(INITIAL_DELAY as nat)
    } else {
        let prev = stream_of(msgs.drop_last());
        let m = msgs.last();
        let depth = prev.len() - (msgs.len() - 1);
        if depth < m.delay {
            prev + nulls((m.delay - depth) as nat) + seq![m.input]
        } else if depth == m.delay {
            prev.push(m.input)
        } else {
            prev
        }
    }
}

/// How many frames ahead of its consumption a stream is buffered after
/// `msgs`: the stream's length less the number of messages.
pub open spec fn depth_of(msgs: Seq<InputFrame>) -> int {
    stream_of(msgs).len() - msgs.len()
}

/// The pair that frame `k` consumes: the host's input, then the guest's.
pub open spec fn frame_pair(host_msgs: Seq<InputFrame>, guest_msgs: Seq<InputFrame>, k: int) -> (
    u16,
    u16,
) {
    (stream_of(host_msgs)[k], stream_of(guest_msgs)[k])
}

/// Position `k` of the stream is known once `msgs` have arrived.
pub open spec fn frame_known(msgs: Seq<InputFrame>, k: int) -> bool {
    0 <= k < stream_of(msgs).len()
}

/// The buffered depth stays within `0..=255`, so it fits the delay type.
pub proof fn lemma_depth_bounds(msgs: Seq<InputFrame>)
    ensures
        0 <= depth_of(msgs) <= 255,
    decreases msgs.len(),
{
    if msgs.len() > 0 {
        lemma_depth_bounds(msgs.drop_last());
    }
}

/// A message extends the stream of the messages before it.
proof fn lemma_stream_step(msgs: Seq<InputFrame>)
    requires
        msgs.len() > 0,
    ensures
        stream_of(msgs.drop_last()).len() <= stream_of(msgs).len(),
        forall|i: int|
            0 <= i < stream_of(msgs.drop_last()).len() ==> stream_of(msgs)[i] == stream_of(
                msgs.drop_last(),
            )[i],
{
}

/// Streams only grow: the stream of a prefix of the messages is a prefix of
/// the stream of all of them.
pub proof fn lemma_stream_prefix(msgs: Seq<InputFrame>, j: int)
    requires
        0 <= j <= msgs.len(),
    ensures
        stream_of(msgs.take(j)).len() <= stream_of(msgs).len(),
        forall|i: int|
            0 <= i < stream_of(msgs.take(j)).len() ==> stream_of(msgs)[i] == stream_of(
                msgs.take(j),
            )[i],
    decreases msgs.len() - j,
{
    if j == msgs.len() {
        assert(msgs.take(j) =~= msgs);
    } else {
        let shorter = msgs.drop_last();
        assert(shorter.take(j) =~= msgs.take(j));
        lemma_stream_prefix(shorter, j);
        lemma_stream_step(msgs);
    }
}

/// Lockstep: where what each peer has received is a prefix of what the
/// other sent, both peers compute the same input pair for every frame whose
/// inputs both of them know.
pub proof fn lemma_lockstep(
    host_sent: Seq<InputFrame>,
    guest_sent: Seq<InputFrame>,
    host_received: Seq<InputFrame>,
    guest_received: Seq<InputFrame>,
    k: int,
)
    requires
        host_received.len() <= guest_sent.len(),
        host_received =~= guest_sent.take(host_received.len() as int),
        guest_received.len() <= host_sent.len(),
        guest_received =~= host_sent.take(guest_received.len() as int),
        frame_known(host_sent, k),
        frame_known(host_received, k),
        frame_known(guest_sent, k),
        frame_known(guest_received, k),
    ensures
        frame_pair(host_sent, host_received, k) == frame_pair(guest_received, guest_sent, k),
{
    lemma_stream_prefix(guest_sent, host_received.len() as int);
    lemma_stream_prefix(host_sent, guest_received.len() as int);
}

/// Sending the delay that the stream is already buffered at appends the
/// input and nothing else, and keeps the depth.
pub proof fn lemma_same_delay_appends(msgs: Seq<InputFrame>, m: InputFrame)
    requires
        depth_of(msgs) == m.delay,
    ensures
        stream_of(msgs.push(m)) == stream_of(msgs).push(m.input),
        depth_of(msgs.push(m)) == m.delay,
{
    assert(msgs.push(m).drop_last() =~= msgs);
}

/// A delay at least as long as the buffered depth is reached by the
/// message that carries it.
pub proof fn lemma_delay_reached(msgs: Seq<InputFrame>, m: InputFrame)
    requires
        depth_of(msgs) <= m.delay,
    ensures
        depth_of(msgs.push(m)) == m.delay,
{
    assert(msgs.push(m).drop_last() =~= msgs);
}

/// Idempotence of delay: once a delay has been applied, sending the same
/// delay again only appends the new input, so the output runs on without a
/// repeated or skipped frame.
pub proof fn lemma_repeated_delay(msgs: Seq<InputFrame>, first: InputFrame, second: InputFrame)
    requires
        depth_of(msgs) <= first.delay,
        second.delay == first.delay,
    ensures
        stream_of(msgs.push(first).push(second)) == stream_of(msgs.push(first)).push(
            second.input,
        ),
{
    lemma_delay_reached(msgs, first);
    lemma_same_delay_appends(msgs.push(first), second);
}

/// The queue of one peer: its own buffered inputs and those of the other
/// peer that have arrived but were not yet consumed.
pub struct DelayedInputs {
    host: bool,
    delay: u8,
    local: VecDeque<u16>,
    remote: VecDeque<u16>,
    local_depth: u8,
    remote_depth: u8,
    local_msgs: Ghost<Seq<InputFrame>>,
    remote_msgs: Ghost<Seq<InputFrame>>,
    frame: Ghost<nat>,
}

impl DelayedInputs {
    pub closed spec fn is_host(&self) -> bool {
        self.host
    }

    /// The delay that this peer stamps on its next message.
    pub closed spec fn current_delay(&self) -> u8 {
        self.delay
    }

    /// Every message this peer has produced.
    pub closed spec fn sent(&self) -> Seq<InputFrame> {
        self.local_msgs@
    }

    /// Every message of the other peer that has been handed in.
    pub closed spec fn received(&self) -> Seq<InputFrame> {
        self.remote_msgs@
    }

    /// The number of frames already dequeued.
    pub closed spec fn frame(&self) -> nat {
        self.frame@
    }

    /// The pair that frame `k` yields on this peer, the host's input first.
    pub open spec fn output_at(&self, k: int) -> (u16, u16) {
        if self.is_host() {
            frame_pair(self.sent(), self.received(), k)
        } else {
            frame_pair(self.received(), self.sent(), k)
        }
    }

    /// Both inputs of the next frame are known.
    pub open spec fn ready(&self) -> bool {
        &&& frame_known(self.sent(), self.frame() as int)
        &&& frame_known(self.received(), self.frame() as int)
    }

    pub closed spec fn wf(&self) -> bool {
        &&& self.frame@ <= stream_of(self.local_msgs@).len()
        &&& self.frame@ <= stream_of(self.remote_msgs@).len()
        &&& self.local@ == stream_of(self.local_msgs@).subrange(
            self.frame@ as int,
            stream_of(self.local_msgs@).len() as int,
        )
        &&& self.remote@ == stream_of(self.remote_msgs@).subrange(
            self.frame@ as int,
            stream_of(self.remote_msgs@).len() as int,
        )
        &&& self.local_depth as int == depth_of(self.local_msgs@)
        &&& self.remote_depth as int == depth_of(self.remote_msgs@)
        &&& self.frame@ <= self.local_msgs@.len()
        &&& !self.host ==> self.local_msgs@.len() <= self.remote_msgs@.len()
        &&& !self.host ==> forall|i: int|
            0 <= i < self.local_msgs@.len() ==> self.local_msgs@[i].delay
                == #[trigger] self.remote_msgs@[i].delay
        &&& !self.host && self.remote_msgs@.len() > 0 ==> self.delay
            == self.remote_msgs@.last().delay
        &&& !self.host && self.remote_msgs@.len() == 0 ==> self.delay == INITIAL_DELAY
    }

    pub fn new(host: bool) -> (r: Self)
        ensures
            r.wf(),
            r.is_host() == host,
            r.current_delay() == INITIAL_DELAY,
            r.sent() == Seq::<InputFrame>::empty(),
            r.received() == Seq::<InputFrame>::empty(),
            r.frame() == 0,
    {
        let mut local: VecDeque<u16> = VecDeque::new();
        local.push_back(NULL_INPUT);
        let mut remote: VecDeque<u16> = VecDeque::new();
        remote.push_back(NULL_INPUT);
        let r = DelayedInputs {
            host,
            delay: INITIAL_DELAY,
            local,
            remote,
            local_depth: INITIAL_DELAY,
            remote_depth: INITIAL_DELAY,
            local_msgs: Ghost(Seq::empty()),
            remote_msgs: Ghost(Seq::empty()),
            frame: Ghost(0),
        };
        assert(r.local@ =~= stream_of(Seq::<InputFrame>::empty()).subrange(0, 1));
        assert(r.remote@ =~= stream_of(Seq::<InputFrame>::empty()).subrange(0, 1));
        r
    }

    pub fn host(&self) -> (r: bool)
        ensures
            r == self.is_host(),
    {
        self.host
    }

    /// The delay that this peer stamps on its next message.
    pub fn delay(&self) -> (r: u8)
        ensures
            r == self.current_delay(),
    {
        self.delay
    }

    /// Appends the stream positions that message `m` adds.
    fn append_message(
        queue: &mut VecDeque<u16>,
        depth: &mut u8,
        m: InputFrame,
        Ghost(msgs): Ghost<Seq<InputFrame>>,
        Ghost(frame): Ghost<nat>,
    )
        requires
            frame <= stream_of(msgs).len(),
            old(queue)@ == stream_of(msgs).subrange(frame as int, stream_of(msgs).len() as int),
            *old(depth) as int == depth_of(msgs),
        ensures
            final(queue)@ == stream_of(msgs.push(m)).subrange(
                frame as int,
                stream_of(msgs.push(m)).len() as int,
            ),
            *final(depth) as int == depth_of(msgs.push(m)),
            frame <= stream_of(msgs.push(m)).len(),
    {
        let ghost all = msgs.push(m);
        assert(all.drop_last() =~= msgs);
        proof {
            lemma_depth_bounds(all);
        }
        if *depth < m.delay {
            let gap: u8 = m.delay - *depth;
            let mut i: u8 = 0;
            while i < gap
                invariant
                    i <= gap,
                    queue@ == old(queue)@ + nulls(i as nat),
                decreases gap - i,
            {
                queue.push_back(NULL_INPUT);
                i = i + 1;
                assert(queue@ =~= old(queue)@ + nulls(i as nat));
            }
            queue.push_back(m.input);
            *depth = m.delay;
            assert(queue@ =~= stream_of(all).subrange(frame as int, stream_of(all).len() as int));
        } else if *depth == m.delay {
            queue.push_back(m.input);
            assert(queue@ =~= stream_of(all).subrange(frame as int, stream_of(all).len() as int));
        } else {
            *depth = *depth - 1;
            assert(queue@ =~= stream_of(all).subrange(frame as int, stream_of(all).len() as int));
        }
    }

    /// Buffers the local input of the next frame and returns the message
    /// that carries it to the other peer. The host stamps `new_delay` when
    /// given, else its current delay; the guest stamps the delay of the
    /// host's message for the same frame, which it must have received.
    pub fn enqueue_local(&mut self, input: u16, new_delay: Option<u8>) -> (m: InputFrame)
        requires
            old(self).wf(),
            !old(self).is_host() ==> new_delay is None,
            !old(self).is_host() ==> old(self).received().len() == old(self).sent().len() + 1,
        ensures
            final(self).wf(),
            m.input == input,
            m.delay == (match new_delay {
                Some(d) => d,
                None => old(self).current_delay(),
            }),
            !old(self).is_host() ==> m.delay == old(self).received()[old(self).sent().len() as int].delay,
            final(self).current_delay() == m.delay,
            final(self).sent() == old(self).sent().push(m),
            final(self).received() == old(self).received(),
            final(self).frame() == old(self).frame(),
            final(self).is_host() == old(self).is_host(),
    {
        let delay = match new_delay {
            Some(d) => d,
            None => self.delay,
        };
        let m = InputFrame { input, delay };
        let ghost msgs = self.local_msgs@;
        Self::append_message(&mut self.local, &mut self.local_depth, m, Ghost(msgs), Ghost(self.frame@));
        self.delay = delay;
        self.local_msgs = Ghost(msgs.push(m));
        proof {
            lemma_stream_prefix(self.local_msgs@, msgs.len() as int);
            assert(self.local_msgs@.take(msgs.len() as int) =~= msgs);
            assert(stream_of(self.local_msgs@).len() >= self.local_msgs@.len()) by {
                lemma_depth_bounds(self.local_msgs@);
            }
            assert forall|i: int| 0 <= i < self.local_msgs@.len() && !self.host implies self.local_msgs@[i].delay
                == #[trigger] self.remote_msgs@[i].delay by {
                if i < msgs.len() {
                    assert(self.local_msgs@[i] == msgs[i]);
                }
            }
        }
        m
    }

    /// Hands in the next message of the other peer. A guest takes over the
    /// host's delay from it.
    pub fn push_remote(&mut self, m: InputFrame)
        requires
            old(self).wf(),
        ensures
            final(self).wf(),
            final(self).received() == old(self).received().push(m),
            final(self).sent() == old(self).sent(),
            final(self).frame() == old(self).frame(),
            final(self).is_host() == old(self).is_host(),
            old(self).is_host() ==> final(self).current_delay() == old(self).current_delay(),
            !old(self).is_host() ==> final(self).current_delay() == m.delay,
    {
        let ghost msgs = self.remote_msgs@;
        Self::append_message(&mut self.remote, &mut self.remote_depth, m, Ghost(msgs), Ghost(self.frame@));
        if !self.host {
            self.delay = m.delay;
        }
        self.remote_msgs = Ghost(msgs.push(m));
        proof {
            assert forall|i: int| 0 <= i < self.local_msgs@.len() && !self.host implies self.local_msgs@[i].delay
                == #[trigger] self.remote_msgs@[i].delay by {
                assert(self.remote_msgs@[i] == msgs[i]);
            }
        }
    }

    /// Whether both inputs of the next frame are known.
    pub fn is_ready(&self) -> (r: bool)
        requires
            self.wf(),
        ensures
            r == self.ready(),
    {
        self.local.len() > 0 && self.remote.len() > 0
    }

    /// Consumes the next frame and returns its pair, the host's input first.
    pub fn dequeue(&mut self) -> (r: (u16, u16))
        requires
            old(self).wf(),
            old(self).ready(),
            old(self).frame() < old(self).sent().len(),
        ensures
            final(self).wf(),
            r == old(self).output_at(old(self).frame() as int),
            final(self).frame() == old(self).frame() + 1,
            final(self).sent() == old(self).sent(),
            final(self).received() == old(self).received(),
            final(self).current_delay() == old(self).current_delay(),
            final(self).is_host() == old(self).is_host(),
    {
        let local = self.local.pop_front().unwrap();
        let remote = self.remote.pop_front().unwrap();
        let ghost k = self.frame@;
        self.frame = Ghost(k + 1);
        assert(self.local@ =~= stream_of(self.local_msgs@).subrange(
            self.frame@ as int,
            stream_of(self.local_msgs@).len() as int,
        ));
        assert(self.remote@ =~= stream_of(self.remote_msgs@).subrange(
            self.frame@ as int,
            stream_of(self.remote_msgs@).len() as int,
        ));
        if self.host {
            (local, remote)
        } else {
            (remote, local)
        }
    }
}

/// Lockstep of two queues: a host and a guest that have each received, in
/// order, a prefix of what the other sent yield the same pair for every
/// frame whose inputs both of them know.
pub proof fn lemma_peers_agree(host: DelayedInputs, guest: DelayedInputs, k: int)
    requires
        host.is_host(),
        !guest.is_host(),
        host.received().len() <= guest.sent().len(),
        host.received() =~= guest.sent().take(host.received().len() as int),
        guest.received().len() <= host.sent().len(),
        guest.received() =~= host.sent().take(guest.received().len() as int),
        frame_known(host.sent(), k),
        frame_known(host.received(), k),
        frame_known(guest.sent(), k),
        frame_known(guest.received(), k),
    ensures
        host.output_at(k) == guest.output_at(k),
{
    lemma_lockstep(host.sent(), guest.sent(), host.received(), guest.received(), k);
}

} // verus!
