use std::sync::mpsc::{channel, Receiver, Sender};

use junowen::delayed_inputs::InputFrame;
use junowen::spectator::{SpectatorSessionGuest, SpectatorSessionHost};
use junowen::session::{BattleSession, MatchInitial, Message, RoundInitial, SessionError};
use junowen::th19::GameSettings;

/// A host and a guest whose channels are joined directly.
fn joined_pair() -> (BattleSession, BattleSession) {
    let (host_tx, guest_rx) = channel();
    let (guest_tx, host_rx) = channel();
    (BattleSession::new(host_tx, host_rx, true), BattleSession::new(guest_tx, guest_rx, false))
}

/// A session whose peer the test plays by hand.
fn with_hand_peer(host: bool) -> (BattleSession, Sender<Message>, Receiver<Message>) {
    let (tx, peer_rx) = channel();
    let (peer_tx, rx) = channel();
    (BattleSession::new(tx, rx, host), peer_tx, peer_rx)
}

const A: u16 = 0x01;
const B: u16 = 0x02;
const C: u16 = 0x04;
const D: u16 = 0x08;
const W: u16 = 0x10;
const X: u16 = 0x20;
const Y: u16 = 0x40;
const Z: u16 = 0x80;

#[test]
fn end_to_end_delay_two() {
    let (mut host, mut guest) = joined_pair();
    let host_inputs = [A, B, C, D];
    let guest_inputs = [W, X, Y, Z];
    let mut host_out = vec![];
    let mut guest_out = vec![];
    for i in 0..4 {
        let delay = if i == 0 { Some(2) } else { None };
        host_out.push(host.enqueue_input_and_dequeue(host_inputs[i], delay).unwrap());
        guest_out.push(guest.enqueue_input_and_dequeue(guest_inputs[i], None).unwrap());
    }
    assert_eq!(host_out, vec![(0, 0), (0, 0), (A, W), (B, X)]);
    assert_eq!(guest_out, host_out);
    assert_eq!(host.delay(), 2);
    assert_eq!(guest.delay(), 2);
}

#[test]
fn match_handshake_agrees_on_host_settings() {
    let settings = MatchInitial { game_settings: GameSettings { common: 1, p1: 2, p2: 3 } };

    let (mut host, guest_tx, host_sent) = with_hand_peer(true);
    guest_tx.send(Message::InitMatch("guest".to_owned(), None)).unwrap();
    assert_eq!(host.init_match("host".to_owned(), Some(settings)), Ok(settings));
    assert_eq!(host.remote_player_name(), "guest");
    assert_eq!(host.match_initial(), Some(settings));

    let (mut guest, host_tx, _guest_sent) = with_hand_peer(false);
    host_tx.send(host_sent.recv().unwrap()).unwrap();
    assert_eq!(guest.init_match("guest".to_owned(), None), Ok(settings));
    assert_eq!(guest.remote_player_name(), "host");
    assert_eq!(guest.match_initial(), Some(settings));
}

#[test]
fn second_match_handshake_with_other_settings_is_refused() {
    let settings = MatchInitial { game_settings: GameSettings { common: 1, p1: 2, p2: 3 } };
    let other = MatchInitial { game_settings: GameSettings { common: 9, p1: 2, p2: 3 } };
    let (mut host, guest_tx, host_sent) = with_hand_peer(true);
    guest_tx.send(Message::InitMatch("guest".to_owned(), None)).unwrap();
    assert_eq!(host.init_match("host".to_owned(), Some(settings)), Ok(settings));
    host_sent.recv().unwrap();
    assert_eq!(
        host.init_match("host".to_owned(), Some(other)),
        Err(SessionError::ConflictingMatchInitial)
    );
    // Verified callers cannot offer other settings; unchecked ones get the
    // error above. The same settings again are accepted without sending
    // anything.
    assert_eq!(host.init_match("host".to_owned(), Some(settings)), Ok(settings));
    assert!(host_sent.try_recv().is_err());
    assert_eq!(host.match_initial(), Some(settings));
}

#[test]
fn round_handshake_hands_host_seeds_to_guest() {
    let seeds = RoundInitial { seed1: 1, seed2: 2, seed3: 0, seed4: 0 };

    let (mut host, guest_tx, host_sent) = with_hand_peer(true);
    guest_tx.send(Message::InitRound(None)).unwrap();
    assert_eq!(host.init_round(Some(seeds)), Ok(None));

    let (mut guest, host_tx, guest_sent) = with_hand_peer(false);
    host_tx.send(host_sent.recv().unwrap()).unwrap();
    assert_eq!(guest.init_round(None), Ok(Some(seeds)));
    assert!(matches!(guest_sent.recv().unwrap(), Message::InitRound(None)));
}

#[test]
fn guest_refuses_round_without_seeds() {
    let (mut guest, host_tx, _guest_sent) = with_hand_peer(false);
    host_tx.send(Message::InitRound(None)).unwrap();
    assert_eq!(guest.init_round(None), Err(SessionError::UnexpectedMessage));
    assert_eq!(guest.init_round(None), Err(SessionError::Disconnected));
}

#[test]
fn unexpected_message_in_input_stream() {
    let (mut guest, host_tx, _guest_sent) = with_hand_peer(false);
    host_tx.send(Message::InitRound(None)).unwrap();
    assert_eq!(guest.enqueue_input_and_dequeue(1, None), Err(SessionError::UnexpectedMessage));
}

#[test]
fn disconnection_fails_the_exchange_and_every_later_call() {
    let (mut host, guest_tx, _host_sent) = with_hand_peer(true);
    guest_tx.send(Message::Input(InputFrame { input: W, delay: 1 })).unwrap();
    drop(guest_tx);
    // The first frame needs nothing from the peer.
    assert_eq!(host.enqueue_input_and_dequeue(A, None), Ok((0, 0)));
    // The second uses what had arrived before the channel closed.
    assert_eq!(host.enqueue_input_and_dequeue(B, None), Ok((A, W)));
    assert_eq!(host.enqueue_input_and_dequeue(C, None), Err(SessionError::Disconnected));
    assert_eq!(host.enqueue_input_and_dequeue(D, None), Err(SessionError::Disconnected));
    assert_eq!(host.init_round(Some(RoundInitial { seed1: 1, seed2: 2, seed3: 3, seed4: 4 })), Err(SessionError::Disconnected));
}

#[test]
fn send_to_closed_peer_is_a_disconnection() {
    let (mut guest, host_tx, guest_sent) = with_hand_peer(false);
    drop(guest_sent);
    host_tx.send(Message::InitRound(Some(RoundInitial { seed1: 1, seed2: 2, seed3: 3, seed4: 4 }))).unwrap();
    assert_eq!(guest.init_round(None), Err(SessionError::Disconnected));
}

#[test]
fn relay_feeds_spectator_with_settings_seeds_and_pairs() {
    let settings = MatchInitial { game_settings: GameSettings { common: 1, p1: 2, p2: 3 } };
    let seeds = RoundInitial { seed1: 5, seed2: 6, seed3: 7, seed4: 8 };
    let (relay_tx, relay_rx) = channel();
    let mut spectator = SpectatorSessionGuest::new(relay_rx);

    let (mut host, guest_tx, _host_sent) = with_hand_peer(true);
    host.attach_spectator(SpectatorSessionHost::new(relay_tx));
    guest_tx.send(Message::InitMatch("guest".to_owned(), None)).unwrap();
    guest_tx.send(Message::InitRound(None)).unwrap();
    guest_tx.send(Message::Input(InputFrame { input: W, delay: 1 })).unwrap();
    host.init_match("host".to_owned(), Some(settings)).unwrap();
    host.init_round(Some(seeds)).unwrap();
    host.enqueue_input_and_dequeue(A, None).unwrap();
    host.enqueue_input_and_dequeue(B, None).unwrap();

    assert_eq!(spectator.recv_init_spectator(), Ok(()));
    let initial = spectator.spectator_initial().unwrap();
    assert_eq!(initial.p1_name(), "host");
    assert_eq!(initial.p2_name(), "guest");
    assert_eq!(initial.game_settings(), settings.game_settings);
    assert_eq!(spectator.recv_init_round(), Ok(seeds));
    assert_eq!(spectator.dequeue_inputs(), Ok((0, 0)));
    assert_eq!(spectator.dequeue_inputs(), Ok((A, W)));
}

#[test]
fn gone_spectator_does_not_end_the_match() {
    let (relay_tx, relay_rx) = channel();
    drop(relay_rx);
    let (mut host, _guest_tx, _host_sent) = with_hand_peer(true);
    host.attach_spectator(SpectatorSessionHost::new(relay_tx));
    assert_eq!(host.enqueue_input_and_dequeue(A, None), Ok((0, 0)));
}
