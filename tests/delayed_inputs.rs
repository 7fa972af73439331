use junowen::delayed_inputs::{DelayedInputs, InputFrame, INITIAL_DELAY};

/// Plays `frames` frames on a host and a guest queue that hand each other
/// their messages directly, and returns both sides' outputs.
fn play(host_inputs: &[u16], guest_inputs: &[u16], delays: &[Option<u8>]) -> (Vec<(u16, u16)>, Vec<(u16, u16)>) {
    let mut host = DelayedInputs::new(true);
    let mut guest = DelayedInputs::new(false);
    let mut host_out = vec![];
    let mut guest_out = vec![];
    for i in 0..host_inputs.len() {
        let h = host.enqueue_local(host_inputs[i], delays[i]);
        guest.push_remote(h);
        let g = guest.enqueue_local(guest_inputs[i], None);
        host.push_remote(g);
        host_out.push(host.dequeue());
        guest_out.push(guest.dequeue());
    }
    (host_out, guest_out)
}

#[test]
fn initial_delay_is_one_null_frame() {
    let (host, guest) = play(&[5, 6], &[7, 8], &[None, None]);
    assert_eq!(INITIAL_DELAY, 1);
    assert_eq!(host, vec![(0, 0), (5, 7)]);
    assert_eq!(guest, host);
}

#[test]
fn both_peers_agree_under_changing_delays() {
    let host_inputs = [1, 2, 3, 4, 5, 6, 7, 8, 9, 10];
    let guest_inputs = [11, 12, 13, 14, 15, 16, 17, 18, 19, 20];
    let delays = [Some(3), None, Some(1), None, Some(0), Some(4), None, Some(2), None, None];
    let (host, guest) = play(&host_inputs, &guest_inputs, &delays);
    assert_eq!(host, guest);
}

#[test]
fn guest_echoes_host_delay() {
    let mut host = DelayedInputs::new(true);
    let mut guest = DelayedInputs::new(false);
    let h = host.enqueue_local(1, Some(4));
    assert_eq!(h, InputFrame { input: 1, delay: 4 });
    guest.push_remote(h);
    assert_eq!(guest.delay(), 4);
    let g = guest.enqueue_local(2, None);
    assert_eq!(g, InputFrame { input: 2, delay: 4 });
}

#[test]
fn same_delay_twice_keeps_every_input() {
    let (host, _) = play(&[1, 2, 3, 4, 5, 6], &[9, 9, 9, 9, 9, 9], &[Some(2), Some(2), Some(2), Some(2), Some(2), Some(2)]);
    let mine: Vec<u16> = host.iter().map(|p| p.0).collect();
    assert_eq!(mine, vec![0, 0, 1, 2, 3, 4]);
}

#[test]
fn longer_delay_inserts_null_frames() {
    let (host, _) = play(&[1, 2, 3, 4, 5], &[0, 0, 0, 0, 0], &[None, None, Some(3), None, None]);
    let mine: Vec<u16> = host.iter().map(|p| p.0).collect();
    // The nulls go after what was already buffered.
    assert_eq!(mine, vec![0, 1, 2, 0, 0]);
}

#[test]
fn shorter_delay_drops_one_input_per_frame() {
    let (host, _) = play(&[1, 2, 3, 4, 5, 6, 7], &[0; 7], &[Some(3), None, Some(1), Some(1), Some(1), None, None]);
    let mine: Vec<u16> = host.iter().map(|p| p.0).collect();
    // Depth 3 after the first frame; 3 and 4 are dropped while it shrinks to 1.
    assert_eq!(mine, vec![0, 0, 0, 1, 2, 5, 6]);
}

#[test]
fn dequeue_waits_for_remote_input() {
    let mut host = DelayedInputs::new(true);
    host.enqueue_local(1, Some(0));
    host.dequeue();
    host.enqueue_local(2, None);
    assert!(!host.is_ready());
    // The peer's first message shrinks its depth from one to zero.
    host.push_remote(InputFrame { input: 9, delay: 0 });
    assert!(!host.is_ready());
    host.push_remote(InputFrame { input: 3, delay: 0 });
    assert!(host.is_ready());
    assert_eq!(host.dequeue(), (2, 3));
}
