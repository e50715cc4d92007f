use sync_primitives::channel::Channel;
use sync_primitives::spin::SpinLock;
use sync_primitives::state_machine_channel::{
    receive_claim_step, send_claim_step, State, StateChannel,
};
use sync_primitives::type_safe_channel::TypeSafeChannel;

#[test]
fn oneshot_channel() {
    let mut channel = Channel::new();
    assert!(!channel.is_ready());
    channel.send("hello world!");
    assert!(channel.is_ready());
    assert_eq!(channel.receive(), "hello world!");
    assert!(!channel.is_ready());
}

#[test]
fn state_channel_round_trip() {
    let mut channel = StateChannel::new();
    assert!(!channel.is_ready());
    channel.send("hello world!");
    assert!(channel.is_ready());
    assert_eq!(channel.receive(), "hello world!");
    assert!(!channel.is_ready());
}

#[test]
fn state_channel_claims() {
    // Of two racing sends exactly one wins the empty-to-writing claim;
    // of two racing receives exactly one wins the ready-to-reading claim.
    assert!(matches!(send_claim_step(State::Empty), Some(State::Writing)));
    assert!(send_claim_step(State::Writing).is_none());
    assert!(send_claim_step(State::Ready).is_none());
    assert!(send_claim_step(State::Reading).is_none());

    assert!(matches!(receive_claim_step(State::Ready), Some(State::Reading)));
    assert!(receive_claim_step(State::Empty).is_none());
    assert!(receive_claim_step(State::Writing).is_none());
    assert!(receive_claim_step(State::Reading).is_none());
}

#[test]
fn type_safe_channel() {
    let mut channel = TypeSafeChannel::new();
    let (sender, receiver) = channel.split();
    assert!(!receiver.is_ready(&channel));
    sender.send(&mut channel, "hello world!");
    assert!(receiver.is_ready(&channel));
    assert_eq!(receiver.receive(&mut channel), "hello world!");
}

#[test]
fn spin_lock() {
    // One critical section pushes 1, another pushes 2 twice; the sequence
    // ends with exactly those elements, never partially interleaved.
    let mut x = SpinLock::new(Vec::new());
    let mut g = x.lock();
    g.get_mut().push(1);
    x.unlock(g);
    let mut g = x.lock();
    g.get_mut().push(2);
    g.get_mut().push(2);
    x.unlock(g);
    let g = x.lock();
    assert!(g.get().as_slice() == [1, 2, 2] || g.get().as_slice() == [2, 2, 1]);
}

#[test]
fn spin_swap() {
    assert!(sync_primitives::spin::spin_swap_step(false));
    assert!(!sync_primitives::spin::spin_swap_step(true));
}
