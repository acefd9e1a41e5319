use keymint_bringup::channel::{
    begin_exchange, finish_exchange, poison_disposition, ExchangeStart, LockState, Phase,
    PoisonPolicy, MAX_FRAME_SIZE,
};
use keymint_bringup::errors::ChannelError;

#[test]
fn request_of_exactly_max_size_is_sent() {
    let request = vec![0u8; 4000];
    assert_eq!(begin_exchange(&request, LockState::Healthy), ExchangeStart::Send);
}

#[test]
fn request_one_byte_over_max_is_rejected_before_sending() {
    let request = vec![0u8; 4001];
    assert_eq!(
        begin_exchange(&request, LockState::Healthy),
        ExchangeStart::Reject(ChannelError::Oversized)
    );
    // rejected before the transport is consulted: even a poisoned lock
    // reports the size violation
    assert_eq!(
        begin_exchange(&request, LockState::Poisoned),
        ExchangeStart::Reject(ChannelError::Oversized)
    );
}

#[test]
fn frame_ceiling_is_4000_bytes() {
    assert_eq!(MAX_FRAME_SIZE, 4000);
}

#[test]
fn empty_request_is_sent() {
    let request: Vec<u8> = Vec::new();
    assert_eq!(begin_exchange(&request, LockState::Healthy), ExchangeStart::Send);
}

#[test]
fn poisoned_lock_rejects_well_sized_request() {
    let request = vec![1u8; 10];
    assert_eq!(
        begin_exchange(&request, LockState::Poisoned),
        ExchangeStart::Reject(ChannelError::LockPoisoned)
    );
}

#[test]
fn response_bytes_pass_through_unchanged() {
    let r = finish_exchange(Ok(vec![1, 2, 3]));
    assert_eq!(r, Ok(vec![1, 2, 3]));
}

#[test]
fn transport_failure_becomes_channel_error() {
    let r = finish_exchange(Err(-22));
    assert_eq!(r, Err(ChannelError::Transport(-22)));
}

#[test]
fn poison_is_fatal_only_during_startup() {
    assert_eq!(
        poison_disposition(Phase::StartupCriticalSection),
        PoisonPolicy::FatalToProcess
    );
    assert_eq!(poison_disposition(Phase::Serving), PoisonPolicy::FailSingleCall);
}
