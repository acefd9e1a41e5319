use keymint_bringup::exclusion::{check_trace, step_channel, ChannelEvent, HolderState};

fn exchange(caller: u32) -> Vec<ChannelEvent> {
    vec![
        ChannelEvent::Lock { caller },
        ChannelEvent::Send { caller },
        ChannelEvent::Recv { caller },
        ChannelEvent::Unlock { caller },
    ]
}

#[test]
fn serialized_exchanges_are_valid() {
    let mut trace = Vec::new();
    for caller in [1u32, 2, 3, 2, 1] {
        trace.extend(exchange(caller));
    }
    assert!(check_trace(&trace));
}

#[test]
fn empty_trace_is_valid() {
    assert!(check_trace(&Vec::new()));
}

#[test]
fn overlapping_sends_are_invalid() {
    // a second send while a request is in flight breaks the discipline
    let trace = vec![
        ChannelEvent::Lock { caller: 1 },
        ChannelEvent::Send { caller: 1 },
        ChannelEvent::Send { caller: 2 },
    ];
    assert!(!check_trace(&trace));
}

#[test]
fn lock_while_held_is_invalid() {
    let trace = vec![
        ChannelEvent::Lock { caller: 1 },
        ChannelEvent::Lock { caller: 2 },
    ];
    assert!(!check_trace(&trace));
}

#[test]
fn send_without_lock_is_invalid() {
    let trace = vec![ChannelEvent::Send { caller: 1 }];
    assert!(!check_trace(&trace));
}

#[test]
fn receive_by_another_caller_is_invalid() {
    let trace = vec![
        ChannelEvent::Lock { caller: 1 },
        ChannelEvent::Send { caller: 1 },
        ChannelEvent::Recv { caller: 2 },
    ];
    assert!(!check_trace(&trace));
}

#[test]
fn unlock_before_receive_is_invalid() {
    let trace = vec![
        ChannelEvent::Lock { caller: 1 },
        ChannelEvent::Send { caller: 1 },
        ChannelEvent::Unlock { caller: 1 },
    ];
    assert!(!check_trace(&trace));
}

#[test]
fn single_steps_follow_the_discipline() {
    assert_eq!(
        step_channel(HolderState::Idle, ChannelEvent::Lock { caller: 7 }),
        Some(HolderState::Locked { caller: 7 })
    );
    assert_eq!(
        step_channel(HolderState::Locked { caller: 7 }, ChannelEvent::Send { caller: 7 }),
        Some(HolderState::Sent { caller: 7 })
    );
    assert_eq!(
        step_channel(HolderState::Sent { caller: 7 }, ChannelEvent::Recv { caller: 7 }),
        Some(HolderState::Received { caller: 7 })
    );
    assert_eq!(
        step_channel(HolderState::Received { caller: 7 }, ChannelEvent::Unlock { caller: 7 }),
        Some(HolderState::Idle)
    );
    assert_eq!(
        step_channel(HolderState::Sent { caller: 7 }, ChannelEvent::Send { caller: 8 }),
        None
    );
}
