//! Admission and classification rules of the shared channel.
//!
//! One exchange on the channel is: decide whether the request may go out
//! (`begin_exchange`), send it and block for the reply while holding the
//! channel lock (done by the caller on the real transport), then classify the
//! reply for the caller (`finish_exchange`). The serialization discipline
//! itself is modelled and proved in [`crate::exclusion`].

use vstd::prelude::*;
use crate::errors::ChannelError;

verus! {

/// Frame-size ceiling, in bytes and per direction, of the shared transport.
pub const MAX_FRAME_SIZE: usize = 4000;

/// State of the channel's mutual-exclusion lock as observed by a caller.
#[derive(Clone, Copy, PartialEq, Eq, Structural, Debug)]
pub enum LockState {
    /// The lock can be taken and the exchange may proceed.
    Healthy,
    /// A previous exchange failed abnormally while holding the lock.
    Poisoned,
}

/// First half of one exchange: either the request may be sent, or the
/// exchange is refused before anything reaches the transport.
#[derive(Clone, Copy, PartialEq, Eq, Structural, Debug)]
pub enum ExchangeStart {
    /// The request passed the size check and the lock is usable: send it.
    Send,
    /// The exchange is refused without touching the transport.
    Reject(ChannelError),
}

/// Decides whether a request may go out on the shared transport. An
/// oversized request is rejected before being sent, whatever the lock state;
/// a poisoned lock rejects every well-sized request.
pub fn begin_exchange(request: &Vec<u8>, lock: LockState) -> (s: ExchangeStart)
    ensures
        s is Send <==> (request@.len() <= MAX_FRAME_SIZE && lock is Healthy),
        request@.len() > MAX_FRAME_SIZE ==> s == ExchangeStart::Reject(ChannelError::Oversized),
        (request@.len() <= MAX_FRAME_SIZE && lock is Poisoned) ==> s == ExchangeStart::Reject(
            ChannelError::LockPoisoned,
        ),
{
    if request.len() > MAX_FRAME_SIZE {
        ExchangeStart::Reject(ChannelError::Oversized)
    } else {
        match lock {
            LockState::Healthy => ExchangeStart::Send,
            LockState::Poisoned => ExchangeStart::Reject(ChannelError::LockPoisoned),
        }
    }
}

/// Classifies the transport's reply for the caller: response bytes pass
/// through unchanged, and a transport status code becomes a `ChannelError`.
pub fn finish_exchange(reply: Result<Vec<u8>, i32>) -> (r: Result<Vec<u8>, ChannelError>)
    ensures
        r is Ok <==> reply is Ok,
        reply matches Ok(resp) ==> (r matches Ok(out) && out@ == resp@),
        reply matches Err(code) ==> r == Err::<Vec<u8>, ChannelError>(ChannelError::Transport(code)),
{
    match reply {
        Ok(resp) => Ok(resp),
        Err(code) => Err(ChannelError::Transport(code)),
    }
}

/// Phase of the process as far as the poison policy is concerned.
#[derive(Clone, Copy, PartialEq, Eq, Structural, Debug)]
pub enum Phase {
    /// From process start through the topology announcement.
    StartupCriticalSection,
    /// Normal operation after bring-up completed.
    Serving,
}

/// What a poisoned channel lock means for the caller.
#[derive(Clone, Copy, PartialEq, Eq, Structural, Debug)]
pub enum PoisonPolicy {
    /// The whole process terminates.
    FatalToProcess,
    /// Only the one call that hit the poisoned lock fails.
    FailSingleCall,
}

/// A poisoned channel lock is fatal during the startup critical section and
/// is scoped to the one failing call during normal serving.
pub fn poison_disposition(phase: Phase) -> (p: PoisonPolicy)
    ensures
        p is FatalToProcess <==> phase is StartupCriticalSection,
{
    match phase {
        Phase::StartupCriticalSection => PoisonPolicy::FatalToProcess,
        Phase::Serving => PoisonPolicy::FailSingleCall,
    }
}

} // verus!
