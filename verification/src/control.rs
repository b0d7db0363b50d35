//! What the engine handle makes of a caller's request, and what starting the
//! engine comes down to.

use crate::command::VoxCommand;
use crate::error::VoxError;
use crate::state::SharedState;
use vstd::prelude::*;
use vstd::string::StringExecFns;

verus! {

/// Commands that may wait for the worker.
pub const CHANNEL_COUNT: usize = 32;

/// Events that may wait for the caller.
pub const EVENT_CAPACITY: usize = 256;

/// The command that plays the file at `path`, given whether there is a readable
/// file. The engine counts as active from then on.
pub fn play(state: &mut SharedState, path: &str, is_file: bool) -> (command: Result<
    VoxCommand,
    VoxError,
>)
    ensures
        if is_file {
            (command matches Ok(VoxCommand::Play(at)) && at@ == path@) && *final(state) == (
            SharedState { active: true, ..*old(state) })
        } else {
            (command matches Err(VoxError::FileOpen(at)) && at@ == path@) && *final(state) == *old(
                state,
            )
        },
{
    if !is_file {
        return Err(VoxError::FileOpen(String::from_str(path)));
    }
    state.set_active(true);
    Ok(VoxCommand::Play(String::from_str(path)))
}

/// The command that primes the file at `path` to follow the current track, given
/// whether there is a readable file. There has to be a current track.
pub fn set_next(state: &SharedState, path: &str, is_file: bool) -> (command: Result<
    VoxCommand,
    VoxError,
>)
    ensures
        if !state.active {
            command == Err::<VoxCommand, VoxError>(VoxError::NotActive)
        } else if is_file {
            command matches Ok(VoxCommand::QueueNext(at)) && at@ == path@
        } else {
            command matches Err(VoxError::FileOpen(at)) && at@ == path@
        },
{
    if !state.is_active() {
        return Err(VoxError::NotActive);
    }
    if !is_file {
        return Err(VoxError::FileOpen(String::from_str(path)));
    }
    Ok(VoxCommand::QueueNext(String::from_str(path)))
}

/// What giving a command comes to, given whether the engine took it.
pub fn send(taken: bool) -> (sent: Result<(), VoxError>)
    ensures
        sent == if taken {
            Ok::<(), VoxError>(())
        } else {
            Err(VoxError::ChannelClosed)
        },
{
    if taken {
        Ok(())
    } else {
        Err(VoxError::ChannelClosed)
    }
}

/// Whether the engine is up, given what the supervisor reported of its first
/// stream and whether it handed over a tap; a supervisor that went away without
/// a word has failed.
pub fn init(first_stream: Option<Result<(), VoxError>>, tap_came: bool) -> (up: Result<(), VoxError>)
    ensures
        match first_stream {
            Some(Err(error)) => up == Err::<(), VoxError>(error),
            Some(Ok(_)) if tap_came => up is Ok,
            _ => up matches Err(VoxError::Device(text)) && text@ == "output supervisor failed"@,
        },
{
    match first_stream {
        Some(Err(error)) => Err(error),
        Some(Ok(_)) => if tap_came {
            Ok(())
        } else {
            Err(VoxError::Device(String::from_str("output supervisor failed")))
        },
        None => Err(VoxError::Device(String::from_str("output supervisor failed"))),
    }
}

} // verus!
