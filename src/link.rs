//! Finding the target device, connecting to it, and checking that it is a
//! serial module.
use vstd::prelude::*;
use crate::addr::Addr;
use crate::error::Error;
use crate::scan::RadioEvent;

verus! {

/// The first adapter that the system lists, or `NoAdapter` when it lists none.
pub fn first_adapter<T>(adapters: Vec<T>) -> (r: Result<T, Error>)
    ensures
        adapters@.len() == 0 ==> r == Err::<T, Error>(Error::NoAdapter),
        adapters@.len() > 0 ==> r == Ok::<T, Error>(adapters@[0]),
{
    let mut adapters = adapters;
    if adapters.len() == 0 {
        Err(Error::NoAdapter)
    } else {
        Ok(adapters.remove(0))
    }
}

/// What reaches the loop that looks for the target.
#[derive(Clone, Copy, Debug, PartialEq, Eq, Structural)]
pub enum LocateInput {
    Radio(RadioEvent),
    Cancelled,
    StreamEnded,
}

/// What the loop that looks for the target does next.
#[derive(Clone, Copy, Debug, PartialEq, Eq, Structural)]
pub enum LocateStep {
    /// Keep waiting.
    Wait,
    /// The target showed up: connect to it.
    Found(Addr),
    /// The user gave up: stop without a failure.
    NotFound,
    /// Stop with this failure.
    Fail(Error),
}

/// Decides on one input while looking for `target`: an update of the target
/// resolves it at once.
pub fn locate_step(target: Addr, input: LocateInput) -> (r: LocateStep)
    ensures
        r == match input {
            LocateInput::Radio(RadioEvent::Updated(a)) => if a == target {
                LocateStep::Found(a)
            } else {
                LocateStep::Wait
            },
            LocateInput::Radio(_) => LocateStep::Wait,
            LocateInput::Cancelled => LocateStep::NotFound,
            LocateInput::StreamEnded => LocateStep::Fail(Error::AdapterStopped),
        },
{
    match input {
        LocateInput::Radio(RadioEvent::Updated(a)) => {
            if a == target {
                LocateStep::Found(a)
            } else {
                LocateStep::Wait
            }
        },
        LocateInput::Radio(_) => LocateStep::Wait,
        LocateInput::Cancelled => LocateStep::NotFound,
        LocateInput::StreamEnded => LocateStep::Fail(Error::AdapterStopped),
    }
}

/// How the last connection attempt went.
#[derive(Clone, Copy, Debug, PartialEq, Eq, Structural)]
pub enum Attempt {
    /// No attempt has been made yet.
    NotYet,
    /// The attempt returned without an error.
    Succeeded,
    /// The radio answered that the device is not connected yet.
    NotConnected,
    /// Any other failure.
    Failed,
}

/// What the connection loop does next.
#[derive(Clone, Copy, Debug, PartialEq, Eq, Structural)]
pub enum ConnectAction {
    /// The device is connected.
    Done,
    /// Ask the radio to connect once more.
    Retry,
    /// Give up with the radio's failure.
    Fatal,
}

/// Decides the next move of the connection loop from whether the device
/// reports itself connected and how the last attempt went. Only "not
/// connected" failures are retried.
pub fn connect_action(connected: bool, last: Attempt) -> (r: ConnectAction)
    ensures
        r == if last == Attempt::Failed {
            ConnectAction::Fatal
        } else if connected {
            ConnectAction::Done
        } else {
            ConnectAction::Retry
        },
{
    if last == Attempt::Failed {
        ConnectAction::Fatal
    } else if connected {
        ConnectAction::Done
    } else {
        ConnectAction::Retry
    }
}

/// Identifier of a characteristic: a 16-bit short form or a full 128-bit one.
#[derive(Clone, Copy, Debug, PartialEq, Eq, Structural)]
pub enum Uuid {
    Short(u16),
    Long(u128),
}

/// The serial notify/write characteristic, 0000ffe1-0000-1000-8000-00805f9b34fb.
pub const NOTIFY_UUID: u128 = 0x0000ffe1_0000_1000_8000_00805f9b34fb;

/// Whether `u` names the serial notify/write characteristic.
pub open spec fn is_notify(u: Uuid) -> bool {
    u == Uuid::Long(NOTIFY_UUID)
}

/// The position of the first serial characteristic among those the device
/// exposes, or `NotHMDevice` when it has none.
pub fn find_notify(chars: &Vec<Uuid>) -> (r: Result<usize, Error>)
    ensures
        match r {
            Ok(i) => i < chars@.len() && is_notify(chars@[i as int]) && forall|j: int|
                0 <= j < i ==> !is_notify(#[trigger] chars@[j]),
            Err(e) => e == Error::NotHMDevice && forall|j: int|
                0 <= j < chars@.len() ==> !is_notify(#[trigger] chars@[j]),
        },
{
    let mut i: usize = 0;
    while i < chars.len()
        invariant
            i <= chars@.len(),
            forall|j: int| 0 <= j < i ==> !is_notify(#[trigger] chars@[j]),
        decreases chars@.len() - i,
    {
        if chars[i] == Uuid::Long(NOTIFY_UUID) {
            return Ok(i);
        }
        i = i + 1;
    }
    Err(Error::NotHMDevice)
}

} // verus!
