//! The three events by which the platform tells how the connection to its
//! servers stands. They only carry what the platform sent.

use vstd::prelude::*;
use crate::error::IntegrityError;
use crate::error::SteamError;
use crate::error::RESULT_OK;

verus! {

/// The connection to the platform's servers has been made.
#[derive(Clone, Copy, Debug, PartialEq, Eq)]
pub struct SteamServersConnected;

impl SteamServersConnected {
    /// The identifier with which the platform tags this kind of event.
    pub const ID: i32 = 101;

    /// Decodes the event. Its payload holds nothing.
    pub fn from_raw() -> (r: SteamServersConnected)
        ensures
            r == SteamServersConnected,
    {
        SteamServersConnected
    }
}

/// The connection to the platform's servers has been lost.
#[derive(Clone, Copy, Debug, PartialEq, Eq)]
pub struct SteamServersDisconnected {
    /// Why the connection was lost.
    pub reason: SteamError,
}

impl SteamServersDisconnected {
    /// The identifier with which the platform tags this kind of event.
    pub const ID: i32 = 103;

    /// Decodes the event from the one field of its payload. Success is no
    /// reason for losing a connection: such a payload gives no event.
    pub fn from_raw(result: i32) -> (r: Result<SteamServersDisconnected, IntegrityError>)
        ensures
            result != RESULT_OK <==> r is Ok,
            r matches Ok(event) ==> event.reason@ == result,
            r matches Err(e) ==> e == IntegrityError::UnknownResultCode(result),
    {
        match SteamError::reason(result) {
            Ok(reason) => Ok(SteamServersDisconnected { reason }),
            Err(e) => Err(e),
        }
    }
}

/// An attempt to connect to the platform's servers has failed.
#[derive(Clone, Copy, Debug, PartialEq, Eq)]
pub struct SteamServerConnectFailure {
    /// Why the attempt failed.
    pub reason: SteamError,
    /// Whether the platform goes on trying.
    pub still_retrying: bool,
}

impl SteamServerConnectFailure {
    /// The identifier with which the platform tags this kind of event.
    pub const ID: i32 = 102;

    /// Decodes the event from the two fields of its payload. The flag is
    /// handed on as it came, whatever the reason is. Success is no reason
    /// for a failure: such a payload gives no event.
    pub fn from_raw(result: i32, still_retrying: bool) -> (r: Result<
        SteamServerConnectFailure,
        IntegrityError,
    >)
        ensures
            result != RESULT_OK <==> r is Ok,
            r matches Ok(event) ==> event.reason@ == result && event.still_retrying
                == still_retrying,
            r matches Err(e) ==> e == IntegrityError::UnknownResultCode(result),
    {
        match SteamError::reason(result) {
            Ok(reason) => Ok(SteamServerConnectFailure { reason, still_retrying }),
            Err(e) => Err(e),
        }
    }
}

} // verus!
