//! The authentication ticket protocol: the bytes of an issued ticket, the
//! status of a session request, and the two events that the trust authority
//! sends later.
//!
//! Nothing here remembers a ticket or a session. The authority owns that
//! state; a second request for the same identity is answered by the
//! authority with [`AuthSessionError::DuplicateRequest`], not by this
//! library.

use vstd::math::min;
use vstd::prelude::*;
use crate::error::CallError;
use crate::error::IntegrityError;
use crate::error::SteamError;
use crate::error::RESULT_OK;
use crate::identity::AuthTicket;
use crate::identity::SteamId;

verus! {

/// The most bytes that a ticket can have.
pub const TICKET_CAPACITY: usize = 1024;

/// The status with which the platform accepts a session request.
pub const BEGIN_AUTH_SESSION_OK: i32 = 0;

/// The response with which the authority confirms a ticket.
pub const AUTH_SESSION_RESPONSE_OK: i32 = 0;

/// A buffer for the platform to write a ticket into: [`TICKET_CAPACITY`]
/// bytes, all zero.
pub fn ticket_buffer() -> (r: Vec<u8>)
    ensures
        r@.len() == TICKET_CAPACITY,
        forall|i: int| 0 <= i < r@.len() ==> r@[i] == 0u8,
{
    vec![0u8; TICKET_CAPACITY]
}

/// The bytes of a ticket, given the buffer that the platform wrote it into
/// and the length that the platform reported: the first `ticket_len` bytes,
/// and never more than the buffer holds or than a ticket can have.
pub open spec fn ticket_bytes(buffer: Seq<u8>, ticket_len: u32) -> Seq<u8> {
    buffer.take(min(min(ticket_len as int, buffer.len() as int), TICKET_CAPACITY as int))
}

/// The bytes of a ticket are the beginning of what the platform wrote, as
/// long as the platform said, and never more than [`TICKET_CAPACITY`]. From
/// a buffer of that size, any length up to it is kept in full.
pub proof fn lemma_ticket_bytes_bounded(buffer: Seq<u8>, ticket_len: u32)
    ensures
        ticket_bytes(buffer, ticket_len).is_prefix_of(buffer),
        ticket_bytes(buffer, ticket_len).len() <= TICKET_CAPACITY,
        ticket_bytes(buffer, ticket_len).len() <= ticket_len,
        ticket_len <= buffer.len() && ticket_len <= TICKET_CAPACITY ==> ticket_bytes(
            buffer,
            ticket_len,
        ).len() == ticket_len,
{
}

/// The length of a ticket as the platform takes it with a session request.
/// The platform counts in 32 bits with a sign; of a longer ticket it is
/// shown as much as it can count.
pub fn ticket_length(ticket: &[u8]) -> (r: i32)
    ensures
        r == min(ticket@.len() as int, i32::MAX as int),
{
    let len: usize = ticket.len();
    if len <= i32::MAX as usize {
        len as i32
    } else {
        i32::MAX
    }
}

/// Why the platform refused to begin an authentication session.
#[derive(Clone, Copy, Debug, PartialEq, Eq, Structural)]
pub enum AuthSessionError {
    /// The ticket is not a valid ticket.
    InvalidTicket,
    /// A ticket was already submitted for this identity.
    DuplicateRequest,
    /// The ticket was made by an incompatible version of the interface.
    InvalidVersion,
    /// The ticket was issued for another game.
    GameMismatch,
    /// The ticket has expired.
    ExpiredTicket,
}

impl AuthSessionError {
    /// The status by which the platform reports this error.
    pub open spec fn code(self) -> i32 {
        match self {
            AuthSessionError::InvalidTicket => 1,
            AuthSessionError::DuplicateRequest => 2,
            AuthSessionError::InvalidVersion => 3,
            AuthSessionError::GameMismatch => 4,
            AuthSessionError::ExpiredTicket => 5,
        }
    }

    /// The error that a status reports, if it reports one of these.
    pub open spec fn of_code(code: i32) -> Option<AuthSessionError> {
        if code == 1 {
            Some(AuthSessionError::InvalidTicket)
        } else if code == 2 {
            Some(AuthSessionError::DuplicateRequest)
        } else if code == 3 {
            Some(AuthSessionError::InvalidVersion)
        } else if code == 4 {
            Some(AuthSessionError::GameMismatch)
        } else if code == 5 {
            Some(AuthSessionError::ExpiredTicket)
        } else {
            None
        }
    }

    /// A status reports an error exactly when it is that error's status,
    /// and no error has the status of success.
    pub proof fn lemma_of_code_inverts_code(code: i32, e: AuthSessionError)
        ensures
            AuthSessionError::of_code(code) == Some(e) <==> e.code() == code,
            e.code() != BEGIN_AUTH_SESSION_OK,
    {
    }
}

/// What the status of a session request means: accepted, refused with an
/// error, or not a status of this request at all.
pub open spec fn begin_auth_session_outcome(status: i32) -> Result<
    (),
    CallError<AuthSessionError>,
> {
    if status == BEGIN_AUTH_SESSION_OK {
        Ok(())
    } else {
        match AuthSessionError::of_code(status) {
            Some(e) => Err(CallError::Reported(e)),
            None => Err(CallError::Integrity(IntegrityError::UnknownResultCode(status))),
        }
    }
}

/// The outcome of a session request says just what the platform answered:
/// success for the status of success alone, each error for its own status
/// alone, and no two statuses come to the same.
pub proof fn lemma_begin_auth_session_outcome_exact(status: i32, other: i32, e: AuthSessionError)
    ensures
        begin_auth_session_outcome(status) is Ok <==> status == BEGIN_AUTH_SESSION_OK,
        begin_auth_session_outcome(status) == Err::<(), CallError<AuthSessionError>>(
            CallError::Reported(e),
        ) <==> status == e.code(),
        begin_auth_session_outcome(status) == begin_auth_session_outcome(other) <==> status
            == other,
{
}

/// Why the trust authority rejected a ticket, or withdrew a session that it
/// had accepted before.
#[derive(Clone, Copy, Debug, PartialEq, Eq, Structural)]
pub enum AuthSessionValidateError {
    /// The user is not connected to the platform.
    UserNotConnectedToSteam,
    /// The user has no license for the game, or it has expired.
    NoLicenseOrExpired,
    /// The user is banned from the game by the anti-cheat system.
    VACBanned,
    /// The user logged in somewhere else, which ended this session.
    LoggedInElseWhere,
    /// The anti-cheat system could not look into the user in time.
    VACCheckTimedOut,
    /// The issuer cancelled the ticket.
    AuthTicketCancelled,
    /// The ticket was used before.
    AuthTicketInvalidAlreadyUsed,
    /// The ticket does not come from a user who is connected to the platform.
    AuthTicketInvalid,
    /// The publisher of the game banned the user.
    PublisherIssuedBan,
}

impl AuthSessionValidateError {
    /// The response by which the authority reports this error.
    pub open spec fn code(self) -> i32 {
        match self {
            AuthSessionValidateError::UserNotConnectedToSteam => 1,
            AuthSessionValidateError::NoLicenseOrExpired => 2,
            AuthSessionValidateError::VACBanned => 3,
            AuthSessionValidateError::LoggedInElseWhere => 4,
            AuthSessionValidateError::VACCheckTimedOut => 5,
            AuthSessionValidateError::AuthTicketCancelled => 6,
            AuthSessionValidateError::AuthTicketInvalidAlreadyUsed => 7,
            AuthSessionValidateError::AuthTicketInvalid => 8,
            AuthSessionValidateError::PublisherIssuedBan => 9,
        }
    }

    /// The error that a response reports, if it reports one of these.
    pub open spec fn of_code(code: i32) -> Option<AuthSessionValidateError> {
        if code == 1 {
            Some(AuthSessionValidateError::UserNotConnectedToSteam)
        } else if code == 2 {
            Some(AuthSessionValidateError::NoLicenseOrExpired)
        } else if code == 3 {
            Some(AuthSessionValidateError::VACBanned)
        } else if code == 4 {
            Some(AuthSessionValidateError::LoggedInElseWhere)
        } else if code == 5 {
            Some(AuthSessionValidateError::VACCheckTimedOut)
        } else if code == 6 {
            Some(AuthSessionValidateError::AuthTicketCancelled)
        } else if code == 7 {
            Some(AuthSessionValidateError::AuthTicketInvalidAlreadyUsed)
        } else if code == 8 {
            Some(AuthSessionValidateError::AuthTicketInvalid)
        } else if code == 9 {
            Some(AuthSessionValidateError::PublisherIssuedBan)
        } else {
            None
        }
    }

    /// A response reports an error exactly when it is that error's
    /// response, and no error has the response of confirmation.
    pub proof fn lemma_of_code_inverts_code(code: i32, e: AuthSessionValidateError)
        ensures
            AuthSessionValidateError::of_code(code) == Some(e) <==> e.code() == code,
            e.code() != AUTH_SESSION_RESPONSE_OK,
    {
    }
}

/// What the authority's response to a ticket means: confirmed, rejected
/// with an error, or not a response of the authority at all.
///
/// The outer error is the breach of the protocol; the inner result is what
/// the event carries.
pub open spec fn validate_auth_ticket_outcome(response: i32) -> Result<
    Result<(), AuthSessionValidateError>,
    IntegrityError,
> {
    if response == AUTH_SESSION_RESPONSE_OK {
        Ok(Ok(()))
    } else {
        match AuthSessionValidateError::of_code(response) {
            Some(e) => Ok(Err(e)),
            None => Err(IntegrityError::UnknownResultCode(response)),
        }
    }
}

/// What is found in the authority's response is just what the authority
/// sent: confirmation for the response of confirmation alone, each error
/// for its own response alone, and no two responses come to the same.
pub proof fn lemma_validate_auth_ticket_outcome_exact(
    response: i32,
    other: i32,
    e: AuthSessionValidateError,
)
    ensures
        validate_auth_ticket_outcome(response) == Ok::<
            Result<(), AuthSessionValidateError>,
            IntegrityError,
        >(Ok(())) <==> response == AUTH_SESSION_RESPONSE_OK,
        validate_auth_ticket_outcome(response) == Ok::<
            Result<(), AuthSessionValidateError>,
            IntegrityError,
        >(Err(e)) <==> response == e.code(),
        validate_auth_ticket_outcome(response) == validate_auth_ticket_outcome(other)
            <==> response == other,
{
}

/// The event by which the platform says whether a ticket that was asked for
/// has been created. It belongs to the request that returned the same
/// handle.
#[derive(Clone, Copy, Debug, PartialEq, Eq)]
pub struct AuthSessionTicketResponse {
    /// The handle of the ticket.
    pub ticket: AuthTicket,
    /// Whether the ticket was created.
    pub result: Result<(), SteamError>,
}

impl AuthSessionTicketResponse {
    /// The identifier with which the platform tags this kind of event.
    pub const ID: i32 = 163;

    /// Decodes the event from the two fields of its payload.
    pub fn from_raw(ticket: u32, result: i32) -> (r: AuthSessionTicketResponse)
        ensures
            r.ticket@ == ticket,
            result == RESULT_OK <==> r.result is Ok,
            r.result matches Err(e) ==> e@ == result,
    {
        AuthSessionTicketResponse {
            ticket: AuthTicket::from_raw(ticket),
            result: SteamError::from_code(result),
        }
    }
}

/// The event by which the trust authority reports on a ticket that was
/// submitted with a session request.
///
/// It can come at any time while the session lasts, and more than once: it
/// also tells that a user went offline or that a ticket was withdrawn.
#[derive(Clone, Copy, Debug, PartialEq, Eq)]
pub struct ValidateAuthTicketResponse {
    /// The identity of the user who presented the ticket.
    pub steam_id: SteamId,
    /// What the authority found.
    pub response: Result<(), AuthSessionValidateError>,
    /// The identity of the owner of the game. It is another one than
    /// `steam_id` where the game is borrowed.
    pub owner_steam_id: SteamId,
}

impl ValidateAuthTicketResponse {
    /// The identifier with which the platform tags this kind of event.
    pub const ID: i32 = 143;

    /// Decodes the event from the three fields of its payload.
    ///
    /// Both identities are taken over bit for bit, whether they are equal or
    /// not. A response that the authority does not have gives no event.
    pub fn from_raw(steam_id: u64, response: i32, owner_steam_id: u64) -> (r: Result<
        ValidateAuthTicketResponse,
        IntegrityError,
    >)
        ensures
            match validate_auth_ticket_outcome(response) {
                Ok(found) => r matches Ok(event) && event.steam_id@ == steam_id
                    && event.owner_steam_id@ == owner_steam_id && event.response == found,
                Err(e) => r == Err::<ValidateAuthTicketResponse, IntegrityError>(e),
            },
    {
        let found = match response {
            0 => Ok(()),
            1 => Err(AuthSessionValidateError::UserNotConnectedToSteam),
            2 => Err(AuthSessionValidateError::NoLicenseOrExpired),
            3 => Err(AuthSessionValidateError::VACBanned),
            4 => Err(AuthSessionValidateError::LoggedInElseWhere),
            5 => Err(AuthSessionValidateError::VACCheckTimedOut),
            6 => Err(AuthSessionValidateError::AuthTicketCancelled),
            7 => Err(AuthSessionValidateError::AuthTicketInvalidAlreadyUsed),
            8 => Err(AuthSessionValidateError::AuthTicketInvalid),
            9 => Err(AuthSessionValidateError::PublisherIssuedBan),
            _ => {
                return Err(IntegrityError::UnknownResultCode(response));
            },
        };
        Ok(
            ValidateAuthTicketResponse {
                steam_id: SteamId::from_raw(steam_id),
                response: found,
                owner_steam_id: SteamId::from_raw(owner_steam_id),
            },
        )
    }
}

} // verus!
