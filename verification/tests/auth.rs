use steam_user::auth::ticket_buffer;
use steam_user::auth::ticket_length;
use steam_user::auth::AuthSessionError;
use steam_user::auth::AuthSessionTicketResponse;
use steam_user::auth::AuthSessionValidateError;
use steam_user::auth::ValidateAuthTicketResponse;
use steam_user::auth::TICKET_CAPACITY;
use steam_user::error::CallError;
use steam_user::error::IntegrityError;
use steam_user::error::RESULT_OK;
use steam_user::identity::AuthTicket;
use steam_user::identity::SteamId;
use steam_user::user::User;

fn patterned(len: usize) -> Vec<u8> {
    let mut v: Vec<u8> = Vec::with_capacity(len);
    let mut i: usize = 0;
    while i < len {
        v.push((i % 251) as u8);
        i += 1;
    }
    v
}

#[test]
fn begin_session_accepts_status_zero() {
    let user = User::new();
    assert_eq!(user.begin_authentication_session(0), Ok(()));
}

#[test]
fn begin_session_reports_each_error() {
    let user = User::new();
    assert_eq!(
        user.begin_authentication_session(1),
        Err(CallError::Reported(AuthSessionError::InvalidTicket))
    );
    assert_eq!(
        user.begin_authentication_session(2),
        Err(CallError::Reported(AuthSessionError::DuplicateRequest))
    );
    assert_eq!(
        user.begin_authentication_session(3),
        Err(CallError::Reported(AuthSessionError::InvalidVersion))
    );
    assert_eq!(
        user.begin_authentication_session(4),
        Err(CallError::Reported(AuthSessionError::GameMismatch))
    );
    assert_eq!(
        user.begin_authentication_session(5),
        Err(CallError::Reported(AuthSessionError::ExpiredTicket))
    );
}

#[test]
fn begin_session_surfaces_unknown_status() {
    let user = User::new();
    assert_eq!(
        user.begin_authentication_session(6),
        Err(CallError::Integrity(IntegrityError::UnknownResultCode(6)))
    );
    assert_eq!(
        user.begin_authentication_session(-1),
        Err(CallError::Integrity(IntegrityError::UnknownResultCode(-1)))
    );
    assert_eq!(
        user.begin_authentication_session(i32::MAX),
        Err(CallError::Integrity(IntegrityError::UnknownResultCode(i32::MAX)))
    );
    assert_eq!(
        user.begin_authentication_session(i32::MIN),
        Err(CallError::Integrity(IntegrityError::UnknownResultCode(i32::MIN)))
    );
}

#[test]
fn begin_session_does_not_deduplicate() {
    // Two accepted requests in a row: nothing is remembered on this side.
    let user = User::new();
    assert_eq!(user.begin_authentication_session(0), Ok(()));
    assert_eq!(user.begin_authentication_session(0), Ok(()));
}

#[test]
fn ticket_buffer_is_zeroed_and_of_full_capacity() {
    let buffer = ticket_buffer();
    assert_eq!(buffer.len(), 1024);
    assert_eq!(buffer, vec![0u8; 1024]);
}

#[test]
fn ticket_length_is_the_length() {
    assert_eq!(ticket_length(&[]), 0);
    assert_eq!(ticket_length(&[9u8; 234]), 234);
    assert_eq!(ticket_length(&patterned(1024)), 1024);
}

#[test]
fn ticket_from_a_fresh_buffer() {
    let user = User::new();
    let mut buffer = ticket_buffer();
    buffer[0] = 0x14;
    buffer[1] = 0x00;
    buffer[2] = 0x07;
    let (handle, bytes) = user.authentication_session_ticket(3, buffer, 3);
    assert_eq!(handle.raw(), 3);
    assert_eq!(bytes, vec![0x14u8, 0x00u8, 0x07u8]);
}

#[test]
fn ticket_is_cut_to_reported_length() {
    let user = User::new();
    let buffer = patterned(TICKET_CAPACITY);
    let (handle, bytes) = user.authentication_session_ticket(77, buffer.clone(), 3);
    assert_eq!(handle.raw(), 77);
    assert_eq!(bytes, vec![0u8, 1u8, 2u8]);
    let (_, bytes) = user.authentication_session_ticket(77, buffer.clone(), 234);
    assert_eq!(bytes.len(), 234);
    assert_eq!(bytes[..], buffer[..234]);
}

#[test]
fn ticket_of_length_zero_is_empty() {
    let user = User::new();
    let (handle, bytes) = user.authentication_session_ticket(0, patterned(TICKET_CAPACITY), 0);
    assert_eq!(handle.raw(), 0);
    assert!(bytes.is_empty());
}

#[test]
fn ticket_of_full_length_keeps_the_buffer() {
    let user = User::new();
    let buffer = patterned(TICKET_CAPACITY);
    let (_, bytes) = user.authentication_session_ticket(1, buffer.clone(), 1024);
    assert_eq!(bytes, buffer);
}

#[test]
fn ticket_never_exceeds_capacity() {
    let user = User::new();
    // The platform reports more than the buffer holds.
    let buffer = patterned(TICKET_CAPACITY);
    let (_, bytes) = user.authentication_session_ticket(1, buffer.clone(), 2000);
    assert_eq!(bytes.len(), 1024);
    assert_eq!(bytes, buffer);
    let (_, bytes) = user.authentication_session_ticket(1, buffer.clone(), u32::MAX);
    assert_eq!(bytes.len(), 1024);
    // The caller handed over a larger buffer.
    let large = patterned(3000);
    let (_, bytes) = user.authentication_session_ticket(1, large.clone(), 1500);
    assert_eq!(bytes.len(), 1024);
    assert_eq!(bytes[..], large[..1024]);
    let (_, bytes) = user.authentication_session_ticket(1, large.clone(), 5);
    assert_eq!(bytes[..], large[..5]);
}

#[test]
fn ticket_never_exceeds_the_buffer() {
    let user = User::new();
    let small = patterned(10);
    let (_, bytes) = user.authentication_session_ticket(1, small.clone(), 20);
    assert_eq!(bytes, small);
    let (_, bytes) = user.authentication_session_ticket(1, Vec::new(), 20);
    assert!(bytes.is_empty());
}

#[test]
fn ticket_handles_stay_distinct() {
    let user = User::new();
    let (a, _) = user.authentication_session_ticket(1, patterned(16), 4);
    let (b, _) = user.authentication_session_ticket(2, patterned(16), 4);
    let (c, _) = user.authentication_session_ticket(1, patterned(16), 8);
    assert_ne!(a, b);
    assert_eq!(a, c);
    assert_eq!(AuthTicket::from_raw(u32::MAX).raw(), u32::MAX);
}

#[test]
fn cancel_hands_the_handle_on() {
    let user = User::new();
    let (handle, _) = user.authentication_session_ticket(4711, patterned(32), 32);
    assert_eq!(user.cancel_authentication_ticket(handle), 4711);
    // Cancelling again is as good as the first time.
    assert_eq!(user.cancel_authentication_ticket(handle), 4711);
}

#[test]
fn end_session_hands_the_identity_on() {
    let user = User::new();
    assert_eq!(user.end_authentication_session(SteamId::from_raw(42)), 42);
    assert_eq!(
        user.end_authentication_session(SteamId::from_raw(u64::MAX)),
        u64::MAX
    );
}

#[test]
fn session_with_later_rejection_is_accepted() {
    let user = User::new();
    let id = SteamId::from_raw(42);
    assert_eq!(user.begin_authentication_session(0), Ok(()));
    let event = ValidateAuthTicketResponse::from_raw(42, 4, 42).unwrap();
    assert_eq!(event.steam_id, id);
    assert_eq!(
        event.response,
        Err(AuthSessionValidateError::LoggedInElseWhere)
    );
    assert_eq!(user.end_authentication_session(id), 42);
}

#[test]
fn end_session_without_begin_is_accepted() {
    let user = User::new();
    assert_eq!(user.end_authentication_session(SteamId::from_raw(7)), 7);
}

#[test]
fn steam_id_is_its_bits() {
    assert_eq!(SteamId::from_raw(0).raw(), 0);
    assert_eq!(SteamId::from_raw(76561197960265728).raw(), 76561197960265728);
    assert_eq!(SteamId::from_raw(5), SteamId::from_raw(5));
    assert_ne!(SteamId::from_raw(5), SteamId::from_raw(6));
    assert!(SteamId::from_raw(5) < SteamId::from_raw(6));
    assert!(SteamId::from_raw(u64::MAX) > SteamId::from_raw(0));
    assert!(SteamId::from_raw(5) <= SteamId::from_raw(5));
    assert!(!(SteamId::from_raw(5) < SteamId::from_raw(5)));
    // The order is that of the bits as a number, not as a signed one.
    assert!(SteamId::from_raw(0x8000_0000_0000_0000) > SteamId::from_raw(1));
    assert_eq!(
        SteamId::from_raw(3).partial_cmp(&SteamId::from_raw(2)),
        Some(std::cmp::Ordering::Greater)
    );
    assert_eq!(
        SteamId::from_raw(3).cmp(&SteamId::from_raw(3)),
        std::cmp::Ordering::Equal
    );
    assert_eq!(
        SteamId::from_raw(2).max(SteamId::from_raw(3)),
        SteamId::from_raw(3)
    );
}

#[test]
fn ticket_response_reports_creation() {
    let event = AuthSessionTicketResponse::from_raw(9, RESULT_OK);
    assert_eq!(event.ticket, AuthTicket::from_raw(9));
    assert_eq!(event.result, Ok(()));
}

#[test]
fn ticket_response_reports_failure_with_its_code() {
    let event = AuthSessionTicketResponse::from_raw(9, 2);
    assert_eq!(event.ticket.raw(), 9);
    assert_eq!(event.result.unwrap_err().code(), 2);
    let event = AuthSessionTicketResponse::from_raw(10, 0);
    assert_eq!(event.result.unwrap_err().code(), 0);
    let event = AuthSessionTicketResponse::from_raw(11, -5);
    assert_eq!(event.result.unwrap_err().code(), -5);
}

#[test]
fn ticket_response_is_matched_by_handle() {
    let user = User::new();
    let (first, _) = user.authentication_session_ticket(100, patterned(8), 8);
    let (second, _) = user.authentication_session_ticket(101, patterned(8), 8);
    let event = AuthSessionTicketResponse::from_raw(101, RESULT_OK);
    assert_ne!(event.ticket, first);
    assert_eq!(event.ticket, second);
}

#[test]
fn validation_confirms_with_response_zero() {
    let event = ValidateAuthTicketResponse::from_raw(1, 0, 1).unwrap();
    assert_eq!(event.response, Ok(()));
}

#[test]
fn validation_reports_each_error() {
    let expected = [
        (1, AuthSessionValidateError::UserNotConnectedToSteam),
        (2, AuthSessionValidateError::NoLicenseOrExpired),
        (3, AuthSessionValidateError::VACBanned),
        (4, AuthSessionValidateError::LoggedInElseWhere),
        (5, AuthSessionValidateError::VACCheckTimedOut),
        (6, AuthSessionValidateError::AuthTicketCancelled),
        (7, AuthSessionValidateError::AuthTicketInvalidAlreadyUsed),
        (8, AuthSessionValidateError::AuthTicketInvalid),
        (9, AuthSessionValidateError::PublisherIssuedBan),
    ];
    for (code, error) in expected {
        let event = ValidateAuthTicketResponse::from_raw(3, code, 4).unwrap();
        assert_eq!(event.response, Err(error));
    }
}

#[test]
fn validation_surfaces_unknown_response() {
    assert_eq!(
        ValidateAuthTicketResponse::from_raw(1, 10, 1),
        Err(IntegrityError::UnknownResultCode(10))
    );
    assert_eq!(
        ValidateAuthTicketResponse::from_raw(1, -1, 1),
        Err(IntegrityError::UnknownResultCode(-1))
    );
}

#[test]
fn validation_keeps_both_identities() {
    // A borrowed game: the owner is someone else.
    let event = ValidateAuthTicketResponse::from_raw(
        0x0110_0001_0000_002a,
        0,
        0x0110_0001_0000_0539,
    )
    .unwrap();
    assert_eq!(event.steam_id.raw(), 0x0110_0001_0000_002a);
    assert_eq!(event.owner_steam_id.raw(), 0x0110_0001_0000_0539);
    assert_ne!(event.steam_id, event.owner_steam_id);
    // The user's own game.
    let event = ValidateAuthTicketResponse::from_raw(u64::MAX, 3, u64::MAX).unwrap();
    assert_eq!(event.steam_id.raw(), u64::MAX);
    assert_eq!(event.owner_steam_id.raw(), u64::MAX);
    assert_eq!(event.steam_id, event.owner_steam_id);
    // The identities are not swapped.
    let event = ValidateAuthTicketResponse::from_raw(1, 9, 2).unwrap();
    assert_eq!(event.steam_id.raw(), 1);
    assert_eq!(event.owner_steam_id.raw(), 2);
}

#[test]
fn event_identifiers() {
    assert_eq!(AuthSessionTicketResponse::ID, 163);
    assert_eq!(ValidateAuthTicketResponse::ID, 143);
}
