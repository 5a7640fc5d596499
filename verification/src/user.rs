//! The operations of the user interface.
//!
//! Each operation here stands for one call into the platform. The caller
//! makes that call and hands the platform's answer to the operation of the
//! same name, which says what the answer means and keeps the phase of the
//! voice recorder up to date.

use vstd::prelude::*;
use crate::auth::begin_auth_session_outcome;
use crate::auth::ticket_bytes;
use crate::auth::AuthSessionError;
use crate::auth::TICKET_CAPACITY;
use crate::error::CallError;
use crate::error::IntegrityError;
use crate::identity::AuthTicket;
use crate::identity::SteamId;
use crate::voice::voice_outcome;
use crate::voice::voice_result;
use crate::voice::voice_transfer_outcome;
use crate::voice::voice_transfer_result;
use crate::voice::RecorderPhase;
use crate::voice::VoiceResult;

verus! {

/// The user interface of the platform, as far as it lives on this side.
///
/// All it holds is the phase of the voice recorder. Tickets and sessions
/// are not kept here: they belong to the platform.
#[derive(Debug)]
pub struct User {
    phase: RecorderPhase,
}

impl View for User {
    type V = RecorderPhase;

    closed spec fn view(&self) -> RecorderPhase {
        self.phase
    }
}

impl User {
    /// The interface before anything has been recorded.
    pub fn new() -> (r: User)
        ensures
            r@ == RecorderPhase::Idle,
    {
        User { phase: RecorderPhase::Idle }
    }

    /// Where the voice recorder stands.
    pub fn recorder_phase(&self) -> (r: RecorderPhase)
        ensures
            r == self@,
    {
        self.phase
    }

    /// Completes the request for a ticket that can be sent to whoever
    /// wants to verify this user.
    ///
    /// `handle` is what the platform returned, `buffer` what it wrote the
    /// ticket into, `ticket_len` the length it reported. The result is the
    /// handle, by which the ticket is cancelled later, and the bytes of the
    /// ticket: at most [`TICKET_CAPACITY`] of them.
    ///
    /// A ticket is for one use. Whether it was created is told later by an
    /// event with the same handle.
    pub fn authentication_session_ticket(
        &self,
        handle: u32,
        buffer: Vec<u8>,
        ticket_len: u32,
    ) -> (r: (AuthTicket, Vec<u8>))
        ensures
            r.0@ == handle,
            r.1@ == ticket_bytes(buffer@, ticket_len),
            r.1@.len() <= TICKET_CAPACITY,
    {
        let mut ticket = buffer;
        ticket.truncate(ticket_len as usize);
        ticket.truncate(TICKET_CAPACITY);
        (AuthTicket::from_raw(handle), ticket)
    }

    /// Cancels a ticket: gives the handle to pass to the platform. Nothing
    /// is checked or remembered, so cancelling twice, or after the ticket
    /// has expired, is no error.
    pub fn cancel_authentication_ticket(&self, ticket: AuthTicket) -> (r: u32)
        ensures
            r == ticket@,
    {
        ticket.raw()
    }

    /// Completes a session request: says what the status means that the
    /// platform returned for it.
    ///
    /// Success means that the ticket was taken for validation, not that
    /// the user can be trusted: the authority reports on that by events
    /// for as long as the session lasts.
    pub fn begin_authentication_session(&self, status: i32) -> (r: Result<
        (),
        CallError<AuthSessionError>,
    >)
        ensures
            r == begin_auth_session_outcome(status),
    {
        match status {
            0 => Ok(()),
            1 => Err(CallError::Reported(AuthSessionError::InvalidTicket)),
            2 => Err(CallError::Reported(AuthSessionError::DuplicateRequest)),
            3 => Err(CallError::Reported(AuthSessionError::InvalidVersion)),
            4 => Err(CallError::Reported(AuthSessionError::GameMismatch)),
            5 => Err(CallError::Reported(AuthSessionError::ExpiredTicket)),
            _ => Err(CallError::Integrity(IntegrityError::UnknownResultCode(status))),
        }
    }

    /// Ends a session: gives the identity to pass to the platform. No
    /// session is looked up, so this is accepted for any identity, whether
    /// or not the authority has reported on it.
    pub fn end_authentication_session(&self, user: SteamId) -> (r: u64)
        ensures
            r == user@,
    {
        user.raw()
    }

    /// Completes a poll for voice data. `status` is what the platform
    /// returned and `available` the size it reported.
    ///
    /// Polling has a point while the recorder records or winds down. At
    /// rest the platform answers that nothing is being recorded.
    ///
    /// On success `pcb_compressed` receives the size. On any other outcome
    /// it is left as it was. That no data is ready yet is such an outcome,
    /// and an ordinary one: poll again.
    pub fn get_available_voice(
        &mut self,
        pcb_compressed: &mut u32,
        status: i32,
        available: u32,
    ) -> (r: Result<(), CallError<VoiceResult>>)
        ensures
            r == voice_outcome(status),
            *final(pcb_compressed) == if r is Ok {
                available
            } else {
                *old(pcb_compressed)
            },
            final(self)@ == old(self)@.after_poll(r),
    {
        let r = voice_result(status);
        if r.is_ok() {
            *pcb_compressed = available;
        }
        self.phase = self.phase.observe(&r);
        r
    }

    /// Completes a read of recorded voice data into `p_dest_buffer`.
    /// `status` is what the platform returned and `written` the count of
    /// bytes it reported.
    ///
    /// On success `n_bytes_written` receives the count, which is never more
    /// than the buffer holds. On any other outcome, in particular when the
    /// buffer was too small, it is left as it was: there is no partial
    /// read. After a buffer that was too small, ask for the size that is
    /// waiting and read again with a buffer of that size.
    ///
    /// A buffer of 8 KiB or more is recommended. Read once for every frame
    /// drawn, and no less than four times a second, or the stream will
    /// have gaps.
    pub fn get_voice(
        &mut self,
        p_dest_buffer: &[u8],
        n_bytes_written: &mut u32,
        status: i32,
        written: u32,
    ) -> (r: Result<(), CallError<VoiceResult>>)
        ensures
            r == voice_transfer_outcome(status, written, p_dest_buffer@.len()),
            *final(n_bytes_written) == if r is Ok {
                written
            } else {
                *old(n_bytes_written)
            },
            r is Ok ==> *final(n_bytes_written) <= p_dest_buffer@.len(),
            final(self)@ == old(self)@.after_poll(r),
    {
        let r = voice_transfer_result(status, written, p_dest_buffer.len());
        if r.is_ok() {
            *n_bytes_written = written;
        }
        self.phase = self.phase.observe(&r);
        r
    }

    /// Completes the decoding of compressed voice data into
    /// `p_dest_buffer`. `status` is what the platform returned and
    /// `written` the count of bytes it reported.
    ///
    /// Decoding does not depend on the recorder and does not touch it. On
    /// success `n_bytes_written` receives the count, which is never more
    /// than the buffer holds. On any other outcome, in particular when the
    /// buffer was too small, it is left as it was.
    ///
    /// What is decoded is single-channel 16-bit PCM audio at the sample
    /// rate that the platform was asked for, which it takes from 11025 to
    /// 48000.
    pub fn decompress_voice(
        &self,
        p_dest_buffer: &[u8],
        n_bytes_written: &mut u32,
        status: i32,
        written: u32,
    ) -> (r: Result<(), CallError<VoiceResult>>)
        ensures
            r == voice_transfer_outcome(status, written, p_dest_buffer@.len()),
            *final(n_bytes_written) == if r is Ok {
                written
            } else {
                *old(n_bytes_written)
            },
            r is Ok ==> *final(n_bytes_written) <= p_dest_buffer@.len(),
    {
        let r = voice_transfer_result(status, written, p_dest_buffer.len());
        if r.is_ok() {
            *n_bytes_written = written;
        }
        r
    }

    /// Starts voice recording. Whether it could be started shows only in
    /// what later polls answer.
    pub fn start_voice_recording(&mut self)
        ensures
            final(self)@ == old(self)@.after_start(),
    {
        self.phase = self.phase.start();
    }

    /// Stops voice recording. The recorder then winds down: go on reading
    /// until the platform answers [`VoiceResult::NotRecording`].
    pub fn stop_voice_recording(&mut self)
        ensures
            final(self)@ == old(self)@.after_stop(),
    {
        self.phase = self.phase.stop();
    }
}

} // verus!
