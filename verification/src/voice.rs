//! Voice capture and decoding: the status of a voice call, the count of
//! bytes that comes with it, and the phase of the recorder.
//!
//! Recording does not end at once when it is stopped. The driver goes on
//! for a short while, so that the end of what was said is not cut off.
//! Until the platform answers [`VoiceResult::NotRecording`], voice data can
//! still arrive and must still be read.

use vstd::math::min;
use vstd::prelude::*;
use crate::error::CallError;
use crate::error::IntegrityError;

verus! {

/// The status with which the platform reports that a voice call succeeded.
pub const VOICE_RESULT_OK: i32 = 0;

/// Why a voice call gave no data.
#[derive(Clone, Copy, Debug, PartialEq, Eq, Structural)]
pub enum VoiceResult {
    /// The voice interface of the platform has not been set up.
    NotInitialized,
    /// Nothing is being recorded.
    NotRecording,
    /// No voice data is ready. While recording this is the usual answer
    /// between two frames: ask again.
    NoData,
    /// The buffer handed over cannot hold the data.
    BufferTooSmall,
    /// The voice data is damaged.
    DataCorrupted,
    /// The user is not allowed to use voice chat.
    Restricted,
}

impl VoiceResult {
    /// The status by which the platform reports this result.
    pub open spec fn code(self) -> i32 {
        match self {
            VoiceResult::NotInitialized => 1,
            VoiceResult::NotRecording => 2,
            VoiceResult::NoData => 3,
            VoiceResult::BufferTooSmall => 4,
            VoiceResult::DataCorrupted => 5,
            VoiceResult::Restricted => 6,
        }
    }

    /// The result that a status reports, if it reports one of these.
    pub open spec fn of_code(code: i32) -> Option<VoiceResult> {
        if code == 1 {
            Some(VoiceResult::NotInitialized)
        } else if code == 2 {
            Some(VoiceResult::NotRecording)
        } else if code == 3 {
            Some(VoiceResult::NoData)
        } else if code == 4 {
            Some(VoiceResult::BufferTooSmall)
        } else if code == 5 {
            Some(VoiceResult::DataCorrupted)
        } else if code == 6 {
            Some(VoiceResult::Restricted)
        } else {
            None
        }
    }

    /// A status reports a result exactly when it is that result's status,
    /// and no result has the status of success.
    pub proof fn lemma_of_code_inverts_code(code: i32, e: VoiceResult)
        ensures
            VoiceResult::of_code(code) == Some(e) <==> e.code() == code,
            e.code() != VOICE_RESULT_OK,
    {
    }
}

/// What the status of a voice call means: success, one of the results
/// above, or not a status of a voice call at all.
pub open spec fn voice_outcome(status: i32) -> Result<(), CallError<VoiceResult>> {
    if status == VOICE_RESULT_OK {
        Ok(())
    } else {
        match VoiceResult::of_code(status) {
            Some(e) => Err(CallError::Reported(e)),
            None => Err(CallError::Integrity(IntegrityError::UnknownResultCode(status))),
        }
    }
}

/// The outcome of a voice call says just what the platform answered:
/// success for the status of success alone, each result for its own status
/// alone, and no two statuses come to the same.
pub proof fn lemma_voice_outcome_exact(status: i32, other: i32, e: VoiceResult)
    ensures
        voice_outcome(status) is Ok <==> status == VOICE_RESULT_OK,
        voice_outcome(status) == Err::<(), CallError<VoiceResult>>(CallError::Reported(e))
            <==> status == e.code(),
        voice_outcome(status) == voice_outcome(other) <==> status == other,
{
}

/// Reads the status that the platform returned from a voice call.
pub fn voice_result(status: i32) -> (r: Result<(), CallError<VoiceResult>>)
    ensures
        r == voice_outcome(status),
{
    match status {
        0 => Ok(()),
        1 => Err(CallError::Reported(VoiceResult::NotInitialized)),
        2 => Err(CallError::Reported(VoiceResult::NotRecording)),
        3 => Err(CallError::Reported(VoiceResult::NoData)),
        4 => Err(CallError::Reported(VoiceResult::BufferTooSmall)),
        5 => Err(CallError::Reported(VoiceResult::DataCorrupted)),
        6 => Err(CallError::Reported(VoiceResult::Restricted)),
        _ => Err(CallError::Integrity(IntegrityError::UnknownResultCode(status))),
    }
}

/// The size of a buffer as the platform takes it. The platform counts in
/// 32 bits; of a larger buffer it is offered as much as it can count.
pub fn buffer_capacity(buffer: &[u8]) -> (r: u32)
    ensures
        r == min(buffer@.len() as int, u32::MAX as int),
{
    let len: usize = buffer.len();
    if len <= u32::MAX as usize {
        len as u32
    } else {
        u32::MAX
    }
}

/// What the answer to a call that fills a buffer means. A success that
/// claims more bytes than the buffer holds is no success but a breach of
/// the protocol; otherwise the status decides.
pub open spec fn voice_transfer_outcome(status: i32, written: u32, capacity: nat) -> Result<
    (),
    CallError<VoiceResult>,
> {
    if status == VOICE_RESULT_OK && written > capacity {
        Err(
            CallError::Integrity(
                IntegrityError::LengthOutOfBounds {
                    reported: written,
                    capacity: capacity as usize,
                },
            ),
        )
    } else {
        voice_outcome(status)
    }
}

/// Reads the answer of the platform to a call that fills a buffer of
/// `capacity` bytes.
pub fn voice_transfer_result(status: i32, written: u32, capacity: usize) -> (r: Result<
    (),
    CallError<VoiceResult>,
>)
    ensures
        r == voice_transfer_outcome(status, written, capacity as nat),
{
    if status == VOICE_RESULT_OK && written as usize > capacity {
        Err(CallError::Integrity(IntegrityError::LengthOutOfBounds { reported: written, capacity }))
    } else {
        voice_result(status)
    }
}

/// The answer that nothing is being recorded.
pub open spec fn not_recording() -> Result<(), CallError<VoiceResult>> {
    Err(CallError::Reported(VoiceResult::NotRecording))
}

/// Where the recorder stands.
#[derive(Clone, Copy, Debug, PartialEq, Eq, Structural)]
pub enum RecorderPhase {
    /// Nothing is recorded and nothing is left to read.
    Idle,
    /// Recording was started.
    Recording,
    /// Recording was stopped, but the driver may still deliver what it
    /// held back. Keep reading.
    Stopping,
}

impl RecorderPhase {
    /// The phase once recording has been started: recording, from any phase.
    pub open spec fn after_start(self) -> RecorderPhase {
        RecorderPhase::Recording
    }

    /// The phase once recording has been stopped. A running recorder winds
    /// down; an idle one stays idle.
    pub open spec fn after_stop(self) -> RecorderPhase {
        match self {
            RecorderPhase::Recording => RecorderPhase::Stopping,
            RecorderPhase::Stopping => RecorderPhase::Stopping,
            RecorderPhase::Idle => RecorderPhase::Idle,
        }
    }

    /// The phase once the platform has answered a poll or a read. Only the
    /// answer that nothing is being recorded changes it: the recorder has
    /// then come to rest.
    pub open spec fn after_poll(
        self,
        outcome: Result<(), CallError<VoiceResult>>,
    ) -> RecorderPhase {
        if outcome == not_recording() {
            RecorderPhase::Idle
        } else {
            self
        }
    }

    /// The phase after a run of polls, the first answer first.
    pub open spec fn after_polls(
        self,
        outcomes: Seq<Result<(), CallError<VoiceResult>>>,
    ) -> RecorderPhase
        decreases outcomes.len(),
    {
        if outcomes.len() == 0 {
            self
        } else {
            self.after_polls(outcomes.drop_last()).after_poll(outcomes.last())
        }
    }

    /// Starts recording.
    pub fn start(self) -> (r: RecorderPhase)
        ensures
            r == self.after_start(),
    {
        RecorderPhase::Recording
    }

    /// Stops recording.
    pub fn stop(self) -> (r: RecorderPhase)
        ensures
            r == self.after_stop(),
    {
        match self {
            RecorderPhase::Recording => RecorderPhase::Stopping,
            RecorderPhase::Stopping => RecorderPhase::Stopping,
            RecorderPhase::Idle => RecorderPhase::Idle,
        }
    }

    /// Takes note of the platform's answer to a poll or a read.
    pub fn observe(self, outcome: &Result<(), CallError<VoiceResult>>) -> (r: RecorderPhase)
        ensures
            r == self.after_poll(*outcome),
    {
        match outcome {
            Err(CallError::Reported(VoiceResult::NotRecording)) => RecorderPhase::Idle,
            _ => self,
        }
    }

    /// A run of polls brings the recorder to rest exactly if one of the
    /// answers is that nothing is being recorded. Whatever else the
    /// platform answers, and however often, the phase stays what it was.
    pub proof fn lemma_rest_only_on_not_recording(
        self,
        outcomes: Seq<Result<(), CallError<VoiceResult>>>,
    )
        ensures
            self.after_polls(outcomes) == if exists|i: int|
                0 <= i < outcomes.len() && outcomes[i] == not_recording() {
                RecorderPhase::Idle
            } else {
                self
            },
        decreases outcomes.len(),
    {
        if outcomes.len() > 0 {
            let init = outcomes.drop_last();
            self.lemma_rest_only_on_not_recording(init);
            // An answer of the shorter run is the same answer of the whole run.
            assert(forall|i: int| 0 <= i < init.len() ==> init[i] == outcomes[i]);
        }
    }

    /// Stopping a running recorder does not bring it to rest. It keeps
    /// winding down through every answer but the one that nothing is being
    /// recorded, and that answer brings it to rest at once.
    pub proof fn lemma_stop_winds_down(outcomes: Seq<Result<(), CallError<VoiceResult>>>)
        requires
            forall|i: int| 0 <= i < outcomes.len() ==> outcomes[i] != not_recording(),
        ensures
            RecorderPhase::Recording.after_stop() == RecorderPhase::Stopping,
            RecorderPhase::Stopping.after_polls(outcomes) == RecorderPhase::Stopping,
            RecorderPhase::Stopping.after_polls(outcomes).after_poll(not_recording())
                == RecorderPhase::Idle,
    {
        RecorderPhase::Stopping.lemma_rest_only_on_not_recording(outcomes);
    }
}

} // verus!
