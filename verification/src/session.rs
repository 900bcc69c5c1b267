//! The decode pipeline as a state machine.
//!
//! One decode is one session with the engine: initialize, open the file,
//! unpack, configure 8-bit output and develop, then extract a bitmap —
//! preferring the embedded thumbnail and falling back to full-image
//! extraction only when the engine reports that no thumbnail exists.
//! The engine's calls themselves happen outside this library; the shell
//! performs each requested [`EngineAction`] and reports what the engine
//! answered as an [`EngineEvent`]. Every decision in between — stage
//! ordering, error mapping, the fallback, buffer validation, and when the
//! session and any engine-owned buffer must be released — is made here,
//! by [`DecodeDriver::step`], whose contract pins it to [`model_step`].

use vstd::prelude::*;

use crate::decoder::DecodeError;
use crate::decoder::DecodedImage;
use crate::decoder::ImageModel;
use crate::decoder::extract_image_data;
use crate::decoder::outcome_view;
use crate::decoder::payload_view;
use crate::decoder::validate_model;

verus! {

/// Engine convention: this status from thumbnail extraction means the file
/// embeds no thumbnail. It is the one extraction error that is not fatal:
/// the pipeline then falls back to full-image extraction.
pub const NO_THUMBNAIL_CODE: i32 = -4;

/// What the engine handed back from a buffer-extraction call.
pub enum ExtractReply {
    /// The engine returned no buffer; `code` is the status it reported.
    Missing { code: i32 },
    /// The engine returned a buffer, reporting the given geometry and
    /// status `code`. `payload` is a byte-for-byte copy of the buffer's
    /// contents, or `None` when the buffer's data pointer was null.
    Buffer { code: i32, width: u32, height: u32, payload: Option<Vec<u8>> },
}

/// The engine's answer to the most recent [`EngineAction`].
pub enum EngineEvent {
    /// Session allocation finished; `ok` says whether a session exists now.
    SessionInit { ok: bool },
    /// Opening the file returned this status (0 is success).
    OpenDone { code: i32 },
    /// Unpacking the sensor data returned this status (0 is success).
    UnpackDone { code: i32 },
    /// The develop pipeline returned this status (0 is success).
    ProcessDone { code: i32 },
    /// Thumbnail extraction answered with `reply`.
    ThumbDone { reply: ExtractReply },
    /// Full-image extraction answered with `reply`.
    FullDone { reply: ExtractReply },
    /// The engine-owned buffer has been released.
    BufferReleased,
    /// The session has been closed.
    SessionClosed,
}

/// The next engine call the shell must perform.
#[derive(Clone, Copy, Debug, PartialEq, Eq, Structural)]
pub enum EngineAction {
    /// Allocate a decode session.
    InitSession,
    /// Open the file into the session.
    OpenFile,
    /// Unpack the raw sensor data.
    Unpack,
    /// Configure 8-bit-per-channel output (no failure signal), then run
    /// the develop pipeline.
    ConfigureAndProcess,
    /// Attempt thumbnail extraction.
    MakeThumb,
    /// Attempt full-image extraction.
    MakeFullImage,
    /// Release the engine-owned buffer of the last extraction.
    ReleaseBuffer,
    /// Close the session.
    CloseSession,
    /// Nothing is left to do: the outcome is available.
    Finish,
}

/// Model of an [`ExtractReply`].
pub enum ReplyModel {
    Missing { code: i32 },
    Buffer { code: i32, width: u32, height: u32, payload: Option<Seq<u8>> },
}

/// Model of an [`EngineEvent`].
pub enum EventModel {
    SessionInit { ok: bool },
    OpenDone { code: i32 },
    UnpackDone { code: i32 },
    ProcessDone { code: i32 },
    ThumbDone { reply: ReplyModel },
    FullDone { reply: ReplyModel },
    BufferReleased,
    SessionClosed,
}

impl View for ExtractReply {
    type V = ReplyModel;

    open spec fn view(&self) -> ReplyModel {
        match self {
            ExtractReply::Missing { code } => ReplyModel::Missing { code: *code },
            ExtractReply::Buffer { code, width, height, payload } => ReplyModel::Buffer {
                code: *code,
                width: *width,
                height: *height,
                payload: payload_view(*payload),
            },
        }
    }
}

impl View for EngineEvent {
    type V = EventModel;

    open spec fn view(&self) -> EventModel {
        match self {
            EngineEvent::SessionInit { ok } => EventModel::SessionInit { ok: *ok },
            EngineEvent::OpenDone { code } => EventModel::OpenDone { code: *code },
            EngineEvent::UnpackDone { code } => EventModel::UnpackDone { code: *code },
            EngineEvent::ProcessDone { code } => EventModel::ProcessDone { code: *code },
            EngineEvent::ThumbDone { reply } => EventModel::ThumbDone { reply: reply@ },
            EngineEvent::FullDone { reply } => EventModel::FullDone { reply: reply@ },
            EngineEvent::BufferReleased => EventModel::BufferReleased,
            EngineEvent::SessionClosed => EventModel::SessionClosed,
        }
    }
}

/// Where a decode stands, including what it still holds of the engine's.
pub enum Phase {
    /// Awaiting the result of session allocation.
    Starting,
    /// Session live; awaiting the result of opening the file.
    Opening,
    /// Session live; awaiting the result of unpacking.
    Unpacking,
    /// Session live; awaiting the result of the develop pipeline.
    Processing,
    /// Session live; awaiting the thumbnail-extraction reply.
    Thumbing,
    /// Session live; awaiting the full-image-extraction reply.
    FullExtracting,
    /// Session live and an engine-owned buffer held; `pending` is settled
    /// and awaits only the buffer's release.
    Releasing { pending: Result<DecodedImage, DecodeError> },
    /// Session live, no buffer held; `pending` awaits only the close.
    Closing { pending: Result<DecodedImage, DecodeError> },
    /// Everything released; the decode's outcome.
    Done { outcome: Result<DecodedImage, DecodeError> },
}

/// Model of a [`Phase`].
pub enum PhaseModel {
    Starting,
    Opening,
    Unpacking,
    Processing,
    Thumbing,
    FullExtracting,
    Releasing { pending: Result<ImageModel, DecodeError> },
    Closing { pending: Result<ImageModel, DecodeError> },
    Done { outcome: Result<ImageModel, DecodeError> },
}

impl View for Phase {
    type V = PhaseModel;

    open spec fn view(&self) -> PhaseModel {
        match self {
            Phase::Starting => PhaseModel::Starting,
            Phase::Opening => PhaseModel::Opening,
            Phase::Unpacking => PhaseModel::Unpacking,
            Phase::Processing => PhaseModel::Processing,
            Phase::Thumbing => PhaseModel::Thumbing,
            Phase::FullExtracting => PhaseModel::FullExtracting,
            Phase::Releasing { pending } => PhaseModel::Releasing {
                pending: outcome_view(*pending),
            },
            Phase::Closing { pending } => PhaseModel::Closing { pending: outcome_view(*pending) },
            Phase::Done { outcome } => PhaseModel::Done { outcome: outcome_view(*outcome) },
        }
    }
}

/// Which event each phase is waiting for: the engine's answer to the one
/// action that the phase requested.
pub open spec fn expects(phase: PhaseModel, ev: EventModel) -> bool {
    match (phase, ev) {
        (PhaseModel::Starting, EventModel::SessionInit { .. }) => true,
        (PhaseModel::Opening, EventModel::OpenDone { .. }) => true,
        (PhaseModel::Unpacking, EventModel::UnpackDone { .. }) => true,
        (PhaseModel::Processing, EventModel::ProcessDone { .. }) => true,
        (PhaseModel::Thumbing, EventModel::ThumbDone { .. }) => true,
        (PhaseModel::FullExtracting, EventModel::FullDone { .. }) => true,
        (PhaseModel::Releasing { .. }, EventModel::BufferReleased) => true,
        (PhaseModel::Closing { .. }, EventModel::SessionClosed) => true,
        _ => false,
    }
}

/// The pipeline's transition function. Given where the decode stands and
/// what the engine answered, it yields the next phase and the next action:
///
/// - a nonzero status at open, unpack or develop settles the matching
///   failure and asks for the close;
/// - a missing thumbnail with [`NO_THUMBNAIL_CODE`] falls back to
///   full-image extraction; any other missing-thumbnail status is fatal;
/// - a missing full image is fatal, as is a full-image reply whose status
///   is nonzero, though its buffer is still released first;
/// - a returned buffer is validated against the 8-bit RGB size contract
///   and released before the session is closed;
/// - an event no phase asked for changes nothing.
pub open spec fn model_step(phase: PhaseModel, ev: EventModel) -> (PhaseModel, EngineAction) {
    match (phase, ev) {
        (PhaseModel::Starting, EventModel::SessionInit { ok }) => {
            if ok {
                (PhaseModel::Opening, EngineAction::OpenFile)
            } else {
                (
                    PhaseModel::Done { outcome: Err(DecodeError::InitializationFailure) },
                    EngineAction::Finish,
                )
            }
        },
        (PhaseModel::Opening, EventModel::OpenDone { code }) => {
            if code == 0 {
                (PhaseModel::Unpacking, EngineAction::Unpack)
            } else {
                (
                    PhaseModel::Closing { pending: Err(DecodeError::OpenFailure { code }) },
                    EngineAction::CloseSession,
                )
            }
        },
        (PhaseModel::Unpacking, EventModel::UnpackDone { code }) => {
            if code == 0 {
                (PhaseModel::Processing, EngineAction::ConfigureAndProcess)
            } else {
                (
                    PhaseModel::Closing { pending: Err(DecodeError::UnpackFailure { code }) },
                    EngineAction::CloseSession,
                )
            }
        },
        (PhaseModel::Processing, EventModel::ProcessDone { code }) => {
            if code == 0 {
                (PhaseModel::Thumbing, EngineAction::MakeThumb)
            } else {
                (
                    PhaseModel::Closing { pending: Err(DecodeError::ProcessFailure { code }) },
                    EngineAction::CloseSession,
                )
            }
        },
        (PhaseModel::Thumbing, EventModel::ThumbDone { reply }) => {
            match reply {
                ReplyModel::Missing { code } => {
                    if code == NO_THUMBNAIL_CODE {
                        (PhaseModel::FullExtracting, EngineAction::MakeFullImage)
                    } else {
                        (
                            PhaseModel::Closing {
                                pending: Err(DecodeError::ThumbnailExtractFailure { code }),
                            },
                            EngineAction::CloseSession,
                        )
                    }
                },
                ReplyModel::Buffer { width, height, payload, .. } => {
                    (
                        PhaseModel::Releasing { pending: validate_model(width, height, payload) },
                        EngineAction::ReleaseBuffer,
                    )
                },
            }
        },
        (PhaseModel::FullExtracting, EventModel::FullDone { reply }) => {
            match reply {
                ReplyModel::Missing { code } => {
                    (
                        PhaseModel::Closing {
                            pending: Err(DecodeError::FullExtractFailure { code }),
                        },
                        EngineAction::CloseSession,
                    )
                },
                ReplyModel::Buffer { code, width, height, payload } => {
                    if code == 0 {
                        (
                            PhaseModel::Releasing {
                                pending: validate_model(width, height, payload),
                            },
                            EngineAction::ReleaseBuffer,
                        )
                    } else {
                        (
                            PhaseModel::Releasing {
                                pending: Err(DecodeError::FullExtractFailure { code }),
                            },
                            EngineAction::ReleaseBuffer,
                        )
                    }
                },
            }
        },
        (PhaseModel::Releasing { pending }, EventModel::BufferReleased) => {
            (PhaseModel::Closing { pending }, EngineAction::CloseSession)
        },
        (PhaseModel::Closing { pending }, EventModel::SessionClosed) => {
            (PhaseModel::Done { outcome: pending }, EngineAction::Finish)
        },
        _ => (phase, EngineAction::Finish),
    }
}

/// Drives one decode. Owns nothing of the engine's itself: it only records
/// where the pipeline stands and decides, via [`DecodeDriver::step`], what
/// the shell must do next.
pub struct DecodeDriver {
    phase: Phase,
}

impl View for DecodeDriver {
    type V = PhaseModel;

    closed spec fn view(&self) -> PhaseModel {
        self.phase@
    }
}

impl DecodeDriver {
    /// Begin a decode. The first action is always to allocate a session.
    pub fn new() -> (r: (DecodeDriver, EngineAction))
        ensures
            r.0@ == PhaseModel::Starting,
            r.1 == EngineAction::InitSession,
    {
        (DecodeDriver { phase: Phase::Starting }, EngineAction::InitSession)
    }

    /// Advance by one engine answer; returns the next call the shell must
    /// make. Exactly implements [`model_step`].
    pub fn step(&mut self, event: EngineEvent) -> (r: EngineAction)
        requires
            expects(old(self)@, event@),
        ensures
            final(self)@ == model_step(old(self)@, event@).0,
            r == model_step(old(self)@, event@).1,
    {
        let mut cur = Phase::Starting;
        core::mem::swap(&mut cur, &mut self.phase);
        let (next, action) = Self::transition(cur, event);
        self.phase = next;
        action
    }

    /// One transition, by value; the body mirrors [`model_step`] case for
    /// case, with validation done by `extract_image_data`.
    fn transition(phase: Phase, event: EngineEvent) -> (r: (Phase, EngineAction))
        requires
            expects(phase@, event@),
        ensures
            r.0@ == model_step(phase@, event@).0,
            r.1 == model_step(phase@, event@).1,
    {
        match (phase, event) {
            (Phase::Starting, EngineEvent::SessionInit { ok }) => {
                if ok {
                    (Phase::Opening, EngineAction::OpenFile)
                } else {
                    (
                        Phase::Done { outcome: Err(DecodeError::InitializationFailure) },
                        EngineAction::Finish,
                    )
                }
            },
            (Phase::Opening, EngineEvent::OpenDone { code }) => {
                if code == 0 {
                    (Phase::Unpacking, EngineAction::Unpack)
                } else {
                    (
                        Phase::Closing { pending: Err(DecodeError::OpenFailure { code }) },
                        EngineAction::CloseSession,
                    )
                }
            },
            (Phase::Unpacking, EngineEvent::UnpackDone { code }) => {
                if code == 0 {
                    (Phase::Processing, EngineAction::ConfigureAndProcess)
                } else {
                    (
                        Phase::Closing { pending: Err(DecodeError::UnpackFailure { code }) },
                        EngineAction::CloseSession,
                    )
                }
            },
            (Phase::Processing, EngineEvent::ProcessDone { code }) => {
                if code == 0 {
                    (Phase::Thumbing, EngineAction::MakeThumb)
                } else {
                    (
                        Phase::Closing { pending: Err(DecodeError::ProcessFailure { code }) },
                        EngineAction::CloseSession,
                    )
                }
            },
            (Phase::Thumbing, EngineEvent::ThumbDone { reply }) => {
                match reply {
                    ExtractReply::Missing { code } => {
                        if code == NO_THUMBNAIL_CODE {
                            (Phase::FullExtracting, EngineAction::MakeFullImage)
                        } else {
                            (
                                Phase::Closing {
                                    pending: Err(DecodeError::ThumbnailExtractFailure { code }),
                                },
                                EngineAction::CloseSession,
                            )
                        }
                    },
                    ExtractReply::Buffer { width, height, payload, .. } => {
                        (
                            Phase::Releasing {
                                pending: extract_image_data(width, height, payload),
                            },
                            EngineAction::ReleaseBuffer,
                        )
                    },
                }
            },
            (Phase::FullExtracting, EngineEvent::FullDone { reply }) => {
                match reply {
                    ExtractReply::Missing { code } => {
                        (
                            Phase::Closing {
                                pending: Err(DecodeError::FullExtractFailure { code }),
                            },
                            EngineAction::CloseSession,
                        )
                    },
                    ExtractReply::Buffer { code, width, height, payload } => {
                        if code == 0 {
                            (
                                Phase::Releasing {
                                    pending: extract_image_data(width, height, payload),
                                },
                                EngineAction::ReleaseBuffer,
                            )
                        } else {
                            (
                                Phase::Releasing {
                                    pending: Err(DecodeError::FullExtractFailure { code }),
                                },
                                EngineAction::ReleaseBuffer,
                            )
                        }
                    },
                }
            },
            (Phase::Releasing { pending }, EngineEvent::BufferReleased) => {
                (Phase::Closing { pending }, EngineAction::CloseSession)
            },
            (Phase::Closing { pending }, EngineEvent::SessionClosed) => {
                (Phase::Done { outcome: pending }, EngineAction::Finish)
            },
            (other, _) => {
                proof {
                    assert(false);
                }
                (other, EngineAction::Finish)
            },
        }
    }

    /// Whether the decode has finished, one way or the other.
    pub fn is_done(&self) -> (r: bool)
        ensures
            r == (self@ is Done),
    {
        match self.phase {
            Phase::Done { .. } => true,
            _ => false,
        }
    }

    /// Hand out the outcome of a finished decode.
    pub fn into_outcome(self) -> (r: Result<DecodedImage, DecodeError>)
        requires
            self@ is Done,
        ensures
            outcome_view(r) == self@->outcome,
    {
        match self.phase {
            Phase::Done { outcome } => outcome,
            _ => {
                proof {
                    assert(false);
                }
                Err(DecodeError::InitializationFailure)
            },
        }
    }
}

// ---------------------------------------------------------------------
// Runs of the pipeline, and the laws that hold of every run.
// ---------------------------------------------------------------------

/// The phase reached by feeding the events of `evs` in order.
pub open spec fn run(phase: PhaseModel, evs: Seq<EventModel>) -> PhaseModel
    decreases evs.len(),
{
    if evs.len() == 0 {
        phase
    } else {
        run(model_step(phase, evs[0]).0, evs.drop_first())
    }
}

/// Whether every event of `evs` is the one its phase was waiting for:
/// the shell's loop, answering each requested action in turn, produces
/// exactly such runs.
pub open spec fn expected_run(phase: PhaseModel, evs: Seq<EventModel>) -> bool
    decreases evs.len(),
{
    evs.len() == 0 || (expects(phase, evs[0]) && expected_run(
        model_step(phase, evs[0]).0,
        evs.drop_first(),
    ))
}

/// An event that reports a session successfully allocated.
pub open spec fn is_open_event(ev: EventModel) -> bool {
    ev matches EventModel::SessionInit { ok: true }
}

/// An event that reports the session closed.
pub open spec fn is_close_event(ev: EventModel) -> bool {
    ev is SessionClosed
}

/// An event that hands the pipeline an engine-owned buffer.
pub open spec fn is_acquire_event(ev: EventModel) -> bool {
    ||| ev matches EventModel::ThumbDone { reply: ReplyModel::Buffer { .. } }
    ||| ev matches EventModel::FullDone { reply: ReplyModel::Buffer { .. } }
}

/// An event that reports an engine-owned buffer released.
pub open spec fn is_release_event(ev: EventModel) -> bool {
    ev is BufferReleased
}

/// How many events of `evs` satisfy `f`.
pub open spec fn count_matching(evs: Seq<EventModel>, f: spec_fn(EventModel) -> bool) -> int
    decreases evs.len(),
{
    if evs.len() == 0 {
        0
    } else {
        (if f(evs[0]) {
            1int
        } else {
            0int
        }) + count_matching(evs.drop_first(), f)
    }
}

/// Sessions opened over a run.
pub open spec fn opens(evs: Seq<EventModel>) -> int {
    count_matching(evs, |ev: EventModel| is_open_event(ev))
}

/// Sessions closed over a run.
pub open spec fn closes(evs: Seq<EventModel>) -> int {
    count_matching(evs, |ev: EventModel| is_close_event(ev))
}

/// Engine-owned buffers acquired over a run.
pub open spec fn acquires(evs: Seq<EventModel>) -> int {
    count_matching(evs, |ev: EventModel| is_acquire_event(ev))
}

/// Engine-owned buffers released over a run.
pub open spec fn releases(evs: Seq<EventModel>) -> int {
    count_matching(evs, |ev: EventModel| is_release_event(ev))
}

/// 1 while a phase holds a live session, else 0.
pub open spec fn session_live(phase: PhaseModel) -> int {
    match phase {
        PhaseModel::Starting => 0,
        PhaseModel::Done { .. } => 0,
        _ => 1,
    }
}

/// 1 while a phase holds an engine-owned buffer, else 0.
pub open spec fn buffer_held(phase: PhaseModel) -> int {
    match phase {
        PhaseModel::Releasing { .. } => 1,
        _ => 0,
    }
}

/// What holds of every settled result the pipeline carries: a successful
/// image meets the size contract, and the no-thumbnail code is never the
/// reported failure (it is consumed by the fallback instead).
pub open spec fn pending_inv(o: Result<ImageModel, DecodeError>) -> bool {
    &&& (o matches Ok(img) ==> img.well_formed())
    &&& !(o matches Err(e) && e == DecodeError::ThumbnailExtractFailure {
        code: NO_THUMBNAIL_CODE,
    })
}

/// The phase invariant: every settled result in flight satisfies
/// [`pending_inv`].
pub open spec fn phase_inv(phase: PhaseModel) -> bool {
    match phase {
        PhaseModel::Releasing { pending } => pending_inv(pending),
        PhaseModel::Closing { pending } => pending_inv(pending),
        PhaseModel::Done { outcome } => pending_inv(outcome),
        _ => true,
    }
}

/// One expected step preserves the phase invariant, never re-enters
/// `Starting`, and moves the resource indicators exactly as the event
/// says: a successful init is the one thing that makes the session live,
/// a close the one thing that ends it, and likewise for buffers.
pub proof fn lemma_step_accounting(phase: PhaseModel, ev: EventModel)
    requires
        expects(phase, ev),
        phase_inv(phase),
    ensures
        phase_inv(model_step(phase, ev).0),
        !(model_step(phase, ev).0 is Starting),
        session_live(model_step(phase, ev).0) == session_live(phase) + (if is_open_event(ev) {
            1int
        } else {
            0int
        }) - (if is_close_event(ev) {
            1int
        } else {
            0int
        }),
        buffer_held(model_step(phase, ev).0) == buffer_held(phase) + (if is_acquire_event(ev) {
            1int
        } else {
            0int
        }) - (if is_release_event(ev) {
            1int
        } else {
            0int
        }),
{
    match (phase, ev) {
        (PhaseModel::Thumbing, EventModel::ThumbDone { reply }) => {
            if let ReplyModel::Buffer { width, height, payload, .. } = reply {
                crate::decoder::lemma_validate_model_exact(width, height, payload);
            }
        },
        (PhaseModel::FullExtracting, EventModel::FullDone { reply }) => {
            if let ReplyModel::Buffer { width, height, payload, .. } = reply {
                crate::decoder::lemma_validate_model_exact(width, height, payload);
            }
        },
        _ => {},
    }
}

/// Over any expected run: the invariant is carried along, `Starting` is
/// never re-entered, and the books balance — what was opened and not yet
/// closed is exactly the live session, what was acquired and not yet
/// released exactly the held buffer, and a session is opened at most once.
pub proof fn lemma_run_accounting(phase: PhaseModel, evs: Seq<EventModel>)
    requires
        expected_run(phase, evs),
        phase_inv(phase),
    ensures
        phase_inv(run(phase, evs)),
        opens(evs) + session_live(phase) == closes(evs) + session_live(run(phase, evs)),
        acquires(evs) + buffer_held(phase) == releases(evs) + buffer_held(run(phase, evs)),
        !(phase is Starting) ==> opens(evs) == 0 && !(run(phase, evs) is Starting),
        phase is Starting ==> opens(evs) <= 1,
    decreases evs.len(),
{
    if evs.len() > 0 {
        let ev = evs[0];
        let next = model_step(phase, ev).0;
        lemma_step_accounting(phase, ev);
        lemma_run_accounting(next, evs.drop_first());
        assert(opens(evs) == (if is_open_event(ev) {
            1int
        } else {
            0int
        }) + opens(evs.drop_first()));
        assert(closes(evs) == (if is_close_event(ev) {
            1int
        } else {
            0int
        }) + closes(evs.drop_first()));
        assert(acquires(evs) == (if is_acquire_event(ev) {
            1int
        } else {
            0int
        }) + acquires(evs.drop_first()));
        assert(releases(evs) == (if is_release_event(ev) {
            1int
        } else {
            0int
        }) + releases(evs.drop_first()));
        if phase is Starting {
            assert(!is_open_event(ev) || session_live(next) == 1);
        }
    }
}

/// Over any expected run, at most one engine-owned buffer is ever
/// acquired, and none once the extraction's result is settled.
pub proof fn lemma_acquires_bounded(phase: PhaseModel, evs: Seq<EventModel>)
    requires
        expected_run(phase, evs),
    ensures
        acquires(evs) <= 1,
        (phase is Releasing || phase is Closing || phase is Done) ==> acquires(evs) == 0,
    decreases evs.len(),
{
    if evs.len() > 0 {
        let ev = evs[0];
        let next = model_step(phase, ev).0;
        lemma_acquires_bounded(next, evs.drop_first());
        assert(acquires(evs) == (if is_acquire_event(ev) {
            1int
        } else {
            0int
        }) + acquires(evs.drop_first()));
        if is_acquire_event(ev) {
            assert(next is Releasing);
        }
    }
}

/// Law: resource accounting. Over every completed decode, sessions closed
/// equal sessions opened — at most one, and exactly one as soon as the
/// engine granted a session — and at most one engine-owned buffer was
/// acquired, released exactly as often as acquired.
pub proof fn lemma_resource_accounting(evs: Seq<EventModel>)
    requires
        expected_run(PhaseModel::Starting, evs),
        run(PhaseModel::Starting, evs) is Done,
    ensures
        closes(evs) == opens(evs),
        releases(evs) == acquires(evs),
        opens(evs) <= 1,
        acquires(evs) <= 1,
        evs.len() > 0 && evs[0] == (EventModel::SessionInit { ok: true }) ==> opens(evs) == 1,
{
    lemma_run_accounting(PhaseModel::Starting, evs);
    lemma_acquires_bounded(PhaseModel::Starting, evs);
    if evs.len() > 0 && evs[0] == (EventModel::SessionInit { ok: true }) {
        lemma_run_accounting(model_step(PhaseModel::Starting, evs[0]).0, evs.drop_first());
        assert(opens(evs) == 1 + opens(evs.drop_first()));
    }
}

/// Law: every successful decode returns an image whose buffer length is
/// exactly `width * height * 3`.
pub proof fn lemma_success_well_formed(evs: Seq<EventModel>)
    requires
        expected_run(PhaseModel::Starting, evs),
    ensures
        run(PhaseModel::Starting, evs) matches PhaseModel::Done { outcome: Ok(img) }
            ==> img.well_formed(),
{
    lemma_run_accounting(PhaseModel::Starting, evs);
    if let PhaseModel::Done { outcome } = run(PhaseModel::Starting, evs) {
        assert(pending_inv(outcome));
    }
}

/// Law: the thumbnail-absence code is consumed by the fallback, never
/// surfaced as a decode's failure.
pub proof fn lemma_no_thumbnail_never_reported(evs: Seq<EventModel>)
    requires
        expected_run(PhaseModel::Starting, evs),
    ensures
        run(PhaseModel::Starting, evs) matches PhaseModel::Done { outcome } ==> outcome != Err::<
            ImageModel,
            DecodeError,
        >(DecodeError::ThumbnailExtractFailure { code: NO_THUMBNAIL_CODE }),
{
    lemma_run_accounting(PhaseModel::Starting, evs);
}

/// Law: a missing thumbnail with the no-thumbnail code falls back to
/// full-image extraction, surfacing no error.
pub proof fn lemma_no_thumbnail_falls_back()
    ensures
        model_step(
            PhaseModel::Thumbing,
            EventModel::ThumbDone { reply: ReplyModel::Missing { code: NO_THUMBNAIL_CODE } },
        ) == (PhaseModel::FullExtracting, EngineAction::MakeFullImage),
{
}

/// Law: any other thumbnail-extraction error is fatal at once — the next
/// action closes the session; full-image extraction is never attempted.
pub proof fn lemma_other_thumbnail_error_is_fatal(code: i32)
    requires
        code != NO_THUMBNAIL_CODE,
    ensures
        model_step(
            PhaseModel::Thumbing,
            EventModel::ThumbDone { reply: ReplyModel::Missing { code } },
        ) == (
            PhaseModel::Closing {
                pending: Err::<ImageModel, DecodeError>(
                    DecodeError::ThumbnailExtractFailure { code },
                ),
            },
            EngineAction::CloseSession,
        ),
{
}

/// Law: once a result is settled and only releasing and closing remain,
/// the decode's outcome is exactly that result.
pub proof fn lemma_pending_outcome(
    pending: Result<ImageModel, DecodeError>,
    phase: PhaseModel,
    evs: Seq<EventModel>,
)
    requires
        expected_run(phase, evs),
        phase == (PhaseModel::Releasing { pending }) || phase == (PhaseModel::Closing { pending })
            || phase == (PhaseModel::Done { outcome: pending }),
    ensures
        run(phase, evs) matches PhaseModel::Done { outcome } ==> outcome == pending,
    decreases evs.len(),
{
    if evs.len() > 0 {
        lemma_pending_outcome(pending, model_step(phase, evs[0]).0, evs.drop_first());
    }
}

/// Law: a nonzero status while opening the file decides the decode — it
/// ends, whatever follows, with exactly that `OpenFailure`.
pub proof fn lemma_open_failure_reported(code: i32, evs: Seq<EventModel>)
    requires
        code != 0,
        evs.len() > 0,
        evs[0] == (EventModel::OpenDone { code }),
        expected_run(PhaseModel::Opening, evs),
    ensures
        run(PhaseModel::Opening, evs) matches PhaseModel::Done { outcome } ==> outcome == Err::<
            ImageModel,
            DecodeError,
        >(DecodeError::OpenFailure { code }),
{
    lemma_pending_outcome(
        Err(DecodeError::OpenFailure { code }),
        model_step(PhaseModel::Opening, evs[0]).0,
        evs.drop_first(),
    );
}

/// Law: a nonzero status while unpacking decides the decode likewise.
pub proof fn lemma_unpack_failure_reported(code: i32, evs: Seq<EventModel>)
    requires
        code != 0,
        evs.len() > 0,
        evs[0] == (EventModel::UnpackDone { code }),
        expected_run(PhaseModel::Unpacking, evs),
    ensures
        run(PhaseModel::Unpacking, evs) matches PhaseModel::Done { outcome } ==> outcome == Err::<
            ImageModel,
            DecodeError,
        >(DecodeError::UnpackFailure { code }),
{
    lemma_pending_outcome(
        Err(DecodeError::UnpackFailure { code }),
        model_step(PhaseModel::Unpacking, evs[0]).0,
        evs.drop_first(),
    );
}

/// Law: a nonzero status from the develop pipeline decides the decode
/// likewise.
pub proof fn lemma_process_failure_reported(code: i32, evs: Seq<EventModel>)
    requires
        code != 0,
        evs.len() > 0,
        evs[0] == (EventModel::ProcessDone { code }),
        expected_run(PhaseModel::Processing, evs),
    ensures
        run(PhaseModel::Processing, evs) matches PhaseModel::Done { outcome } ==> outcome == Err::<
            ImageModel,
            DecodeError,
        >(DecodeError::ProcessFailure { code }),
{
    lemma_pending_outcome(
        Err(DecodeError::ProcessFailure { code }),
        model_step(PhaseModel::Processing, evs[0]).0,
        evs.drop_first(),
    );
}

/// The transcript of a decode in which the engine succeeds at every stage
/// and returns a thumbnail buffer of the given geometry and bytes.
pub open spec fn thumbnail_success_transcript(width: u32, height: u32, data: Seq<u8>) -> Seq<
    EventModel,
> {
    seq![
        EventModel::SessionInit { ok: true },
        EventModel::OpenDone { code: 0 },
        EventModel::UnpackDone { code: 0 },
        EventModel::ProcessDone { code: 0 },
        EventModel::ThumbDone {
            reply: ReplyModel::Buffer { code: 0, width, height, payload: Some(data) },
        },
        EventModel::BufferReleased,
        EventModel::SessionClosed,
    ]
}

/// Law: success is owed. Whenever the engine grants a session, reports
/// status 0 for open, unpack and develop, and hands back a thumbnail
/// buffer that meets the size contract, the decode accepts every answer
/// and ends with exactly that image — the engine's bytes, unchanged.
pub proof fn lemma_success_owed(width: u32, height: u32, data: Seq<u8>)
    requires
        crate::decoder::rgb_byte_len(width, height) <= usize::MAX,
        data.len() == crate::decoder::rgb_byte_len(width, height),
    ensures
        expected_run(PhaseModel::Starting, thumbnail_success_transcript(width, height, data)),
        run(PhaseModel::Starting, thumbnail_success_transcript(width, height, data))
            == (PhaseModel::Done {
            outcome: Ok::<ImageModel, DecodeError>(ImageModel { data, width, height }),
        }),
{
    let evs = thumbnail_success_transcript(width, height, data);
    let thumb_ev = EventModel::ThumbDone {
        reply: ReplyModel::Buffer { code: 0, width, height, payload: Some(data) },
    };
    let e1 = evs.drop_first();
    let e2 = e1.drop_first();
    let e3 = e2.drop_first();
    let e4 = e3.drop_first();
    let e5 = e4.drop_first();
    let e6 = e5.drop_first();
    let e7 = e6.drop_first();
    assert(e1 =~= seq![
        EventModel::OpenDone { code: 0 },
        EventModel::UnpackDone { code: 0 },
        EventModel::ProcessDone { code: 0 },
        thumb_ev,
        EventModel::BufferReleased,
        EventModel::SessionClosed,
    ]);
    assert(e2 =~= seq![
        EventModel::UnpackDone { code: 0 },
        EventModel::ProcessDone { code: 0 },
        thumb_ev,
        EventModel::BufferReleased,
        EventModel::SessionClosed,
    ]);
    assert(e3 =~= seq![
        EventModel::ProcessDone { code: 0 },
        thumb_ev,
        EventModel::BufferReleased,
        EventModel::SessionClosed,
    ]);
    assert(e4 =~= seq![thumb_ev, EventModel::BufferReleased, EventModel::SessionClosed]);
    assert(e5 =~= seq![EventModel::BufferReleased, EventModel::SessionClosed]);
    assert(e6 =~= seq![EventModel::SessionClosed]);
    assert(e7 =~= Seq::<EventModel>::empty());
    crate::decoder::lemma_validate_model_exact(width, height, Some(data));
    assert(validate_model(width, height, Some(data)) == Ok::<ImageModel, DecodeError>(
        ImageModel { data, width, height },
    ));
    let img_ok = Ok::<ImageModel, DecodeError>(ImageModel { data, width, height });
    let p0 = PhaseModel::Starting;
    let p1 = model_step(p0, evs[0]).0;
    let p2 = model_step(p1, e1[0]).0;
    let p3 = model_step(p2, e2[0]).0;
    let p4 = model_step(p3, e3[0]).0;
    let p5 = model_step(p4, e4[0]).0;
    let p6 = model_step(p5, e5[0]).0;
    let p7 = model_step(p6, e6[0]).0;
    assert(p1 == PhaseModel::Opening);
    assert(p2 == PhaseModel::Unpacking);
    assert(p3 == PhaseModel::Processing);
    assert(p4 == PhaseModel::Thumbing);
    assert(p5 == (PhaseModel::Releasing { pending: img_ok }));
    assert(p6 == (PhaseModel::Closing { pending: img_ok }));
    assert(p7 == (PhaseModel::Done { outcome: img_ok }));
    assert(run(p7, e7) == p7);
    assert(run(p6, e6) == run(p7, e7));
    assert(run(p5, e5) == run(p6, e6));
    assert(run(p4, e4) == run(p5, e5));
    assert(run(p3, e3) == run(p4, e4));
    assert(run(p2, e2) == run(p3, e3));
    assert(run(p1, e1) == run(p2, e2));
    assert(run(p0, evs) == run(p1, e1));
    assert(expected_run(p7, e7));
    assert(expected_run(p6, e6));
    assert(expected_run(p5, e5));
    assert(expected_run(p4, e4));
    assert(expected_run(p3, e3));
    assert(expected_run(p2, e2));
    assert(expected_run(p1, e1));
    assert(expected_run(p0, evs));
}

/// The transcript of a decode in which the engine succeeds at every
/// stage, reports no embedded thumbnail, and returns a full-image buffer
/// of the given geometry and bytes.
pub open spec fn fallback_success_transcript(width: u32, height: u32, data: Seq<u8>) -> Seq<
    EventModel,
> {
    seq![
        EventModel::SessionInit { ok: true },
        EventModel::OpenDone { code: 0 },
        EventModel::UnpackDone { code: 0 },
        EventModel::ProcessDone { code: 0 },
        EventModel::ThumbDone { reply: ReplyModel::Missing { code: NO_THUMBNAIL_CODE } },
        EventModel::FullDone {
            reply: ReplyModel::Buffer { code: 0, width, height, payload: Some(data) },
        },
        EventModel::BufferReleased,
        EventModel::SessionClosed,
    ]
}

/// Law: success is owed on the fallback path too. When no thumbnail is
/// embedded but the engine's full-image extraction hands back a buffer
/// that meets the size contract, the decode accepts every answer and ends
/// with exactly that image; the thumbnail's absence is not surfaced.
pub proof fn lemma_fallback_success_owed(width: u32, height: u32, data: Seq<u8>)
    requires
        crate::decoder::rgb_byte_len(width, height) <= usize::MAX,
        data.len() == crate::decoder::rgb_byte_len(width, height),
    ensures
        expected_run(PhaseModel::Starting, fallback_success_transcript(width, height, data)),
        run(PhaseModel::Starting, fallback_success_transcript(width, height, data))
            == (PhaseModel::Done {
            outcome: Ok::<ImageModel, DecodeError>(ImageModel { data, width, height }),
        }),
{
    let evs = fallback_success_transcript(width, height, data);
    let thumb_ev = EventModel::ThumbDone { reply: ReplyModel::Missing { code: NO_THUMBNAIL_CODE } };
    let full_ev = EventModel::FullDone {
        reply: ReplyModel::Buffer { code: 0, width, height, payload: Some(data) },
    };
    let e1 = evs.drop_first();
    let e2 = e1.drop_first();
    let e3 = e2.drop_first();
    let e4 = e3.drop_first();
    let e5 = e4.drop_first();
    let e6 = e5.drop_first();
    let e7 = e6.drop_first();
    let e8 = e7.drop_first();
    assert(e1 =~= seq![
        EventModel::OpenDone { code: 0 },
        EventModel::UnpackDone { code: 0 },
        EventModel::ProcessDone { code: 0 },
        thumb_ev,
        full_ev,
        EventModel::BufferReleased,
        EventModel::SessionClosed,
    ]);
    assert(e2 =~= seq![
        EventModel::UnpackDone { code: 0 },
        EventModel::ProcessDone { code: 0 },
        thumb_ev,
        full_ev,
        EventModel::BufferReleased,
        EventModel::SessionClosed,
    ]);
    assert(e3 =~= seq![
        EventModel::ProcessDone { code: 0 },
        thumb_ev,
        full_ev,
        EventModel::BufferReleased,
        EventModel::SessionClosed,
    ]);
    assert(e4 =~= seq![thumb_ev, full_ev, EventModel::BufferReleased, EventModel::SessionClosed]);
    assert(e5 =~= seq![full_ev, EventModel::BufferReleased, EventModel::SessionClosed]);
    assert(e6 =~= seq![EventModel::BufferReleased, EventModel::SessionClosed]);
    assert(e7 =~= seq![EventModel::SessionClosed]);
    assert(e8 =~= Seq::<EventModel>::empty());
    crate::decoder::lemma_validate_model_exact(width, height, Some(data));
    assert(validate_model(width, height, Some(data)) == Ok::<ImageModel, DecodeError>(
        ImageModel { data, width, height },
    ));
    let img_ok = Ok::<ImageModel, DecodeError>(ImageModel { data, width, height });
    let p0 = PhaseModel::Starting;
    let p1 = model_step(p0, evs[0]).0;
    let p2 = model_step(p1, e1[0]).0;
    let p3 = model_step(p2, e2[0]).0;
    let p4 = model_step(p3, e3[0]).0;
    let p5 = model_step(p4, e4[0]).0;
    let p6 = model_step(p5, e5[0]).0;
    let p7 = model_step(p6, e6[0]).0;
    let p8 = model_step(p7, e7[0]).0;
    assert(p1 == PhaseModel::Opening);
    assert(p2 == PhaseModel::Unpacking);
    assert(p3 == PhaseModel::Processing);
    assert(p4 == PhaseModel::Thumbing);
    assert(p5 == PhaseModel::FullExtracting);
    assert(p6 == (PhaseModel::Releasing { pending: img_ok }));
    assert(p7 == (PhaseModel::Closing { pending: img_ok }));
    assert(p8 == (PhaseModel::Done { outcome: img_ok }));
    assert(run(p8, e8) == p8);
    assert(run(p7, e7) == run(p8, e8));
    assert(run(p6, e6) == run(p7, e7));
    assert(run(p5, e5) == run(p6, e6));
    assert(run(p4, e4) == run(p5, e5));
    assert(run(p3, e3) == run(p4, e4));
    assert(run(p2, e2) == run(p3, e3));
    assert(run(p1, e1) == run(p2, e2));
    assert(run(p0, evs) == run(p1, e1));
    assert(expected_run(p8, e8));
    assert(expected_run(p7, e7));
    assert(expected_run(p6, e6));
    assert(expected_run(p5, e5));
    assert(expected_run(p4, e4));
    assert(expected_run(p3, e3));
    assert(expected_run(p2, e2));
    assert(expected_run(p1, e1));
    assert(expected_run(p0, evs));
}

/// Law: a buffer whose byte length differs from `width * height * 3`
/// fails the decode with a `ValidationFailure`; no partial or
/// reinterpreted image is returned, and the buffer is still released.
pub proof fn lemma_size_mismatch_rejected(
    code: i32,
    width: u32,
    height: u32,
    data: Seq<u8>,
    evs: Seq<EventModel>,
)
    requires
        data.len() != crate::decoder::rgb_byte_len(width, height),
        evs.len() > 0,
        evs[0] == (EventModel::ThumbDone {
            reply: ReplyModel::Buffer { code, width, height, payload: Some(data) },
        }),
        expected_run(PhaseModel::Thumbing, evs),
    ensures
        model_step(PhaseModel::Thumbing, evs[0]).1 == EngineAction::ReleaseBuffer,
        run(PhaseModel::Thumbing, evs) matches PhaseModel::Done { outcome } ==> outcome matches Err(
            e,
        ) && e matches DecodeError::ValidationFailure { .. },
{
    crate::decoder::lemma_validate_model_exact(width, height, Some(data));
    let pending = validate_model(width, height, Some(data));
    lemma_pending_outcome(pending, model_step(PhaseModel::Thumbing, evs[0]).0, evs.drop_first());
}

} // verus!
