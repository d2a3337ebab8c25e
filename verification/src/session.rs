use crate::codec::{decode_frame, decode_spec, CodecError};
use crate::router::{CommandHandler, CommandRouter, DispatchError};
use vstd::prelude::*;

verus! {

/// Seconds between two keep-alive frames on an open session.
pub const HEARTBEAT_INTERVAL_SECS: u64 = 30;

/// One observation made by the inbound side of a session: a frame arrived,
/// or the read stream is over.
pub enum InboundEvent {
    /// A text frame, carrying its text.
    Text(String),
    /// A frame of another kind (binary, control): silently ignored.
    NonText,
    /// The read stream ended cleanly.
    StreamEnded,
    /// The read stream reported an error.
    StreamFailed,
}

/// What one inbound event led to.
#[derive(Debug, PartialEq, Eq)]
pub enum FrameDisposition {
    /// The frame decoded and carried a payload: its handler was invoked,
    /// with this outcome.  An error here is logged and nothing more.
    Dispatched(Result<(), DispatchError>),
    /// The frame decoded but carried no payload: accepted, no handler run.
    AcceptedNoPayload,
    /// The frame did not decode: logged and skipped, the session continues.
    RejectedMalformed,
    /// The frame was not a text frame: ignored.
    IgnoredNonText,
    /// The stream is over: the liveness flag is now clear.
    SessionEnded,
}

/// Whether an event is the end of the read stream.
pub open spec fn event_ends_stream(e: InboundEvent) -> bool {
    e is StreamEnded || e is StreamFailed
}

/// The liveness flag after the dispatcher sees `e`: cleared by the end of
/// the stream, untouched by every frame.
pub open spec fn live_after(live: bool, e: InboundEvent) -> bool {
    live && !event_ends_stream(e)
}

/// What the dispatcher does with the text of one frame, short of the
/// handler's own outcome: reject it, accept it without dispatching, or
/// dispatch to the handler registered for its type.
pub open spec fn text_disposition_spec<H>(
    table: Map<Seq<char>, H>,
    text: Seq<char>,
) -> FrameDisposition {
    match decode_spec(text) {
        Err(CodecError::MalformedMessage) => FrameDisposition::RejectedMalformed,
        Ok(env) => match env.payload {
            None => FrameDisposition::AcceptedNoPayload,
            Some(_) => if table.contains_key(env.msg_type) {
                // The handler's own outcome is not a function of the frame;
                // only the dispatch itself is pinned here.
                FrameDisposition::Dispatched(Ok(()))
            } else {
                FrameDisposition::Dispatched(Err(DispatchError::UnknownCommand))
            },
        },
    }
}

/// Consume one inbound event for a session whose liveness flag is `live`.
///
/// A text frame is decoded; on success, a present payload is handed to the
/// handler of the decoded type, an absent payload is accepted without
/// dispatch.  No frame, however malformed and no matter what its handler
/// reports, ends the session: only the end or failure of the stream clears
/// the liveness flag.
pub fn dispatcher_step<H: CommandHandler>(
    router: &CommandRouter<H>,
    live: &mut bool,
    event: InboundEvent,
) -> (r: FrameDisposition)
    ensures
        *final(live) == live_after(*old(live), event),
        r is SessionEnded <==> event_ends_stream(event),
        event matches InboundEvent::NonText ==> r is IgnoredNonText,
        event matches InboundEvent::Text(t) ==> match text_disposition_spec(router@, t@) {
            FrameDisposition::RejectedMalformed => r is RejectedMalformed,
            FrameDisposition::AcceptedNoPayload => r is AcceptedNoPayload,
            FrameDisposition::Dispatched(Err(DispatchError::UnknownCommand)) => r
                == FrameDisposition::Dispatched(Err::<(), DispatchError>(
                DispatchError::UnknownCommand,
            )),
            _ => r matches FrameDisposition::Dispatched(hr) && !(hr matches Err(
                DispatchError::UnknownCommand,
            )),
        },
{
    match event {
        InboundEvent::Text(text) => {
            match decode_frame(text.as_str()) {
                Err(_) => FrameDisposition::RejectedMalformed,
                Ok(env) => match env.payload {
                    None => FrameDisposition::AcceptedNoPayload,
                    Some(payload) => {
                        let hr = router.handle(env.msg_type.as_str(), payload.as_str());
                        FrameDisposition::Dispatched(hr)
                    },
                },
            }
        },
        InboundEvent::NonText => FrameDisposition::IgnoredNonText,
        InboundEvent::StreamEnded => {
            *live = false;
            FrameDisposition::SessionEnded
        },
        InboundEvent::StreamFailed => {
            *live = false;
            FrameDisposition::SessionEnded
        },
    }
}

/// A failing handler is isolated: no frame, whatever came of it, touches the
/// liveness flag, so the session and every later dispatch go on unaffected.
pub proof fn lemma_frame_never_ends_session(live: bool, e: InboundEvent)
    requires
        !event_ends_stream(e),
    ensures
        live_after(live, e) == live,
{
}

/// The liveness flag is monotonic within a session: once false, no event
/// makes it true again.
pub proof fn lemma_liveness_monotonic(live: bool, e: InboundEvent)
    requires
        !live,
    ensures
        !live_after(live, e),
{
}

/// What the keep-alive task decides once per interval.
#[derive(Clone, Copy, Debug, PartialEq, Eq, Structural)]
pub enum HeartbeatAction {
    /// Send one keep-alive frame.
    Emit,
    /// The session is over: stop, without sending.
    Stop,
}

/// The keep-alive decision, once per interval: emit while the session is
/// live, stop as soon as it is not.  So heartbeats cease within one interval
/// of the liveness flag going false, whichever task cleared it.
pub fn heartbeat_on_interval(live: bool) -> (r: HeartbeatAction)
    ensures
        r == (if live {
            HeartbeatAction::Emit
        } else {
            HeartbeatAction::Stop
        }),
{
    if live {
        HeartbeatAction::Emit
    } else {
        HeartbeatAction::Stop
    }
}

/// Record the outcome of one keep-alive send: a failed send clears the
/// liveness flag, escalating the failure to the supervisor; a successful
/// send leaves the flag as it was.
pub fn heartbeat_on_send_result(live: &mut bool, send_ok: bool)
    ensures
        *final(live) == (*old(live) && send_ok),
{
    if !send_ok {
        *live = false;
    }
}

} // verus!
