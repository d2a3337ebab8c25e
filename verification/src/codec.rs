use vstd::prelude::*;

verus! {

/// A frame that does not carry the envelope structure: required fields are
/// absent or of the wrong shape.  The one decoding error of this library.
#[derive(Clone, Copy, Debug, PartialEq, Eq, Structural)]
pub enum CodecError {
    MalformedMessage,
}

/// One decoded inbound message: the command type, an optional correlation id,
/// and an optional payload.  The payload is opaque to the routing core and is
/// carried as its canonical JSON text.
#[derive(Clone, Debug, PartialEq, Eq)]
pub struct Envelope {
    pub msg_type: String,
    pub task_id: Option<i64>,
    pub payload: Option<String>,
}

/// The mathematical value of an [`Envelope`].
pub struct EnvelopeView {
    pub msg_type: Seq<char>,
    pub task_id: Option<i64>,
    pub payload: Option<Seq<char>>,
}

/// The view of an optional piece of text.
pub open spec fn opt_text_view(o: Option<String>) -> Option<Seq<char>> {
    match o {
        Some(s) => Some(s@),
        None => None,
    }
}

impl View for Envelope {
    type V = EnvelopeView;

    open spec fn view(&self) -> EnvelopeView {
        EnvelopeView {
            msg_type: self.msg_type@,
            task_id: self.task_id,
            payload: opt_text_view(self.payload),
        }
    }
}

/// The envelope fields that a frame text carries, if it carries any: the
/// command type, the correlation id if one is present, and the payload as
/// canonical JSON text if one is present.  A frame carries fields exactly when
/// it is a JSON object whose `"type"` member is a string and whose `"taskId"`
/// member, when present and not null, is an integer; other members besides
/// `"data"` are ignored.  This is the behaviour of `serde_json`, which this
/// library does not restate; it is a function of the frame text alone.
pub uninterp spec fn envelope_fields(s: Seq<char>) -> Option<EnvelopeView>;

/// What decoding a frame text yields: its envelope, or `MalformedMessage`
/// where it carries none.
pub open spec fn decode_spec(s: Seq<char>) -> Result<EnvelopeView, CodecError> {
    match envelope_fields(s) {
        Some(v) => Ok(v),
        None => Err(CodecError::MalformedMessage),
    }
}

/// Relies on `serde_json`: `from_str::<Value>` to parse the frame,
/// `Value::get`, `Value::as_str`, `Value::as_i64` and `Value::is_null` to read
/// the `"type"`, `"taskId"` and `"data"` members, and `to_string` to give the
/// payload back as canonical text.  All of these depend on the frame text
/// alone, so the result is stated as `envelope_fields` of that text.
#[verifier::external_body]
fn parse_envelope_fields(text: &str) -> (r: Option<(String, Option<i64>, Option<String>)>)
    ensures
        r is Some <==> envelope_fields(text@) is Some,
        r matches Some(f) ==> envelope_fields(text@) == Some(
            EnvelopeView { msg_type: f.0@, task_id: f.1, payload: opt_text_view(f.2) },
        ),
{
    let v: serde_json::Value = serde_json::from_str(text).ok()?;
    let ty: String = v.get("type")?.as_str()?.to_owned();
    let tid: Option<i64> = match v.get("taskId") {
        None => None,
        Some(t) if t.is_null() => None,
        Some(t) => Some(t.as_i64()?),
    };
    let pl: Option<String> = match v.get("data") {
        None => None,
        Some(d) if d.is_null() => None,
        Some(d) => Some(serde_json::to_string(d).ok()?),
    };
    Some((ty, tid, pl))
}

/// The view of a decoding result.
pub open spec fn decode_result_view(r: Result<Envelope, CodecError>) -> Result<
    EnvelopeView,
    CodecError,
> {
    match r {
        Ok(e) => Ok(e@),
        Err(c) => Err(c),
    }
}

/// Decode one text frame into an envelope.  Total: every text either yields
/// an envelope or `MalformedMessage`, and which one is a function of the text
/// alone.
pub fn decode_frame(text: &str) -> (r: Result<Envelope, CodecError>)
    ensures
        decode_result_view(r) == decode_spec(text@),
        r is Err ==> r == Err::<Envelope, CodecError>(CodecError::MalformedMessage),
{
    match parse_envelope_fields(text) {
        Some((ty, tid, pl)) => Ok(Envelope { msg_type: ty, task_id: tid, payload: pl }),
        None => Err(CodecError::MalformedMessage),
    }
}

/// Decoding is a function of the frame text alone: decoding the same frame
/// twice yields identical results, an envelope as well as an error.
pub proof fn lemma_decode_deterministic(s1: Seq<char>, s2: Seq<char>)
    requires
        s1 == s2,
    ensures
        decode_spec(s1) == decode_spec(s2),
{
}

/// The one outbound frame of this core, the keep-alive.
pub open spec fn heartbeat_frame_spec() -> Seq<char> {
    "{\"type\":\"heartbeat\"}"@
}

/// Encode the keep-alive frame: always exactly `{"type":"heartbeat"}`, with
/// no payload and no correlation id.
pub fn encode_heartbeat() -> (r: String)
    ensures
        r@ == heartbeat_frame_spec(),
{
    "{\"type\":\"heartbeat\"}".to_owned()
}

} // verus!
