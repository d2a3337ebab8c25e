use tokio_tungstenite::tungstenite::Error as WsError;
use vstd::prelude::*;

verus! {

/// Why a connection attempt failed, as the session layer reports it to the
/// supervisor.
#[derive(Clone, Copy, Debug, PartialEq, Eq, Structural)]
pub enum ConnectError {
    /// Network or handshake failure: DNS, a refused connection, a protocol
    /// violation.  Retryable, with backoff.
    ConnectionError,
    /// A malformed server address or a comparable fault in the setup.
    /// Fatal: the supervisor stops for good.
    ConfigError,
}

/// The kinds of transport error the connection library distinguishes, one
/// tag per variant of `tokio_tungstenite::tungstenite::Error`.
#[derive(Clone, Copy, Debug, PartialEq, Eq, Structural)]
pub enum TransportErrorKind {
    ConnectionClosed,
    AlreadyClosed,
    Io,
    Tls,
    Capacity,
    Protocol,
    WriteBufferFull,
    Utf8,
    AttackAttempt,
    Url,
    Http,
    HttpFormat,
}

#[verifier::external_type_specification]
#[verifier::external_body]
pub struct ExWsError(WsError);

/// Relies on `tokio_tungstenite::tungstenite::Error` only to tell its
/// variants apart: each variant maps to the library's tag of the same name,
/// and nothing else of the error is read.
#[verifier::external_body]
fn ws_error_kind(e: &WsError) -> (r: TransportErrorKind) {
    match e {
        WsError::ConnectionClosed => TransportErrorKind::ConnectionClosed,
        WsError::AlreadyClosed => TransportErrorKind::AlreadyClosed,
        WsError::Io(_) => TransportErrorKind::Io,
        WsError::Tls(_) => TransportErrorKind::Tls,
        WsError::Capacity(_) => TransportErrorKind::Capacity,
        WsError::Protocol(_) => TransportErrorKind::Protocol,
        WsError::WriteBufferFull(_) => TransportErrorKind::WriteBufferFull,
        WsError::Utf8(_) => TransportErrorKind::Utf8,
        WsError::AttackAttempt => TransportErrorKind::AttackAttempt,
        WsError::Url(_) => TransportErrorKind::Url,
        WsError::Http(_) => TransportErrorKind::Http,
        WsError::HttpFormat(_) => TransportErrorKind::HttpFormat,
    }
}

/// Which transport failures are worth retrying: an HTTP rejection, an I/O
/// fault or a protocol violation during the handshake.  Everything else is
/// treated as a fault in the setup and is fatal.
pub open spec fn retryable_spec(k: TransportErrorKind) -> bool {
    k is Http || k is Io || k is Protocol
}

/// Classify one kind of handshake failure for the supervisor: retryable
/// kinds become `ConnectionError`, every other kind `ConfigError`.
pub fn classify_error_kind(k: TransportErrorKind) -> (r: ConnectError)
    ensures
        r == (if retryable_spec(k) {
            ConnectError::ConnectionError
        } else {
            ConnectError::ConfigError
        }),
{
    match k {
        TransportErrorKind::Http => ConnectError::ConnectionError,
        TransportErrorKind::Io => ConnectError::ConnectionError,
        TransportErrorKind::Protocol => ConnectError::ConnectionError,
        _ => ConnectError::ConfigError,
    }
}

/// Classify a handshake error for the supervisor.  The classification of
/// each kind of error is fixed by `classify_error_kind`; this glue only
/// reads which kind the error is.
pub fn classify_ws_error(e: &WsError) -> (r: ConnectError) {
    classify_error_kind(ws_error_kind(e))
}

/// Whether a server address text parses as a URL; a function of the text
/// alone.
pub uninterp spec fn server_url_ok(s: Seq<char>) -> bool;

/// Relies on `url::Url::parse`: whether an address parses is a function of
/// the address text alone, named `server_url_ok`.
#[verifier::external_body]
fn url_parses(s: &str) -> (r: bool)
    ensures
        r == server_url_ok(s@),
{
    url::Url::parse(s).is_ok()
}

/// Validate the configured server address before any attempt is made.  A
/// malformed address is the one fatal, non-retryable failure of this core:
/// it must stop the supervisor, not be retried.
pub fn validate_server_url(s: &str) -> (r: Result<(), ConnectError>)
    ensures
        r is Ok <==> server_url_ok(s@),
        r is Err ==> r == Err::<(), ConnectError>(ConnectError::ConfigError),
{
    if url_parses(s) {
        Ok(())
    } else {
        Err(ConnectError::ConfigError)
    }
}

} // verus!
