//! Transport selection for the connection to the remote execution node.
//!
//! An endpoint that begins with the literal prefix `http` gets a synchronous
//! request/response transport, constructed immediately and without a
//! handshake; any other endpoint takes the streaming path, whose initial
//! handshake is a suspension point and therefore lives outside this library.

use vstd::prelude::*;

use crate::errors::TransportError;

verus! {

/// The two transport kinds a resolved endpoint can select.
#[derive(Clone, Copy, PartialEq, Eq, Structural, Debug)]
pub enum TransportKind {
    /// Request/response; construction does not block on a handshake.
    Synchronous,
    /// Persistent streaming; construction performs an initial handshake and
    /// the connection reconnects indefinitely afterwards.
    Streaming,
}

/// Does the endpoint begin with the literal prefix `http`?
pub open spec fn is_http_prefixed(s: Seq<char>) -> bool {
    s.len() >= 4 && s[0] == 'h' && s[1] == 't' && s[2] == 't' && s[3] == 'p'
}

/// The transport kind an endpoint selects.
pub open spec fn spec_transport_kind(s: Seq<char>) -> TransportKind {
    if is_http_prefixed(s) {
        TransportKind::Synchronous
    } else {
        TransportKind::Streaming
    }
}

/// Selects the transport kind for an endpoint: synchronous exactly when the
/// endpoint begins with `http`, streaming otherwise.
pub fn select_transport_kind(endpoint: &str) -> (k: TransportKind)
    ensures
        k == spec_transport_kind(endpoint@),
{
    let len = endpoint.unicode_len();
    if len >= 4 && endpoint.get_char(0) == 'h' && endpoint.get_char(1) == 't'
        && endpoint.get_char(2) == 't' && endpoint.get_char(3) == 'p' {
        TransportKind::Synchronous
    } else {
        TransportKind::Streaming
    }
}

#[verifier::external_type_specification]
#[verifier::external_body]
#[verifier::reject_recursive_types(P)]
pub struct ExProvider<P>(ethers::providers::Provider<P>);

#[verifier::external_type_specification]
#[verifier::external_body]
pub struct ExHttp(ethers::providers::Http);

/// Fixes the command's error for the streaming path: a successful handshake
/// passes the handle through unchanged; a failed handshake is the command's
/// handshake failure, and no handle exists.
pub fn streaming_handshake_outcome<T, E>(outcome: Result<T, E>) -> (r: Result<T, TransportError>)
    ensures
        outcome matches Ok(h) ==> (r matches Ok(g) && g == h),
        outcome is Err ==> r == Result::<T, TransportError>::Err(TransportError::HandshakeFailed),
{
    match outcome {
        Ok(h) => Ok(h),
        Err(_) => Err(TransportError::HandshakeFailed),
    }
}

/// Whether the synchronous transport accepts an endpoint string; acceptance
/// is URL well-formedness, a function of the string alone.
pub uninterp spec fn http_endpoint_accepted(s: Seq<char>) -> bool;

/// Creates the synchronous request/response transport handle.
///
/// Relies on ethers' `Provider::<Http>::try_from`, whose body is
/// `Url::parse` on the string followed by plain construction: it performs no
/// network I/O, so success is a function of the endpoint string alone.
#[verifier::external_body]
pub fn create_http_provider(addr: &str) -> (r: Result<
    ethers::providers::Provider<ethers::providers::Http>,
    TransportError,
>)
    ensures
        r is Ok <==> http_endpoint_accepted(addr@),
{
    match ethers::providers::Provider::<ethers::providers::Http>::try_from(addr) {
        Ok(p) => Ok(p),
        Err(_) => Err(TransportError::InvalidEndpoint),
    }
}

} // verus!
