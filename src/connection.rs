use vstd::prelude::*;

verus! {

/// Why no certificate could be obtained from the host.
#[derive(Debug, Clone, Copy, PartialEq, Eq, Structural)]
pub enum ConnectionError {
    /// The host could not be reached: name resolution or TCP connect failed.
    Transport,
    /// The TLS handshake failed.
    Handshake,
    /// The handshake succeeded but the server presented no certificate.
    NoCertificate,
}

/// The address to connect to: the host followed by the fixed TLS port, ":443".
pub fn target_address(host: &str) -> (r: String)
    ensures
        r@ == host@ + seq![':', '4', '4', '3'],
{
    let r = String::from_str(host).concat(":443");
    proof {
        reveal_strlit(":443");
    }
    assert(r@ =~= host@ + seq![':', '4', '4', '3']);
    r
}

/// The outcome of one fetch, from what each stage gave: whether the TCP
/// connection was made, whether the TLS handshake completed, and the peer's
/// certificate, if it presented one. The earliest failing stage decides the
/// error; the certificate is handed on only when every stage succeeded.
pub fn fetch_outcome<C>(connected: bool, handshake_done: bool, peer: Option<C>) -> (r: Result<
    C,
    ConnectionError,
>)
    ensures
        !connected ==> r == Err::<C, ConnectionError>(ConnectionError::Transport),
        connected && !handshake_done ==> r == Err::<C, ConnectionError>(
            ConnectionError::Handshake,
        ),
        connected && handshake_done && peer is None ==> r == Err::<C, ConnectionError>(
            ConnectionError::NoCertificate,
        ),
        connected && handshake_done && peer is Some ==> r == Ok::<C, ConnectionError>(peer->0),
{
    if !connected {
        Err(ConnectionError::Transport)
    } else if !handshake_done {
        Err(ConnectionError::Handshake)
    } else {
        match peer {
            Some(c) => Ok(c),
            None => Err(ConnectionError::NoCertificate),
        }
    }
}

} // verus!
