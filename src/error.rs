use vstd::prelude::*;

verus! {

/// Why the server could not be set up.
pub enum ServerError {
    /// The self-signed certificate could not be generated.
    Certificate(String),
    /// The PEM text of the certificate or of the key could not be read.
    Pem(String),
    /// The key PEM text holds no private key.
    MissingKey,
    /// Any other failure, with its message (a TLS configuration that the
    /// TLS library refused, for one).
    Other(String),
}

/// Turns a message into the general error.
pub fn error(err: String) -> (r: ServerError)
    ensures
        r == ServerError::Other(err),
{
    ServerError::Other(err)
}

} // verus!
