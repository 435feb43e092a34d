use crate::error::ServerError;
use rustls::pki_types::PrivateKeyDer;
use vstd::prelude::*;

verus! {

/// The DER certificates, in order, that a PEM text holds, or `None` where
/// reading it fails.
pub uninterp spec fn pem_certificates_of(pem: Seq<char>) -> Option<Seq<Seq<u8>>>;

/// The first private key of a PEM text, as its encoding (see `kind_code`)
/// and its DER bytes: `None` where reading fails, `Some(None)` where the
/// text holds no key.
pub uninterp spec fn pem_private_key_of(pem: Seq<char>) -> Option<Option<(u8, Seq<u8>)>>;

/// The host identities the certificate is made for.
pub open spec fn host_names() -> Seq<Seq<char>> {
    seq!["localhost"@, "::1"@]
}

/// How a private key is encoded.
#[derive(PartialEq, Eq, Structural, Clone, Copy, Debug)]
pub enum KeyKind {
    /// An RSA key, PKCS#1.
    Pkcs1,
    /// An elliptic-curve key, SEC1.
    Sec1,
    /// Any key, PKCS#8.
    Pkcs8,
}

/// A number for each key encoding, for the names of outside results.
pub open spec fn kind_code(k: KeyKind) -> u8 {
    match k {
        KeyKind::Pkcs1 => 0,
        KeyKind::Sec1 => 1,
        KeyKind::Pkcs8 => 2,
    }
}

/// A private key: its encoding and its DER bytes.
pub struct PrivateKey {
    pub kind: KeyKind,
    pub der: Vec<u8>,
}

/// The encoding and the bytes of a key, as the names of outside results
/// take them.
pub open spec fn key_view(k: PrivateKey) -> (u8, Seq<u8>) {
    (kind_code(k.kind), k.der@)
}

/// A certificate chain (leaf first, each entry DER) and its private key.
pub struct CertBundle {
    pub chain: Vec<Vec<u8>>,
    pub key: PrivateKey,
}

/// Relies on rcgen::generate_simple_self_signed: a fresh key pair and a
/// self-signed certificate for `names`, handed back as the PEM text of the
/// certificate and of the key. The key is random, so the texts are not
/// named; what holds of every outcome is that the certificate text is one
/// PEM certificate section and the key text one PKCS#8 key section.
#[verifier::external_body]
fn generate_self_signed(names: Vec<String>) -> (r: Result<(String, String), String>)
    ensures
        r is Ok ==> (pem_certificates_of(r->Ok_0.0@) matches Some(c) && c.len() == 1),
        r is Ok ==> (pem_private_key_of(r->Ok_0.1@) matches Some(Some(k)) && k.0 == kind_code(
            KeyKind::Pkcs8,
        )),
{
    match rcgen::generate_simple_self_signed(names) {
        Ok(c) => Ok((c.cert.pem(), c.key_pair.serialize_pem())),
        Err(e) => Err(e.to_string()),
    }
}

/// Relies on rustls_pemfile::certs: every certificate section of `pem`, in
/// order, as DER; the first read error ends it.
#[verifier::external_body]
fn read_certificates(pem: &str) -> (r: Result<Vec<Vec<u8>>, String>)
    ensures
        r is Ok <==> pem_certificates_of(pem@) is Some,
        r is Ok ==> r->Ok_0.deep_view() == pem_certificates_of(pem@)->Some_0,
{
    let mut rd = std::io::BufReader::new(std::io::Cursor::new(pem.as_bytes()));
    rustls_pemfile::certs(&mut rd)
        .map(|c| c.map(|c| c.to_vec()))
        .collect::<Result<Vec<Vec<u8>>, std::io::Error>>()
        .map_err(|e| e.to_string())
}

/// Relies on rustls_pemfile::private_key: the first private-key section of
/// `pem` (PKCS#1, SEC1 or PKCS#8), if there is one. The key types of this
/// version have those three encodings only.
#[verifier::external_body]
fn read_private_key(pem: &str) -> (r: Result<Option<PrivateKey>, String>)
    ensures
        r is Err <==> pem_private_key_of(pem@) is None,
        r matches Ok(None) <==> pem_private_key_of(pem@) == Some(None::<(u8, Seq<u8>)>),
        r matches Ok(Some(k)) ==> pem_private_key_of(pem@) == Some(Some(key_view(k))),
{
    let mut rd = std::io::BufReader::new(std::io::Cursor::new(pem.as_bytes()));
    let key = match rustls_pemfile::private_key(&mut rd).map_err(|e| e.to_string())? {
        Some(PrivateKeyDer::Pkcs1(k)) => (KeyKind::Pkcs1, k.secret_pkcs1_der().to_vec()),
        Some(PrivateKeyDer::Sec1(k)) => (KeyKind::Sec1, k.secret_sec1_der().to_vec()),
        Some(PrivateKeyDer::Pkcs8(k)) => (KeyKind::Pkcs8, k.secret_pkcs8_der().to_vec()),
        Some(_) => return Err("unknown private key encoding".to_string()),
        None => return Ok(None),
    };
    Ok(Some(PrivateKey { kind: key.0, der: key.1 }))
}

/// The host identities the certificate is made for: `localhost` and `::1`.
pub fn host_identities() -> (r: Vec<String>)
    ensures
        r@.len() == 2,
        r@[0]@ == host_names()[0],
        r@[1]@ == host_names()[1],
{
    proof {
        reveal_strlit("localhost");
        reveal_strlit("::1");
    }
    let mut names: Vec<String> = Vec::new();
    names.push("localhost".to_owned());
    names.push("::1".to_owned());
    names
}

/// Generates a self-signed certificate and key for `names`, as PEM texts.
/// Nothing is stored anywhere.
pub fn provision(names: Vec<String>) -> (r: Result<(String, String), ServerError>)
    ensures
        r is Err ==> r->Err_0 is Certificate,
        r is Ok ==> (bundle_of(r->Ok_0.0@, r->Ok_0.1@) matches Some(b) && b.0.len() == 1 && b.1.0
            == kind_code(KeyKind::Pkcs8)),
{
    match generate_self_signed(names) {
        Ok(pems) => Ok(pems),
        Err(msg) => Err(ServerError::Certificate(msg)),
    }
}

/// The chain and key that a certificate text and a key text hold, where
/// both read and the key text holds a key.
pub open spec fn bundle_of(cert_pem: Seq<char>, key_pem: Seq<char>) -> Option<
    (Seq<Seq<u8>>, (u8, Seq<u8>)),
> {
    match (pem_certificates_of(cert_pem), pem_private_key_of(key_pem)) {
        (Some(chain), Some(Some(key))) => Some((chain, key)),
        _ => None,
    }
}

/// Reads the certificate chain out of `cert_pem` and the private key out of
/// `key_pem`.
pub fn load_bundle(cert_pem: &str, key_pem: &str) -> (r: Result<CertBundle, ServerError>)
    ensures
        r is Ok <==> bundle_of(cert_pem@, key_pem@) is Some,
        r is Ok ==> bundle_of(cert_pem@, key_pem@) == Some(
            (r->Ok_0.chain.deep_view(), key_view(r->Ok_0.key)),
        ),
        r matches Err(ServerError::Pem(_)) <==> (pem_certificates_of(cert_pem@) is None || (
        pem_certificates_of(cert_pem@) is Some && pem_private_key_of(key_pem@) is None)),
        r matches Err(ServerError::MissingKey) <==> (pem_certificates_of(cert_pem@) is Some
            && pem_private_key_of(key_pem@) == Some(None::<(u8, Seq<u8>)>)),
        !(r matches Err(ServerError::Certificate(_))),
        !(r matches Err(ServerError::Other(_))),
{
    let chain = match read_certificates(cert_pem) {
        Ok(chain) => chain,
        Err(msg) => return Err(ServerError::Pem(msg)),
    };
    match read_private_key(key_pem) {
        Ok(Some(key)) => Ok(CertBundle { chain, key }),
        Ok(None) => Err(ServerError::MissingKey),
        Err(msg) => Err(ServerError::Pem(msg)),
    }
}

} // verus!
