use crate::certs::{
    bundle_of, host_identities, key_view, load_bundle, pem_certificates_of, pem_private_key_of,
    kind_code, provision, CertBundle, KeyKind, PrivateKey,
};
use crate::error::{error, ServerError};
use rustls::pki_types::{
    CertificateDer, PrivateKeyDer, PrivatePkcs1KeyDer, PrivatePkcs8KeyDer, PrivateSec1KeyDer,
};
use rustls::ServerConfig;
use vstd::prelude::*;

verus! {

#[verifier::external_type_specification]
#[verifier::external_body]
pub struct ExServerConfig(ServerConfig);

/// The application protocols the server offers during ALPN, highest
/// priority first: `h2`, `http/1.1`, `http/1.0`.
pub open spec fn alpn_priority() -> Seq<Seq<u8>> {
    seq![
        seq![104u8, 50u8],
        seq![104u8, 116u8, 116u8, 112u8, 47u8, 49u8, 46u8, 49u8],
        seq![104u8, 116u8, 116u8, 112u8, 47u8, 49u8, 46u8, 48u8],
    ]
}

/// Whether rustls takes a certificate chain (DER, leaf first) with a
/// private key (encoding per `kind_code`, DER): the key parses and its
/// public key is the leaf certificate's.
pub uninterp spec fn single_cert_accepted(chain: Seq<Seq<u8>>, key_kind: u8, key: Seq<u8>) -> bool;

/// Relies on rustls's ServerConfig::builder, with_no_client_auth and
/// with_single_cert: a configuration that asks no client certificate and
/// serves `chain` with `key`, or the builder's message where the key does
/// not parse or does not match the leaf certificate. `alpn` becomes the
/// list of protocols offered.
#[verifier::external_body]
fn build_server_config(chain: Vec<Vec<u8>>, key: PrivateKey, alpn: Vec<Vec<u8>>) -> (r: Result<
    ServerConfig,
    String,
>)
    ensures
        r is Ok <==> single_cert_accepted(chain.deep_view(), kind_code(key.kind), key.der@),
{
    let chain: Vec<CertificateDer<'static>> = chain.into_iter().map(CertificateDer::from).collect();
    let key: PrivateKeyDer<'static> = match key.kind {
        KeyKind::Pkcs1 => PrivatePkcs1KeyDer::from(key.der).into(),
        KeyKind::Sec1 => PrivateSec1KeyDer::from(key.der).into(),
        KeyKind::Pkcs8 => PrivatePkcs8KeyDer::from(key.der).into(),
    };
    let mut config = ServerConfig::builder().with_no_client_auth().with_single_cert(chain, key).map_err(
        |e| e.to_string(),
    )?;
    config.alpn_protocols = alpn;
    Ok(config)
}

/// The ALPN identifiers the server offers, highest priority first.
pub fn alpn_protocols() -> (r: Vec<Vec<u8>>)
    ensures
        r.deep_view() == alpn_priority(),
{
    let h2: Vec<u8> = vec![104u8, 50u8];
    let http11: Vec<u8> = vec![104u8, 116u8, 116u8, 112u8, 47u8, 49u8, 46u8, 49u8];
    let http10: Vec<u8> = vec![104u8, 116u8, 116u8, 112u8, 47u8, 49u8, 46u8, 48u8];
    assert(h2.deep_view() =~= alpn_priority()[0]);
    assert(http11.deep_view() =~= alpn_priority()[1]);
    assert(http10.deep_view() =~= alpn_priority()[2]);
    let r: Vec<Vec<u8>> = vec![h2, http11, http10];
    assert(r.deep_view() =~= alpn_priority());
    r
}

/// Whether the TLS library takes the chain and key of a bundle.
pub open spec fn bundle_accepted(b: (Seq<Seq<u8>>, (u8, Seq<u8>))) -> bool {
    single_cert_accepted(b.0, b.1.0, b.1.1)
}

/// Builds the TLS configuration for `bundle`, offering the protocols of
/// `alpn_protocols`. A refusal by the TLS library is the general error with
/// its message.
pub fn server_config(bundle: CertBundle) -> (r: Result<ServerConfig, ServerError>)
    ensures
        r is Ok <==> bundle_accepted((bundle.chain.deep_view(), key_view(bundle.key))),
        r is Err ==> r->Err_0 is Other,
{
    let CertBundle { chain, key } = bundle;
    match build_server_config(chain, key, alpn_protocols()) {
        Ok(config) => Ok(config),
        Err(msg) => Err(error(msg)),
    }
}

/// Builds the TLS configuration from the PEM texts of a certificate chain
/// and of its private key.
pub fn configure(cert_pem: &str, key_pem: &str) -> (r: Result<ServerConfig, ServerError>)
    ensures
        r is Ok <==> (bundle_of(cert_pem@, key_pem@) matches Some(b) && bundle_accepted(b)),
        r matches Err(ServerError::Other(_)) <==> (bundle_of(cert_pem@, key_pem@) matches Some(b)
            && !bundle_accepted(b)),
        r matches Err(ServerError::Pem(_)) <==> (pem_certificates_of(cert_pem@) is None || (
        pem_certificates_of(cert_pem@) is Some && pem_private_key_of(key_pem@) is None)),
        r matches Err(ServerError::MissingKey) <==> (pem_certificates_of(cert_pem@) is Some
            && pem_private_key_of(key_pem@) == Some(None::<(u8, Seq<u8>)>)),
        !(r matches Err(ServerError::Certificate(_))),
{
    let bundle = load_bundle(cert_pem, key_pem)?;
    server_config(bundle)
}

/// Everything the server needs before it listens: a fresh self-signed
/// certificate for `localhost` and `::1`, read back, and the TLS
/// configuration built on it. It fails only where generating the
/// certificate fails or the TLS library refuses the pair.
pub fn startup_config() -> (r: Result<ServerConfig, ServerError>)
    ensures
        r is Err ==> (r->Err_0 is Certificate || r->Err_0 is Other),
{
    let (cert_pem, key_pem) = provision(host_identities())?;
    configure(cert_pem.as_str(), key_pem.as_str())
}

} // verus!
