//! The tunnel's TLS material: trust roots from a custom CA or the system,
//! the client certificate and key for mutual TLS, and session resumption,
//! read out of PEM text.
use vstd::prelude::*;

use rustls::pki_types::PrivateKeyDer;

verus! {

/// The kinds of private key a PEM file may hold.
#[derive(Debug, Clone, Copy, PartialEq, Eq, Structural)]
pub enum PemKeyKind {
    /// An RSA key (`RSA PRIVATE KEY`).
    Pkcs1,
    /// An elliptic-curve key (`EC PRIVATE KEY`).
    Sec1,
    /// A PKCS#8 key (`PRIVATE KEY`).
    Pkcs8,
}

/// The DER of the certificate sections of PEM text, in order, or none when a
/// section cannot be read.
pub uninterp spec fn pem_certificates(pem: Seq<u8>) -> Option<Seq<Seq<u8>>>;

/// The first private key of PEM text with its kind: none when a section
/// cannot be read, `Some(None)` when the text holds no key.
pub uninterp spec fn pem_private_key(pem: Seq<u8>) -> Option<Option<(PemKeyKind, Seq<u8>)>>;

/// `rustls_pemfile::certs` read to the end: claims only that the result is a
/// function of the text.
#[verifier::external_body]
fn parse_pem_certificates(pem: &[u8]) -> (r: Option<Vec<Vec<u8>>>)
    ensures
        r.deep_view() == pem_certificates(pem@),
{
    let mut rd = pem;
    rustls_pemfile::certs(&mut rd).map(|c| c.map(|c| c.as_ref().to_vec())).collect::<
        Result<Vec<Vec<u8>>, _>,
    >().ok()
}

/// A parsed private key seen through the view of its bytes.
pub open spec fn key_view(k: Option<Option<(PemKeyKind, Vec<u8>)>>) -> Option<
    Option<(PemKeyKind, Seq<u8>)>,
> {
    match k {
        Some(Some((kind, der))) => Some(Some((kind, der@))),
        Some(None) => Some(None),
        None => None,
    }
}

/// `rustls_pemfile::private_key`: claims only that the result is a function
/// of the text.
#[verifier::external_body]
fn parse_pem_private_key(pem: &[u8]) -> (r: Option<Option<(PemKeyKind, Vec<u8>)>>)
    ensures
        key_view(r) == pem_private_key(pem@),
{
    let mut rd = pem;
    match rustls_pemfile::private_key(&mut rd) {
        Err(_) => None,
        Ok(None) => Some(None),
        Ok(Some(PrivateKeyDer::Pkcs1(k))) => Some(Some((PemKeyKind::Pkcs1, k.secret_pkcs1_der().to_vec()))),
        Ok(Some(PrivateKeyDer::Sec1(k))) => Some(Some((PemKeyKind::Sec1, k.secret_sec1_der().to_vec()))),
        Ok(Some(PrivateKeyDer::Pkcs8(k))) => Some(Some((PemKeyKind::Pkcs8, k.secret_pkcs8_der().to_vec()))),
        Ok(Some(_)) => None,
    }
}

/// Where the trust roots come from.
pub enum RootSource {
    /// The system's native certificate store.
    Native,
    /// The certificates of a custom CA file (DER).
    Certificates(Vec<Vec<u8>>),
}

/// The client certificate chain and key for mutual TLS.
pub struct ClientAuth {
    pub certificates: Vec<Vec<u8>>,
    pub key_kind: PemKeyKind,
    pub key: Vec<u8>,
}

/// Everything the tunnel's TLS client is built from.
pub struct TlsMaterial {
    pub roots: RootSource,
    /// Present exactly when both a certificate and a key file are configured.
    pub client_auth: Option<ClientAuth>,
    pub disable_resumption: bool,
}

/// Why the TLS material cannot be had.
#[derive(Debug, Clone, Copy, PartialEq, Eq, Structural)]
pub enum TlsError {
    /// The CA file cannot be read as PEM.
    CaUnreadable,
    /// The client certificate file cannot be read as PEM.
    CertificateUnreadable,
    /// The client key file cannot be read as PEM.
    KeyUnreadable,
    /// The client key file holds no private key.
    NoKey,
}

/// The TLS material with byte sequences: roots `None` means the native store.
pub struct TlsModel {
    pub roots: Option<Seq<Seq<u8>>>,
    pub client_auth: Option<(Seq<Seq<u8>>, PemKeyKind, Seq<u8>)>,
    pub disable_resumption: bool,
}

pub open spec fn tls_model(m: TlsMaterial) -> TlsModel {
    TlsModel {
        roots: match m.roots {
            RootSource::Native => None,
            RootSource::Certificates(cs) => Some(cs.deep_view()),
        },
        client_auth: match m.client_auth {
            Some(a) => Some((a.certificates.deep_view(), a.key_kind, a.key@)),
            None => None,
        },
        disable_resumption: m.disable_resumption,
    }
}

/// An optional byte slice as an optional sequence.
pub open spec fn bytes_of(o: Option<&[u8]>) -> Option<Seq<u8>> {
    match o {
        Some(b) => Some(b@),
        None => None,
    }
}

/// The TLS material from the CA, certificate and key texts: the roots are
/// the CA's certificates when a CA is given, else the native store; client
/// authentication is used exactly when both a certificate and a key are
/// given. It fails when a text cannot be read or the key text holds no key,
/// the CA checked first, then the certificate, then the key.
pub open spec fn tls_material_spec(
    ca: Option<Seq<u8>>,
    cert: Option<Seq<u8>>,
    key: Option<Seq<u8>>,
    disable_resumption: bool,
) -> Result<TlsModel, TlsError> {
    let mutual = cert is Some && key is Some;
    if ca is Some && pem_certificates(ca->0) is None {
        Err(TlsError::CaUnreadable)
    } else if mutual && pem_certificates(cert->0) is None {
        Err(TlsError::CertificateUnreadable)
    } else if mutual && pem_private_key(key->0) is None {
        Err(TlsError::KeyUnreadable)
    } else if mutual && pem_private_key(key->0) == Some(None::<(PemKeyKind, Seq<u8>)>) {
        Err(TlsError::NoKey)
    } else {
        Ok(
            TlsModel {
                roots: match ca {
                    Some(p) => pem_certificates(p),
                    None => None,
                },
                client_auth: if mutual {
                    match (pem_certificates(cert->0), pem_private_key(key->0)) {
                        (Some(cs), Some(Some((kind, der)))) => Some((cs, kind, der)),
                        _ => None,
                    }
                } else {
                    None
                },
                disable_resumption,
            },
        )
    }
}

/// Reads the tunnel's TLS material out of the PEM texts of the configured
/// files.
pub fn tls_material(
    ca_pem: Option<&[u8]>,
    cert_pem: Option<&[u8]>,
    key_pem: Option<&[u8]>,
    disable_resumption: bool,
) -> (r: Result<TlsMaterial, TlsError>)
    ensures
        match r {
            Ok(m) => tls_material_spec(
                bytes_of(ca_pem),
                bytes_of(cert_pem),
                bytes_of(key_pem),
                disable_resumption,
            ) == Ok::<TlsModel, TlsError>(tls_model(m)),
            Err(e) => tls_material_spec(
                bytes_of(ca_pem),
                bytes_of(cert_pem),
                bytes_of(key_pem),
                disable_resumption,
            ) == Err::<TlsModel, TlsError>(e),
        },
{
    let roots = match ca_pem {
        Some(p) => match parse_pem_certificates(p) {
            Some(cs) => RootSource::Certificates(cs),
            None => return Err(TlsError::CaUnreadable),
        },
        None => RootSource::Native,
    };
    let client_auth = match (cert_pem, key_pem) {
        (Some(c), Some(k)) => {
            let certificates = match parse_pem_certificates(c) {
                Some(cs) => cs,
                None => return Err(TlsError::CertificateUnreadable),
            };
            match parse_pem_private_key(k) {
                None => return Err(TlsError::KeyUnreadable),
                Some(None) => return Err(TlsError::NoKey),
                Some(Some((key_kind, key))) => Some(ClientAuth { certificates, key_kind, key }),
            }
        },
        _ => None,
    };
    Ok(TlsMaterial { roots, client_auth, disable_resumption })
}

} // verus!
