use vstd::prelude::*;
use crate::error::MqttError;

verus! {

/// The encoding a private key was found in.
#[derive(Debug, Clone, Copy, PartialEq, Eq, Structural)]
pub enum KeyKind {
    Pkcs8,
    Pkcs1,
    Sec1,
}

/// A private key as its DER bytes together with the encoding they are in.
#[derive(Debug, Clone, PartialEq, Eq)]
pub struct PrivateKey {
    pub kind: KeyKind,
    pub der: Vec<u8>,
}

/// What `rustls_pemfile::pkcs8_private_keys` yields first on the given PEM
/// text, as DER bytes; `None` where it yields nothing or an error first.
pub uninterp spec fn first_pkcs8_key(pem: Seq<u8>) -> Option<Seq<u8>>;

/// What `rustls_pemfile::rsa_private_keys` yields first on the given PEM
/// text, as DER bytes; `None` where it yields nothing or an error first.
pub uninterp spec fn first_rsa_key(pem: Seq<u8>) -> Option<Seq<u8>>;

/// What `rustls_pemfile::ec_private_keys` yields first on the given PEM
/// text, as DER bytes; `None` where it yields nothing or an error first.
pub uninterp spec fn first_sec1_key(pem: Seq<u8>) -> Option<Seq<u8>>;

/// The certificates that `rustls_pemfile::certs` yields on the given PEM
/// text, in file order, each as DER bytes; `None` where it yields an error.
pub uninterp spec fn pem_certificates(pem: Seq<u8>) -> Option<Seq<Seq<u8>>>;

/// The byte strings held by a list of DER blobs.
pub open spec fn der_views(blobs: Seq<Vec<u8>>) -> Seq<Seq<u8>> {
    Seq::new(blobs.len(), |i: int| blobs[i]@)
}

/// Whether an optional byte vector holds exactly the optional byte string.
pub open spec fn holds_bytes(found: Option<Vec<u8>>, bytes: Option<Seq<u8>>) -> bool {
    match found {
        Some(v) => bytes == Some(v@),
        None => bytes is None,
    }
}

/// Calls `rustls_pemfile::pkcs8_private_keys` and takes the first item. The
/// contract only gives that item a name; nothing is claimed about how the
/// PEM text is parsed.
#[verifier::external_body]
fn parse_first_pkcs8(pem: &[u8]) -> (found: Option<Vec<u8>>)
    ensures
        holds_bytes(found, first_pkcs8_key(pem@)),
{
    let mut rd = pem;
    let first = rustls_pemfile::pkcs8_private_keys(&mut rd).next();
    first.and_then(|k| k.ok()).map(|k| k.secret_pkcs8_der().to_vec())
}

/// Calls `rustls_pemfile::rsa_private_keys` and takes the first item. The
/// contract only gives that item a name.
#[verifier::external_body]
fn parse_first_rsa(pem: &[u8]) -> (found: Option<Vec<u8>>)
    ensures
        holds_bytes(found, first_rsa_key(pem@)),
{
    let mut rd = pem;
    let first = rustls_pemfile::rsa_private_keys(&mut rd).next();
    first.and_then(|k| k.ok()).map(|k| k.secret_pkcs1_der().to_vec())
}

/// Calls `rustls_pemfile::ec_private_keys` and takes the first item. The
/// contract only gives that item a name.
#[verifier::external_body]
fn parse_first_sec1(pem: &[u8]) -> (found: Option<Vec<u8>>)
    ensures
        holds_bytes(found, first_sec1_key(pem@)),
{
    let mut rd = pem;
    let first = rustls_pemfile::ec_private_keys(&mut rd).next();
    first.and_then(|k| k.ok()).map(|k| k.secret_sec1_der().to_vec())
}

/// Calls `rustls_pemfile::certs` and collects every item, giving up at the
/// first error. The contract only gives the collected list a name.
#[verifier::external_body]
pub(crate) fn parse_certificates(pem: &[u8]) -> (found: Option<Vec<Vec<u8>>>)
    ensures
        match found {
            Some(list) => pem_certificates(pem@) == Some(der_views(list@)),
            None => pem_certificates(pem@) is None,
        },
{
    let mut rd = pem;
    let all = rustls_pemfile::certs(&mut rd).collect::<Result<Vec<_>, _>>().ok();
    all.map(|list| list.into_iter().map(|c| c.as_ref().to_vec()).collect())
}

/// The key chosen from the three parse attempts: PKCS8 wins over PKCS1,
/// PKCS1 over SEC1, and `None` is left when all three failed.
pub open spec fn chosen_key(
    pkcs8: Option<Seq<u8>>,
    rsa: Option<Seq<u8>>,
    sec1: Option<Seq<u8>>,
) -> Option<(KeyKind, Seq<u8>)> {
    match pkcs8 {
        Some(der) => Some((KeyKind::Pkcs8, der)),
        None => match rsa {
            Some(der) => Some((KeyKind::Pkcs1, der)),
            None => match sec1 {
                Some(der) => Some((KeyKind::Sec1, der)),
                None => None,
            },
        },
    }
}

/// Whether `outcome` reports exactly the choice `chosen`.
pub open spec fn reports_key(
    outcome: Result<PrivateKey, MqttError>,
    chosen: Option<(KeyKind, Seq<u8>)>,
) -> bool {
    match chosen {
        Some((kind, der)) => outcome is Ok && outcome->Ok_0.kind == kind && outcome->Ok_0.der@
            == der,
        None => outcome == Err::<PrivateKey, MqttError>(MqttError::NoValidKey),
    }
}

/// Picks the private key from the outcomes of the three parse attempts, in
/// the order PKCS8, PKCS1, SEC1.
pub fn select_private_key(
    pkcs8: Option<Vec<u8>>,
    rsa: Option<Vec<u8>>,
    sec1: Option<Vec<u8>>,
) -> (outcome: Result<PrivateKey, MqttError>)
    ensures
        reports_key(
            outcome,
            chosen_key(
                match pkcs8 { Some(v) => Some(v@), None => None },
                match rsa { Some(v) => Some(v@), None => None },
                match sec1 { Some(v) => Some(v@), None => None },
            ),
        ),
{
    match pkcs8 {
        Some(der) => Ok(PrivateKey { kind: KeyKind::Pkcs8, der }),
        None => match rsa {
            Some(der) => Ok(PrivateKey { kind: KeyKind::Pkcs1, der }),
            None => match sec1 {
                Some(der) => Ok(PrivateKey { kind: KeyKind::Sec1, der }),
                None => Err(MqttError::NoValidKey),
            },
        },
    }
}

/// Reads a private key from PEM text without assuming its encoding: the text
/// is tried as PKCS8, then as PKCS1, then as SEC1, and the first attempt that
/// yields a key decides. Fails with `NoValidKey` exactly when none does.
pub fn load_private_key(pem: &[u8]) -> (outcome: Result<PrivateKey, MqttError>)
    ensures
        reports_key(
            outcome,
            chosen_key(first_pkcs8_key(pem@), first_rsa_key(pem@), first_sec1_key(pem@)),
        ),
{
    let pkcs8 = parse_first_pkcs8(pem);
    if pkcs8.is_some() {
        return select_private_key(pkcs8, None, None);
    }
    let rsa = parse_first_rsa(pem);
    if rsa.is_some() {
        return select_private_key(None, rsa, None);
    }
    let sec1 = parse_first_sec1(pem);
    select_private_key(None, None, sec1)
}

/// The certificate chain that PEM text holds: its certificates in file
/// order, or `None` where the text is malformed or holds no certificate.
pub open spec fn chain_in(pem: Seq<u8>) -> Option<Seq<Seq<u8>>> {
    match pem_certificates(pem) {
        Some(list) => if list.len() > 0 {
            Some(list)
        } else {
            None
        },
        None => None,
    }
}

/// Accepts the certificates found in a PEM text as a chain: the list as it
/// is where there is at least one, a `Parse` error where parsing failed or
/// found none.
pub fn chain_from(found: Option<Vec<Vec<u8>>>) -> (outcome: Result<Vec<Vec<u8>>, MqttError>)
    ensures
        match found {
            Some(list) => if list.len() > 0 {
                outcome == Ok::<Vec<Vec<u8>>, MqttError>(list)
            } else {
                outcome == Err::<Vec<Vec<u8>>, MqttError>(MqttError::Parse)
            },
            None => outcome == Err::<Vec<Vec<u8>>, MqttError>(MqttError::Parse),
        },
{
    match found {
        Some(list) => {
            if list.len() > 0 {
                Ok(list)
            } else {
                Err(MqttError::Parse)
            }
        },
        None => Err(MqttError::Parse),
    }
}

/// Reads every certificate of a PEM text in file order. Fails with `Parse`
/// exactly when the text is malformed or holds no certificate.
pub fn load_certificate_chain(pem: &[u8]) -> (outcome: Result<Vec<Vec<u8>>, MqttError>)
    ensures
        match chain_in(pem@) {
            Some(list) => outcome is Ok && der_views(outcome->Ok_0@) == list,
            None => outcome == Err::<Vec<Vec<u8>>, MqttError>(MqttError::Parse),
        },
{
    chain_from(parse_certificates(pem))
}

/// Whichever encoding a key file is in, loading it succeeds with a key of
/// that kind and those bytes, the earlier encoding winning where several
/// are present; a file with no key in any of the three encodings has no
/// valid key.
pub proof fn lemma_key_kind_matches(
    pkcs8: Option<Seq<u8>>,
    rsa: Option<Seq<u8>>,
    sec1: Option<Seq<u8>>,
)
    ensures
        pkcs8 is Some ==> chosen_key(pkcs8, rsa, sec1) == Some((KeyKind::Pkcs8, pkcs8->0)),
        pkcs8 is None && rsa is Some ==> chosen_key(pkcs8, rsa, sec1) == Some(
            (KeyKind::Pkcs1, rsa->0),
        ),
        pkcs8 is None && rsa is None && sec1 is Some ==> chosen_key(pkcs8, rsa, sec1) == Some(
            (KeyKind::Sec1, sec1->0),
        ),
        chosen_key(pkcs8, rsa, sec1) is None <==> pkcs8 is None && rsa is None && sec1 is None,
{
}

} // verus!
