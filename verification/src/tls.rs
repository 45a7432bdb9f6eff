use vstd::prelude::*;
use crate::error::MqttError;
use crate::identity::{
    KeyKind, PrivateKey, chain_in, chosen_key, first_pkcs8_key, first_rsa_key, first_sec1_key,
    der_views, load_certificate_chain, load_private_key, parse_certificates, pem_certificates,
};

verus! {

#[verifier::external_type_specification]
#[verifier::external_body]
pub struct ExRootCertStore(rustls::RootCertStore);

#[verifier::external_type_specification]
#[verifier::external_body]
pub struct ExClientConfig(rustls::ClientConfig);

#[verifier::external_type_specification]
#[verifier::external_body]
pub struct ExTlsError(rustls::Error);

/// The trust anchor that `rustls::RootCertStore::add` derives from a DER
/// certificate, as its subject, its public key info and its name
/// constraints; `None` where `add` refuses the certificate.
pub uninterp spec fn root_anchor(der: Seq<u8>) -> Option<(Seq<u8>, Seq<u8>, Option<Seq<u8>>)>;

/// The trust anchors a `rustls::RootCertStore` holds, in the order they
/// were added, each as its subject, public key info and name constraints.
pub uninterp spec fn store_anchors(store: rustls::RootCertStore) -> Seq<
    (Seq<u8>, Seq<u8>, Option<Seq<u8>>),
>;

/// Calls `rustls::RootCertStore::empty`: the new store holds no anchor.
#[verifier::external_body]
fn empty_root_store() -> (store: rustls::RootCertStore)
    ensures
        store_anchors(store) == Seq::<(Seq<u8>, Seq<u8>, Option<Seq<u8>>)>::empty(),
{
    rustls::RootCertStore::empty()
}

/// Calls `rustls::RootCertStore::add`. The contract claims that an accepted
/// certificate appends its anchor to the store and that a refused one leaves
/// the store as it was.
#[verifier::external_body]
fn add_root(store: &mut rustls::RootCertStore, der: &[u8]) -> (added: bool)
    ensures
        match root_anchor(der@) {
            Some(anchor) => added && store_anchors(*final(store)) == store_anchors(
                *old(store),
            ).push(anchor),
            None => !added && store_anchors(*final(store)) == store_anchors(*old(store)),
        },
{
    store.add(rustls::pki_types::CertificateDer::from(der)).is_ok()
}

/// Calls `rustls::ClientConfig::builder`, `with_root_certificates` and
/// `with_client_auth_cert` on the given trust store, chain and key. Nothing
/// is claimed about the outcome: the TLS library decides it.
#[verifier::external_body]
fn build_client_config(
    roots: rustls::RootCertStore,
    chain: &Vec<Vec<u8>>,
    key: &PrivateKey,
) -> (built: Result<rustls::ClientConfig, rustls::Error>) {
    let certs = chain.iter().map(|c| rustls::pki_types::CertificateDer::from(c.clone())).collect();
    let key_der = match key.kind {
        KeyKind::Pkcs8 => rustls::pki_types::PrivateKeyDer::Pkcs8(key.der.clone().into()),
        KeyKind::Pkcs1 => rustls::pki_types::PrivateKeyDer::Pkcs1(key.der.clone().into()),
        KeyKind::Sec1 => rustls::pki_types::PrivateKeyDer::Sec1(key.der.clone().into()),
    };
    let builder = rustls::ClientConfig::builder().with_root_certificates(roots);
    builder.with_client_auth_cert(certs, key_der)
}

/// Renders a `rustls::Error` through its `Display` impl. Nothing is claimed
/// about the text.
#[verifier::external_body]
fn tls_error_text(cause: &rustls::Error) -> (text: String) {
    format!("{}", cause)
}

/// How the broker's certificate is checked during the handshake.
#[derive(Debug, Clone, Copy, PartialEq, Eq, Structural)]
pub enum VerifierStrategy {
    /// Chain and host name are validated against the trust root.
    Standard,
    /// Any server certificate is accepted. This gives up all protection
    /// against server impersonation and is for unverified test endpoints
    /// only.
    AcceptAll,
}

impl Default for VerifierStrategy {
    /// The default strategy validates the server.
    fn default() -> (strategy: VerifierStrategy)
        ensures
            strategy == VerifierStrategy::Standard,
    {
        VerifierStrategy::Standard
    }
}

/// A mutual-TLS client configuration together with the verification
/// strategy chosen for it.
pub struct TlsContext {
    pub config: rustls::ClientConfig,
    pub strategy: VerifierStrategy,
}

impl TlsContext {
    /// Whether standard validation is to be replaced before the context is
    /// used: only when accept-all was selected.
    pub open spec fn spec_replaces_validation(self) -> bool {
        self.strategy == VerifierStrategy::AcceptAll
    }

    /// Whether standard validation is to be replaced before the context is
    /// used.
    pub fn replaces_validation(&self) -> (replaced: bool)
        ensures
            replaced == self.spec_replaces_validation(),
    {
        match self.strategy {
            VerifierStrategy::Standard => false,
            VerifierStrategy::AcceptAll => true,
        }
    }
}

/// The anchors of a list of certificates, in order; `None` where any one of
/// them is refused as a trust anchor.
pub open spec fn anchors_of(certs: Seq<Seq<u8>>) -> Option<
    Seq<(Seq<u8>, Seq<u8>, Option<Seq<u8>>)>,
>
    decreases certs.len(),
{
    if certs.len() == 0 {
        Some(Seq::empty())
    } else {
        match anchors_of(certs.drop_last()) {
            Some(anchors) => match root_anchor(certs.last()) {
                Some(anchor) => Some(anchors.push(anchor)),
                None => None,
            },
            None => None,
        }
    }
}

/// The trust root that PEM text holds; `None` where the text is malformed or
/// one of its certificates is refused.
pub open spec fn trust_root_in(pem: Seq<u8>) -> Option<Seq<(Seq<u8>, Seq<u8>, Option<Seq<u8>>)>> {
    match pem_certificates(pem) {
        Some(certs) => anchors_of(certs),
        None => None,
    }
}

/// A list whose prefix holds a refused certificate is refused as a whole.
pub proof fn lemma_refused_prefix(certs: Seq<Seq<u8>>, k: int)
    requires
        0 <= k <= certs.len(),
        anchors_of(certs.take(k)) is None,
    ensures
        anchors_of(certs) is None,
    decreases certs.len(),
{
    if k == certs.len() {
        assert(certs.take(k) =~= certs);
    } else {
        assert(certs.drop_last().take(k) =~= certs.take(k));
        lemma_refused_prefix(certs.drop_last(), k);
    }
}

/// Builds a trust store from DER certificates, adding them in order and
/// stopping at the first one that is refused. Fails with `Parse` exactly
/// when one of them is refused.
pub fn trust_root_of(list: &Vec<Vec<u8>>) -> (outcome: Result<rustls::RootCertStore, MqttError>)
    ensures
        match anchors_of(der_views(list@)) {
            Some(anchors) => outcome is Ok && store_anchors(outcome->Ok_0) == anchors,
            None => outcome == Err::<rustls::RootCertStore, MqttError>(MqttError::Parse),
        },
{
    let ghost certs = der_views(list@);
    let mut store = empty_root_store();
    let mut i: usize = 0;
    proof {
        assert(certs.take(0) =~= Seq::<Seq<u8>>::empty());
    }
    while i < list.len()
        invariant
            i <= list.len(),
            certs == der_views(list@),
            anchors_of(certs.take(i as int)) == Some(store_anchors(store)),
        decreases list.len() - i,
    {
        let ghost before = store_anchors(store);
        let added = add_root(&mut store, list[i].as_slice());
        proof {
            let next = certs.take(i + 1);
            assert(next.drop_last() =~= certs.take(i as int));
            assert(next.last() == list@[i as int]@);
            assert(anchors_of(next) == match root_anchor(next.last()) {
                Some(anchor) => Some(before.push(anchor)),
                None => None,
            });
        }
        if !added {
            proof {
                lemma_refused_prefix(certs, i + 1);
            }
            return Err(MqttError::Parse);
        }
        i += 1;
    }
    proof {
        assert(certs.take(i as int) =~= certs);
    }
    Ok(store)
}

/// Builds the trust store from the certificates of a PEM text, stopping at
/// the first one that is refused. Fails with `Parse` exactly when the text
/// is malformed or holds a refused certificate.
pub fn load_trust_root(pem: &[u8]) -> (outcome: Result<rustls::RootCertStore, MqttError>)
    ensures
        match trust_root_in(pem@) {
            Some(anchors) => outcome is Ok && store_anchors(outcome->Ok_0) == anchors,
            None => outcome == Err::<rustls::RootCertStore, MqttError>(MqttError::Parse),
        },
{
    match parse_certificates(pem) {
        Some(list) => trust_root_of(&list),
        None => Err(MqttError::Parse),
    }
}

/// Wraps up the construction of a context: a built configuration is kept
/// with the chosen strategy, a refusal becomes a `Config` error.
pub fn finish_context(
    built: Result<rustls::ClientConfig, rustls::Error>,
    strategy: VerifierStrategy,
) -> (outcome: Result<TlsContext, MqttError>)
    ensures
        match built {
            Ok(config) => outcome is Ok && outcome->Ok_0.config == config
                && outcome->Ok_0.strategy == strategy,
            Err(_) => outcome is Err && outcome->Err_0 is Config,
        },
{
    match built {
        Ok(config) => Ok(TlsContext { config, strategy }),
        Err(cause) => Err(MqttError::Config(tls_error_text(&cause))),
    }
}

/// Combines a trust store and a client identity into a mutual-TLS context
/// under the given strategy. Whether the identity is accepted is the TLS
/// library's decision; a refusal is reported as a `Config` error.
pub fn build(
    chain: &Vec<Vec<u8>>,
    key: &PrivateKey,
    trust_root: rustls::RootCertStore,
    strategy: VerifierStrategy,
) -> (outcome: Result<TlsContext, MqttError>)
    ensures
        match outcome {
            Ok(context) => context.strategy == strategy,
            Err(fault) => fault is Config,
        },
{
    finish_context(build_client_config(trust_root, chain, key), strategy)
}

/// The fault, if any, found while loading an identity from the contents of
/// its three files, each given as its bytes or as the reason it could not be
/// read. The trust bundle is looked at first, then the certificate chain,
/// then the key.
pub open spec fn identity_fault(
    cert: Result<Vec<u8>, String>,
    key: Result<Vec<u8>, String>,
    ca: Result<Vec<u8>, String>,
) -> Option<MqttError> {
    match ca {
        Err(cause) => Some(MqttError::Io(cause)),
        Ok(ca_pem) => if trust_root_in(ca_pem@) is None {
            Some(MqttError::Parse)
        } else {
            match cert {
                Err(cause) => Some(MqttError::Io(cause)),
                Ok(cert_pem) => if chain_in(cert_pem@) is None {
                    Some(MqttError::Parse)
                } else {
                    match key {
                        Err(cause) => Some(MqttError::Io(cause)),
                        Ok(key_pem) => if chosen_key(
                            first_pkcs8_key(key_pem@),
                            first_rsa_key(key_pem@),
                            first_sec1_key(key_pem@),
                        ) is None {
                            Some(MqttError::NoValidKey)
                        } else {
                            None
                        },
                    }
                },
            }
        },
    }
}

/// A client identity: the certificate chain to present, the private key
/// that belongs to it, and the trust root the broker is checked against.
pub struct Identity {
    pub chain: Vec<Vec<u8>>,
    pub key: PrivateKey,
    pub trust_root: rustls::RootCertStore,
}

impl Identity {
    /// Whether this is the identity held by the three PEM texts: the chain
    /// in file order, the key of the first encoding that matches, and the
    /// anchors of the trust bundle in file order.
    pub open spec fn holds(self, cert_pem: Seq<u8>, key_pem: Seq<u8>, ca_pem: Seq<u8>) -> bool {
        &&& chain_in(cert_pem) == Some(der_views(self.chain@))
        &&& chosen_key(first_pkcs8_key(key_pem), first_rsa_key(key_pem), first_sec1_key(key_pem))
            == Some((self.key.kind, self.key.der@))
        &&& trust_root_in(ca_pem) == Some(store_anchors(self.trust_root))
    }
}

/// Loads the identity from the contents of the certificate, key and trust
/// bundle files, each given as its bytes or as the reason it could not be
/// read. Fails exactly with the fault that `identity_fault` names, and
/// otherwise yields the identity that the three texts hold.
pub fn load_identity(
    cert: Result<Vec<u8>, String>,
    key: Result<Vec<u8>, String>,
    ca: Result<Vec<u8>, String>,
) -> (outcome: Result<Identity, MqttError>)
    ensures
        match identity_fault(cert, key, ca) {
            Some(fault) => outcome == Err::<Identity, MqttError>(fault),
            None => outcome is Ok && outcome->Ok_0.holds(cert->Ok_0@, key->Ok_0@, ca->Ok_0@),
        },
{
    let ca_pem = match ca {
        Ok(bytes) => bytes,
        Err(cause) => {
            return Err(MqttError::Io(cause));
        },
    };
    let trust_root = match load_trust_root(ca_pem.as_slice()) {
        Ok(store) => store,
        Err(_) => {
            return Err(MqttError::Parse);
        },
    };
    let cert_pem = match cert {
        Ok(bytes) => bytes,
        Err(cause) => {
            return Err(MqttError::Io(cause));
        },
    };
    let chain = match load_certificate_chain(cert_pem.as_slice()) {
        Ok(list) => list,
        Err(_) => {
            return Err(MqttError::Parse);
        },
    };
    let key_pem = match key {
        Ok(bytes) => bytes,
        Err(cause) => {
            return Err(MqttError::Io(cause));
        },
    };
    let private_key = match load_private_key(key_pem.as_slice()) {
        Ok(found) => found,
        Err(_) => {
            return Err(MqttError::NoValidKey);
        },
    };
    Ok(Identity { chain, key: private_key, trust_root })
}

/// Loads the identity from the contents of the certificate, key and trust
/// bundle files and builds the mutual-TLS context from it. A fault in the
/// identity is reported as `identity_fault` names it; with a sound identity
/// the outcome is the TLS library's: a context under the chosen strategy, or
/// a `Config` error.
pub fn load_tls_config(
    cert: Result<Vec<u8>, String>,
    key: Result<Vec<u8>, String>,
    ca: Result<Vec<u8>, String>,
    strategy: VerifierStrategy,
) -> (outcome: Result<TlsContext, MqttError>)
    ensures
        match identity_fault(cert, key, ca) {
            Some(fault) => outcome == Err::<TlsContext, MqttError>(fault),
            None => match outcome {
                Ok(context) => context.strategy == strategy,
                Err(fault) => fault is Config,
            },
        },
{
    match load_identity(cert, key, ca) {
        Ok(identity) => build(&identity.chain, &identity.key, identity.trust_root, strategy),
        Err(fault) => Err(fault),
    }
}

} // verus!
