//! Trust-configuration builder: PEM bytes in, mutual-TLS acceptor out.
//!
//! The builder parses an ordered certificate chain, selects a private key
//! (PKCS8 preferred, legacy RSA accepted as a fallback), chooses the
//! client-authentication policy as a closed tagged variant, and assembles
//! a reusable TLS acceptor with an advisory ALPN preference list. Every
//! failure is a typed error reported synchronously; the caller is expected
//! to fail fast, since listening without verified trust material is unsafe.

use vstd::prelude::*;

verus! {

/// The DER contents that `rustls_pemfile::certs` extracts from a PEM text,
/// absent exactly when it rejects the text.
pub uninterp spec fn pem_certs_of(pem: Seq<u8>) -> Option<Seq<Seq<u8>>>;

/// The DER contents that `rustls_pemfile::pkcs8_private_keys` extracts
/// from a PEM text, absent exactly when it rejects the text.
pub uninterp spec fn pkcs8_keys_of(pem: Seq<u8>) -> Option<Seq<Seq<u8>>>;

/// The DER contents that `rustls_pemfile::rsa_private_keys` extracts from
/// a PEM text, absent exactly when it rejects the text.
pub uninterp spec fn rsa_keys_of(pem: Seq<u8>) -> Option<Seq<Seq<u8>>>;

/// Whether `rustls::RootCertStore::add` accepts a DER certificate as a
/// trust anchor.
pub uninterp spec fn trust_anchor_ok(der: Seq<u8>) -> bool;

/// Whether rustls accepts a DER private key when assembling a server
/// configuration (`with_single_cert` succeeds or fails on the key alone).
pub uninterp spec fn server_key_usable(key_der: Seq<u8>) -> bool;

/// Failure of the trust-configuration builder.
#[derive(Debug, PartialEq, Eq, Structural)]
pub enum TrustError {
    /// A PEM input was unreadable, unparsable, or yielded nothing usable.
    Certificate,
    /// A parsed chain/key/policy combination was rejected on assembly.
    Tls,
}

#[verifier::external_type_specification]
#[verifier::external_body]
pub struct ExIoError(std::io::Error);

#[verifier::external_type_specification]
#[verifier::external_body]
pub struct ExRustlsError(rustls::Error);

#[verifier::external_type_specification]
#[verifier::external_body]
pub struct ExRootCertStore(rustls::RootCertStore);

#[verifier::external_type_specification]
#[verifier::external_body]
pub struct ExServerConfig(rustls::ServerConfig);

#[verifier::external_type_specification]
#[verifier::external_body]
pub struct ExTlsAcceptor(tokio_rustls::TlsAcceptor);

/// Relies on rustls_pemfile::certs: it extracts the DER contents of every
/// CERTIFICATE section of the text, in order, and fails exactly on
/// malformed PEM — a pure function of the bytes.
#[verifier::external_body]
fn pem_certs(pem: &Vec<u8>) -> (r: Result<Vec<Vec<u8>>, std::io::Error>)
    ensures
        r is Ok <==> pem_certs_of(pem@) is Some,
        r is Ok ==> r->Ok_0.deep_view() == pem_certs_of(pem@)->0,
{
    rustls_pemfile::certs(&mut pem.as_slice())
}

/// Relies on rustls_pemfile::pkcs8_private_keys: it extracts the DER
/// contents of every PKCS8 PRIVATE KEY section of the text, in order, and
/// fails exactly on malformed PEM — a pure function of the bytes.
#[verifier::external_body]
fn pem_pkcs8_keys(pem: &Vec<u8>) -> (r: Result<Vec<Vec<u8>>, std::io::Error>)
    ensures
        r is Ok <==> pkcs8_keys_of(pem@) is Some,
        r is Ok ==> r->Ok_0.deep_view() == pkcs8_keys_of(pem@)->0,
{
    rustls_pemfile::pkcs8_private_keys(&mut pem.as_slice())
}

/// Relies on rustls_pemfile::rsa_private_keys: it extracts the DER
/// contents of every legacy RSA PRIVATE KEY section of the text, in order,
/// and fails exactly on malformed PEM — a pure function of the bytes.
#[verifier::external_body]
fn pem_rsa_keys(pem: &Vec<u8>) -> (r: Result<Vec<Vec<u8>>, std::io::Error>)
    ensures
        r is Ok <==> rsa_keys_of(pem@) is Some,
        r is Ok ==> r->Ok_0.deep_view() == rsa_keys_of(pem@)->0,
{
    rustls_pemfile::rsa_private_keys(&mut pem.as_slice())
}

/// Relies on rustls::RootCertStore::empty: a store with no roots.
#[verifier::external_body]
fn root_store_empty() -> rustls::RootCertStore {
    rustls::RootCertStore::empty()
}

/// Relies on rustls::RootCertStore::add: it accepts exactly the DER
/// certificates that parse as trust anchors, a property of the bytes
/// alone, and on the rustls::Certificate constructor to carry the bytes.
#[verifier::external_body]
fn root_store_add(store: &mut rustls::RootCertStore, der: &Vec<u8>) -> (r: Result<
    (),
    rustls::Error,
>)
    ensures
        r is Ok <==> trust_anchor_ok(der@),
{
    store.add(&rustls::Certificate(der.clone()))
}

/// Relies on rustls::ServerConfig::builder with safe defaults,
/// `with_no_client_auth`, and `with_single_cert`, whose success is a
/// property of the private key bytes alone (rustls 0.21 accepts any DER
/// chain there and does not cross-check it against the key); and on the
/// rustls::Certificate and rustls::PrivateKey constructors to carry bytes.
#[verifier::external_body]
fn assemble_no_client_auth(cert_ders: Vec<Vec<u8>>, key_der: Vec<u8>) -> (r: Result<
    rustls::ServerConfig,
    rustls::Error,
>)
    ensures
        r is Ok <==> server_key_usable(key_der@),
{
    let chain: Vec<rustls::Certificate> =
        cert_ders.into_iter().map(rustls::Certificate).collect();
    rustls::ServerConfig::builder()
        .with_safe_defaults()
        .with_no_client_auth()
        .with_single_cert(chain, rustls::PrivateKey(key_der))
}

/// Relies on rustls::server::AllowAnyAuthenticatedClient over the given
/// roots — the verifier that rejects any peer whose certificate does not
/// chain to one of them — and on the same builder chain as
/// `assemble_no_client_auth`: `with_single_cert` succeeds or fails on the
/// private key bytes alone.
#[verifier::external_body]
fn assemble_require_client_auth(
    cert_ders: Vec<Vec<u8>>,
    key_der: Vec<u8>,
    roots: rustls::RootCertStore,
) -> (r: Result<rustls::ServerConfig, rustls::Error>)
    ensures
        r is Ok <==> server_key_usable(key_der@),
{
    let verifier = rustls::server::AllowAnyAuthenticatedClient::new(roots);
    let chain: Vec<rustls::Certificate> =
        cert_ders.into_iter().map(rustls::Certificate).collect();
    rustls::ServerConfig::builder()
        .with_safe_defaults()
        .with_client_cert_verifier(std::sync::Arc::new(verifier))
        .with_single_cert(chain, rustls::PrivateKey(key_der))
}

/// Relies on the `alpn_protocols` field of rustls::ServerConfig: installs
/// the advisory application-protocol preference list.
#[verifier::external_body]
fn set_alpn(config: &mut rustls::ServerConfig, protocols: Vec<Vec<u8>>) {
    config.alpn_protocols = protocols;
}

/// Relies on tokio_rustls::TlsAcceptor::from: wraps the finished
/// configuration into the reusable per-connection acceptor.
#[verifier::external_body]
fn make_acceptor(config: rustls::ServerConfig) -> tokio_rustls::TlsAcceptor {
    tokio_rustls::TlsAcceptor::from(std::sync::Arc::new(config))
}

/// Every certificate of the list is accepted as a trust anchor.
pub open spec fn all_trust_anchors_ok(certs: Seq<Seq<u8>>) -> bool {
    forall|i: int| 0 <= i < certs.len() ==> trust_anchor_ok(certs[i])
}

/// The chain file parses and yields at least one certificate.
pub open spec fn chain_material_ok(cert_pem: Seq<u8>) -> bool {
    pem_certs_of(cert_pem) is Some && pem_certs_of(cert_pem)->0.len() > 0
}

/// The key-selection policy over a key file's bytes: the first PKCS8 key
/// when that parse yields any; otherwise the first legacy RSA key; absent
/// when a parse fails or both lists are empty.
pub open spec fn selected_key(key_pem: Seq<u8>) -> Option<Seq<u8>> {
    match pkcs8_keys_of(key_pem) {
        Option::None => Option::None,
        Option::Some(keys) => if keys.len() > 0 {
            Option::Some(keys[0])
        } else {
            match rsa_keys_of(key_pem) {
                Option::None => Option::None,
                Option::Some(rkeys) => if rkeys.len() > 0 {
                    Option::Some(rkeys[0])
                } else {
                    Option::None
                },
            }
        },
    }
}

/// The CA file parses, yields at least one certificate, and every one of
/// them is accepted as a trust anchor.
pub open spec fn ca_roots_ok(ca_pem: Seq<u8>) -> bool {
    &&& pem_certs_of(ca_pem) is Some
    &&& pem_certs_of(ca_pem)->0.len() > 0
    &&& all_trust_anchors_ok(pem_certs_of(ca_pem)->0)
}

/// Mutual authentication is selected exactly when a CA file is supplied
/// and client certificates are required.
pub open spec fn mutual_auth_selected(ca_pem: Option<Seq<u8>>, require_client_cert: bool) -> bool {
    ca_pem is Some && require_client_cert
}

/// The authentication-policy inputs are acceptable: when mutual
/// authentication is selected the CA material must build a root set, and
/// otherwise anything goes.
pub open spec fn policy_ok(ca_pem: Option<Seq<u8>>, require_client_cert: bool) -> bool {
    mutual_auth_selected(ca_pem, require_client_cert) ==> ca_roots_ok(ca_pem->0)
}

/// All the conditions under which the whole build succeeds.
pub open spec fn build_ok(
    cert_pem: Seq<u8>,
    key_pem: Seq<u8>,
    ca_pem: Option<Seq<u8>>,
    require_client_cert: bool,
) -> bool {
    &&& chain_material_ok(cert_pem)
    &&& selected_key(key_pem) is Some
    &&& policy_ok(ca_pem, require_client_cert)
    &&& server_key_usable(selected_key(key_pem)->0)
}

/// The bytes of an optional PEM input.
pub open spec fn pem_opt(pem: Option<&Vec<u8>>) -> Option<Seq<u8>> {
    match pem {
        Option::Some(p) => Option::Some(p@),
        Option::None => Option::None,
    }
}

/// The client-authentication policy, chosen once at build time as a closed
/// tagged variant: the handshake verifier is selected by exhaustive match,
/// never by boolean flags threaded through call sites.
pub enum ClientAuthPolicy {
    /// Any peer may complete the handshake with server-side authentication
    /// alone.
    NoClientAuth,
    /// Only a peer presenting a certificate that chains to one of these
    /// roots may complete the handshake.
    RequireClientAuth(rustls::RootCertStore),
}

/// The assembled trust configuration: a reusable acceptor plus the policy
/// it was built with, safe for concurrent read-only use.
pub struct TrustConfiguration {
    /// Performs the handshake for each new connection without re-parsing
    /// any material.
    pub acceptor: tokio_rustls::TlsAcceptor,
    /// Whether the handshake demands a client certificate chaining to the
    /// configured roots.
    pub require_client_auth: bool,
}

/// Parses the server certificate chain file: fails with a `Certificate`
/// error exactly when the PEM is malformed or holds no certificate.
pub fn load_certificates(cert_pem: &Vec<u8>) -> (r: Result<Vec<Vec<u8>>, TrustError>)
    ensures
        r is Ok <==> chain_material_ok(cert_pem@),
        r is Ok ==> r->Ok_0.deep_view() == pem_certs_of(cert_pem@)->0,
        r is Err ==> r->Err_0 is Certificate,
{
    match pem_certs(cert_pem) {
        Result::Ok(certs) => {
            proof {
                assert(certs.deep_view().len() == certs@.len());
            }
            if certs.len() == 0 {
                Result::Err(TrustError::Certificate)
            } else {
                Result::Ok(certs)
            }
        },
        Result::Err(_) => Result::Err(TrustError::Certificate),
    }
}

/// Selects the private key from the key file's bytes: the first PKCS8 key
/// when that parse yields any, otherwise — the deliberate compatibility
/// fallback — the first legacy RSA key; fails with a `Certificate` error
/// exactly when a parse fails or neither format yields a key.
pub fn select_private_key(key_pem: &Vec<u8>) -> (r: Result<Vec<u8>, TrustError>)
    ensures
        r is Ok <==> selected_key(key_pem@) is Some,
        r is Ok ==> r->Ok_0@ == selected_key(key_pem@)->0,
        r is Err ==> r->Err_0 is Certificate,
{
    let mut keys = match pem_pkcs8_keys(key_pem) {
        Result::Ok(keys) => keys,
        Result::Err(_) => {
            return Result::Err(TrustError::Certificate);
        },
    };
    proof {
        assert(keys.deep_view().len() == keys@.len());
    }
    if keys.len() > 0 {
        let ghost orig = keys.deep_view();
        let key = keys.remove(0);
        proof {
            assert(key@ == orig[0]);
        }
        return Result::Ok(key);
    }
    let mut rkeys = match pem_rsa_keys(key_pem) {
        Result::Ok(rkeys) => rkeys,
        Result::Err(_) => {
            return Result::Err(TrustError::Certificate);
        },
    };
    proof {
        assert(rkeys.deep_view().len() == rkeys@.len());
    }
    if rkeys.len() > 0 {
        let ghost orig = rkeys.deep_view();
        let key = rkeys.remove(0);
        proof {
            assert(key@ == orig[0]);
        }
        return Result::Ok(key);
    }
    Result::Err(TrustError::Certificate)
}

/// Builds the trusted-root set from parsed CA certificates, failing with a
/// `Certificate` error exactly when some certificate is rejected as a
/// trust anchor.
pub fn build_root_store(ca_ders: &Vec<Vec<u8>>) -> (r: Result<rustls::RootCertStore, TrustError>)
    ensures
        r is Ok <==> all_trust_anchors_ok(ca_ders.deep_view()),
        r is Err ==> r->Err_0 is Certificate,
{
    let mut store = root_store_empty();
    let mut i: usize = 0;
    while i < ca_ders.len()
        invariant
            i <= ca_ders@.len(),
            forall|j: int| 0 <= j < i ==> trust_anchor_ok(ca_ders.deep_view()[j]),
        decreases ca_ders@.len() - i,
    {
        proof {
            assert(ca_ders.deep_view()[i as int] == ca_ders@[i as int]@);
        }
        match root_store_add(&mut store, &ca_ders[i]) {
            Result::Ok(_) => {},
            Result::Err(_) => {
                proof {
                    assert(!trust_anchor_ok(ca_ders.deep_view()[i as int]));
                }
                return Result::Err(TrustError::Certificate);
            },
        }
        i = i + 1;
    }
    Result::Ok(store)
}

/// Chooses the client-authentication policy. Mutual authentication — a CA
/// file together with `require_client_cert` — demands that the CA material
/// parse, be non-empty, and build a root set, and any failure there is a
/// `Certificate` error; in every other case no client certificate is
/// required and nothing can fail.
pub fn select_client_auth(ca_pem: Option<&Vec<u8>>, require_client_cert: bool) -> (r: Result<
    ClientAuthPolicy,
    TrustError,
>)
    ensures
        r is Ok <==> policy_ok(pem_opt(ca_pem), require_client_cert),
        r is Ok ==> (r->Ok_0 is RequireClientAuth <==> mutual_auth_selected(
            pem_opt(ca_pem),
            require_client_cert,
        )),
        r is Err ==> r->Err_0 is Certificate,
{
    match ca_pem {
        Option::Some(ca) => {
            if require_client_cert {
                let ca_certs = match load_certificates(ca) {
                    Result::Ok(certs) => certs,
                    Result::Err(e) => {
                        return Result::Err(e);
                    },
                };
                match build_root_store(&ca_certs) {
                    Result::Ok(store) => Result::Ok(ClientAuthPolicy::RequireClientAuth(store)),
                    Result::Err(e) => Result::Err(e),
                }
            } else {
                Result::Ok(ClientAuthPolicy::NoClientAuth)
            }
        },
        Option::None => Result::Ok(ClientAuthPolicy::NoClientAuth),
    }
}

/// The advisory application-protocol preference list: "h2", then
/// "http/1.1".
pub open spec fn alpn_preference() -> Seq<Seq<u8>> {
    seq![seq![104u8, 50u8], seq![104u8, 116u8, 116u8, 112u8, 47u8, 49u8, 46u8, 49u8]]
}

/// Builds the ALPN preference list, "h2" before "http/1.1".
fn alpn_protocols() -> (r: Vec<Vec<u8>>)
    ensures
        r.deep_view() == alpn_preference(),
{
    let mut h2: Vec<u8> = Vec::new();
    h2.push(104);
    h2.push(50);
    let mut h11: Vec<u8> = Vec::new();
    h11.push(104);
    h11.push(116);
    h11.push(116);
    h11.push(112);
    h11.push(47);
    h11.push(49);
    h11.push(46);
    h11.push(49);
    let mut r: Vec<Vec<u8>> = Vec::new();
    r.push(h2);
    r.push(h11);
    proof {
        assert(r.deep_view() =~~= alpn_preference());
    }
    r
}

/// Builds the whole server trust configuration from PEM bytes: the
/// certificate chain, the selected private key (PKCS8 first, legacy RSA as
/// fallback), and the client-authentication policy, assembled into a
/// reusable acceptor with the ALPN preference list installed. Succeeds
/// exactly when the chain parses non-empty, a key can be selected, the
/// policy inputs are acceptable, and rustls accepts the key; a rejected
/// key is the `Tls` error, every earlier failure the `Certificate` error.
pub fn load_tls_config(
    cert_pem: &Vec<u8>,
    key_pem: &Vec<u8>,
    ca_pem: Option<&Vec<u8>>,
    require_client_cert: bool,
) -> (r: Result<TrustConfiguration, TrustError>)
    ensures
        r is Ok <==> build_ok(cert_pem@, key_pem@, pem_opt(ca_pem), require_client_cert),
        r is Ok ==> r->Ok_0.require_client_auth == mutual_auth_selected(
            pem_opt(ca_pem),
            require_client_cert,
        ),
        r is Err ==> (r->Err_0 is Tls <==> chain_material_ok(cert_pem@) && selected_key(key_pem@)
            is Some && policy_ok(pem_opt(ca_pem), require_client_cert) && !server_key_usable(
            selected_key(key_pem@)->0,
        )),
        r is Err ==> (r->Err_0 is Certificate <==> !(chain_material_ok(cert_pem@) && selected_key(
            key_pem@,
        ) is Some && policy_ok(pem_opt(ca_pem), require_client_cert))),
{
    let certs = match load_certificates(cert_pem) {
        Result::Ok(certs) => certs,
        Result::Err(e) => {
            return Result::Err(e);
        },
    };
    let key = match select_private_key(key_pem) {
        Result::Ok(key) => key,
        Result::Err(e) => {
            return Result::Err(e);
        },
    };
    let policy = match select_client_auth(ca_pem, require_client_cert) {
        Result::Ok(policy) => policy,
        Result::Err(e) => {
            return Result::Err(e);
        },
    };
    let (config, require_client_auth) = match policy {
        ClientAuthPolicy::NoClientAuth => {
            match assemble_no_client_auth(certs, key) {
                Result::Ok(config) => (config, false),
                Result::Err(_) => {
                    return Result::Err(TrustError::Tls);
                },
            }
        },
        ClientAuthPolicy::RequireClientAuth(roots) => {
            match assemble_require_client_auth(certs, key, roots) {
                Result::Ok(config) => (config, true),
                Result::Err(_) => {
                    return Result::Err(TrustError::Tls);
                },
            }
        },
    };
    let mut config = config;
    set_alpn(&mut config, alpn_protocols());
    Result::Ok(TrustConfiguration { acceptor: make_acceptor(config), require_client_auth })
}

/// Law: a key file whose PKCS8 parse yields nothing but whose legacy RSA
/// parse yields a key selects that RSA key — the fallback accepts a
/// legacy-only file.
pub proof fn lemma_key_fallback(key_pem: Seq<u8>)
    requires
        pkcs8_keys_of(key_pem) == Option::Some(Seq::<Seq<u8>>::empty()),
        rsa_keys_of(key_pem) is Some,
        rsa_keys_of(key_pem)->0.len() > 0,
    ensures
        selected_key(key_pem) == Option::Some(rsa_keys_of(key_pem)->0[0]),
{
}

/// Law: two key files that select the same key bytes make the whole build
/// succeed or fail alike, whatever format each selection came from — a
/// legacy RSA file is as good as an equivalent PKCS8 one.
pub proof fn lemma_equivalent_keys_same_outcome(
    cert_pem: Seq<u8>,
    key_pem_a: Seq<u8>,
    key_pem_b: Seq<u8>,
    ca_pem: Option<Seq<u8>>,
    require_client_cert: bool,
)
    requires
        selected_key(key_pem_a) == selected_key(key_pem_b),
    ensures
        build_ok(cert_pem, key_pem_a, ca_pem, require_client_cert) == build_ok(
            cert_pem,
            key_pem_b,
            ca_pem,
            require_client_cert,
        ),
{
}

} // verus!
