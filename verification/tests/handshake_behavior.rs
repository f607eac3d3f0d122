// Handshake behavior of the built trust configuration, exercised over an
// in-memory byte pipe: a server that does not require client certificates
// accepts an anonymous peer; one that does rejects a peer without a
// certificate chaining to the configured CA and accepts a peer with one.
//
// All certificates and keys are generated afresh at test time: an
// authority, a server certificate it signed (with a subject alternative
// name, so that a verifying client accepts it), a client certificate
// signed by the same authority, and a rogue self-signed one.

use std::sync::Arc;

use omnitak_trust::tls::load_tls_config;

fn new_ca() -> rcgen::Certificate {
    let mut params = rcgen::CertificateParams::new(Vec::<String>::new());
    params.distinguished_name = rcgen::DistinguishedName::new();
    params
        .distinguished_name
        .push(rcgen::DnType::CommonName, "test ca");
    params.is_ca = rcgen::IsCa::Ca(rcgen::BasicConstraints::Unconstrained);
    rcgen::Certificate::from_params(params).unwrap()
}

fn new_identity(name: &str) -> rcgen::Certificate {
    rcgen::Certificate::from_params(rcgen::CertificateParams::new(vec![name.to_string()]))
        .unwrap()
}

fn client_roots(ca_pem: &str) -> rustls::RootCertStore {
    let ders = rustls_pemfile::certs(&mut ca_pem.as_bytes()).unwrap();
    let mut roots = rustls::RootCertStore::empty();
    for der in ders {
        roots.add(&rustls::Certificate(der)).unwrap();
    }
    roots
}

/// Builds a mutual-TLS (or plain) server from freshly generated material
/// and runs one handshake against the given kind of client over an
/// in-memory pipe; reports whether the server side completed it. The
/// client kind is "anonymous", "chained" (a certificate signed by the
/// server's CA) or "rogue" (self-signed by an unrelated key).
fn server_accepts(require_client_cert: bool, client_kind: &str) -> bool {
    let ca = new_ca();
    let ca_pem = ca.serialize_pem().unwrap();
    let server = new_identity("localhost");
    let server_cert = server.serialize_pem_with_signer(&ca).unwrap().into_bytes();
    let server_key = server.serialize_private_key_pem().into_bytes();

    let ca_bytes = ca_pem.clone().into_bytes();
    let ca_arg = if require_client_cert { Some(&ca_bytes) } else { None };
    let config = load_tls_config(&server_cert, &server_key, ca_arg, require_client_cert).unwrap();
    assert_eq!(config.require_client_auth, require_client_cert);
    let acceptor = config.acceptor;

    let builder = rustls::ClientConfig::builder()
        .with_safe_defaults()
        .with_root_certificates(client_roots(&ca_pem));
    let client_config = match client_kind {
        "anonymous" => builder.with_no_client_auth(),
        "chained" => {
            let client = new_identity("client");
            builder
                .with_client_auth_cert(
                    vec![rustls::Certificate(client.serialize_der_with_signer(&ca).unwrap())],
                    rustls::PrivateKey(client.serialize_private_key_der()),
                )
                .unwrap()
        }
        _ => {
            let rogue = new_identity("rogue");
            builder
                .with_client_auth_cert(
                    vec![rustls::Certificate(rogue.serialize_der().unwrap())],
                    rustls::PrivateKey(rogue.serialize_private_key_der()),
                )
                .unwrap()
        }
    };

    let runtime = tokio::runtime::Builder::new_current_thread().build().unwrap();
    runtime.block_on(async move {
        let (client_io, server_io) = tokio::io::duplex(64 * 1024);
        let server_task = tokio::spawn(async move { acceptor.accept(server_io).await });
        let connector = tokio_rustls::TlsConnector::from(Arc::new(client_config));
        let name = rustls::ServerName::try_from("localhost").unwrap();
        // The client may fail once the server rejects; only the server
        // side decides the property under test. Its stream is kept alive
        // until the server is done with the pipe.
        let client_side = connector.connect(name, client_io).await;
        let accepted = server_task.await.unwrap().is_ok();
        drop(client_side);
        accepted
    })
}

#[test]
fn server_without_client_auth_accepts_anonymous_peer() {
    assert!(server_accepts(false, "anonymous"));
}

#[test]
fn mutual_auth_server_rejects_anonymous_peer() {
    assert!(!server_accepts(true, "anonymous"));
}

#[test]
fn mutual_auth_server_rejects_unchained_certificate() {
    assert!(!server_accepts(true, "rogue"));
}

#[test]
fn mutual_auth_server_accepts_chained_certificate() {
    assert!(server_accepts(true, "chained"));
}
