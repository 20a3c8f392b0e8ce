use http_data::Connection;
use http_data::Headers;
use http_data::MethodAccessor;
use http_data::SocketAddress;
use http_data::TlsVersion;
use http_data::UriAccessor;

/// A source that commits to text for every channel at its definition
/// site, so no negotiation happens at call time.
struct TextSource {
    method: String,
    uri: String,
    headers: Vec<(String, String)>,
    client: SocketAddress,
    server: SocketAddress,
    tls: Option<TlsVersion>,
}

fn sample() -> TextSource {
    TextSource {
        method: "POST".to_string(),
        uri: "/submit".to_string(),
        headers: vec![("accept".to_string(), "*/*".to_string())],
        client: SocketAddress {
            octets: vec![0, 0, 0, 0, 0, 0, 0, 0, 0, 0, 0, 0, 0, 0, 0, 1],
            port: 3000,
        },
        server: SocketAddress {
            octets: vec![0, 0, 0, 0, 0, 0, 0, 0, 0, 0, 0, 0, 0, 0, 0, 1],
            port: 3001,
        },
        tls: None,
    }
}

impl MethodAccessor<String> for TextSource {
    fn method(&self) -> String {
        self.method.clone()
    }
}

impl UriAccessor<String> for TextSource {
    fn uri(&self) -> String {
        self.uri.clone()
    }
}

impl Headers<String, String> for TextSource {
    fn headers(&self) -> Vec<(String, String)> {
        self.headers.clone()
    }
}

impl Connection<SocketAddress> for TextSource {
    // Ghost member of the trait; nothing calls it at run time.
    fn tls_version_spec(&self) -> Option<TlsVersion> {
        self.tls
    }

    fn client_socket(&self) -> SocketAddress {
        self.client.clone()
    }

    fn server_socket(&self) -> SocketAddress {
        self.server.clone()
    }

    fn tls_version(&self) -> Option<TlsVersion> {
        self.tls
    }
}

#[test]
fn test_fixed_representation_accessors() {
    let source = sample();
    assert_eq!(MethodAccessor::<String>::method(&source), "POST");
    assert_eq!(UriAccessor::<String>::uri(&source), "/submit");
    assert_eq!(
        Headers::<String, String>::headers(&source),
        vec![("accept".to_string(), "*/*".to_string())]
    );
}

#[test]
fn test_connection_accessor_and_derived_is_tls() {
    let mut source = sample();
    assert_eq!(source.client_socket().port, 3000);
    assert_eq!(source.server_socket().port, 3001);
    assert_eq!(source.client_socket().octets.len(), 16);
    assert!(!source.is_tls());
    source.tls = Some(TlsVersion::Unknown(0x0305));
    assert!(source.is_tls());
    assert_eq!(source.tls_version(), Some(TlsVersion::Unknown(0x0305)));
}
