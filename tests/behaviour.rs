use http_transport::redirect::MAX_REDIRECTS;
use http_transport::{
    Action, Backend, CertificateStore, Error, HeaderSet, HttpTransportClient, Location, ReadError,
    RedirectCursor, TlsSupport,
};

fn client_for(target: &str, http_only: bool) -> HttpTransportClient<Backend> {
    HttpTransportClient::new(
        80,
        target,
        80,
        CertificateStore::Native,
        80,
        Vec::new(),
        |b| b,
        http_only,
        TlsSupport::full(),
    )
    .unwrap()
}

fn pairs(h: &HeaderSet) -> Vec<(String, String)> {
    h.entries().clone()
}

#[test]
fn backend_follows_scheme_and_store() {
    assert_eq!(client_for("http://localhost", false).backend, Backend::Plain);
    assert_eq!(
        client_for("https://localhost", false).backend,
        Backend::Tls(CertificateStore::Native)
    );
    let c = HttpTransportClient::new(
        80,
        "https://localhost",
        80,
        CertificateStore::WebPki,
        80,
        Vec::new(),
        |b| b,
        false,
        TlsSupport::full(),
    )
    .unwrap();
    assert_eq!(c.client, Backend::Tls(CertificateStore::WebPki));
}

#[test]
fn unavailable_store_is_refused() {
    let tls = TlsSupport { native_roots: false, webpki_roots: true };
    let err = HttpTransportClient::new(
        80,
        "https://localhost",
        80,
        CertificateStore::Native,
        80,
        Vec::new(),
        |b| b,
        false,
        tls,
    )
    .unwrap_err();
    assert!(matches!(err, Error::InvalidCertficateStore));
}

#[test]
fn target_without_host_is_refused() {
    let err = HttpTransportClient::new(
        80,
        "unix:/run/socket",
        80,
        CertificateStore::Native,
        80,
        Vec::new(),
        |b| b,
        false,
        TlsSupport::full(),
    )
    .unwrap_err();
    assert!(matches!(err, Error::Url(_)));
    let err = HttpTransportClient::new(
        80,
        "not a url",
        80,
        CertificateStore::Native,
        80,
        Vec::new(),
        |b| b,
        false,
        TlsSupport::full(),
    )
    .unwrap_err();
    assert!(matches!(err, Error::Url(_)));
}

#[test]
fn other_schemes_are_refused() {
    for t in ["ftp://localhost/", "wss://localhost:9944", "file://host/x"] {
        let err = HttpTransportClient::new(
            80,
            t,
            80,
            CertificateStore::Native,
            80,
            Vec::new(),
            |b| b,
            false,
            TlsSupport::full(),
        )
        .unwrap_err();
        assert!(matches!(err, Error::Url(_)));
    }
}

#[test]
fn default_headers_come_first_and_custom_ones_overwrite_in_place() {
    let custom = vec![
        ("x-trace".to_string(), "1".to_string()),
        ("content-type".to_string(), "text/plain".to_string()),
        ("x-trace".to_string(), "2".to_string()),
    ];
    let c = HttpTransportClient::new(
        80,
        "http://localhost",
        80,
        CertificateStore::Native,
        80,
        custom,
        |b| b,
        false,
        TlsSupport::full(),
    )
    .unwrap();
    assert_eq!(
        pairs(&c.headers),
        vec![
            ("content-type".to_string(), "text/plain".to_string()),
            ("accept".to_string(), "application/json".to_string()),
            ("x-trace".to_string(), "2".to_string()),
        ]
    );
}

#[test]
fn cached_headers_without_custom_ones() {
    let h = HeaderSet::cached(&Vec::new());
    assert_eq!(
        pairs(&h),
        vec![
            ("content-type".to_string(), "application/json".to_string()),
            ("accept".to_string(), "application/json".to_string()),
        ]
    );
}

#[test]
fn body_at_the_limit_is_sent() {
    let c = client_for("http://localhost:9933", false);
    let cursor = c.start_send(&"a".repeat(80)).unwrap();
    assert_eq!(cursor.target, "http://localhost:9933/");
    assert_eq!(cursor.attempts, 0);
}

#[test]
fn redirects_stop_at_the_bound() {
    let c = client_for("http://localhost", false);
    let mut cursor = c.start_send("{}").unwrap();
    let mut attempts = 0;
    let err = loop {
        match cursor.next_attempt(false) {
            Ok(_) => attempts += 1,
            Err(e) => break e,
        }
        let next = format!("http://localhost/{}", attempts);
        assert!(matches!(cursor.on_response(302, Location::Text(next)), Action::Follow));
    };
    assert_eq!(attempts, 32);
    assert_eq!(MAX_REDIRECTS, 32);
    assert!(matches!(err, Error::TooManyRedirects));
}

#[test]
fn redirect_without_location_fails_with_its_status() {
    let c = client_for("http://localhost", false);
    let mut cursor = c.start_send("{}").unwrap();
    cursor.next_attempt(false).unwrap();
    match cursor.on_response(301, Location::Absent) {
        Action::Fail(Error::RequestFailure { status_code }) => assert_eq!(status_code, 301),
        other => panic!("unexpected {:?}", other),
    }
    assert_eq!(cursor.target, "http://localhost/");
}

#[test]
fn unreadable_location_is_a_url_error() {
    let mut cursor = RedirectCursor { target: "http://localhost/".to_string(), attempts: 1 };
    match cursor.on_response(307, Location::Invalid("bad byte".to_string())) {
        Action::Fail(Error::Url(m)) => assert_eq!(m, "Invalid redirect URL: bad byte"),
        other => panic!("unexpected {:?}", other),
    }
}

#[test]
fn success_and_failure_statuses() {
    let mut cursor = RedirectCursor { target: "http://localhost/".to_string(), attempts: 1 };
    assert!(matches!(cursor.on_response(200, Location::Absent), Action::Success));
    assert!(matches!(
        cursor.on_response(204, Location::Text("http://elsewhere/".to_string())),
        Action::Success
    ));
    assert!(matches!(
        cursor.on_response(404, Location::Text("http://elsewhere/".to_string())),
        Action::Fail(Error::RequestFailure { status_code: 404 })
    ));
    assert!(matches!(
        cursor.on_response(500, Location::Absent),
        Action::Fail(Error::RequestFailure { status_code: 500 })
    ));
    assert_eq!(cursor.target, "http://localhost/");
}

#[test]
fn http_only_downgrades_target_and_redirect() {
    let c = client_for("https://host/a", true);
    let mut cursor = c.start_send("{}").unwrap();
    assert_eq!(cursor.next_attempt(c.http_only).unwrap(), "http://host/a");
    assert!(matches!(
        cursor.on_response(302, Location::Text("https://host/b".to_string())),
        Action::Follow
    ));
    assert_eq!(cursor.next_attempt(c.http_only).unwrap(), "http://host/b");
    assert!(matches!(cursor.on_response(200, Location::Absent), Action::Success));
    assert_eq!(cursor.attempts, 2);
}

#[test]
fn without_http_only_https_is_kept() {
    let c = client_for("https://host/a", false);
    let mut cursor = c.start_send("{}").unwrap();
    assert_eq!(cursor.next_attempt(c.http_only).unwrap(), "https://host/a");
}

#[test]
fn cursors_of_cloned_clients_are_independent() {
    let c = client_for("http://host/a", false);
    let d = c.clone();
    let mut first = c.start_send("{}").unwrap();
    let mut second = d.start_send("{}").unwrap();
    first.next_attempt(false).unwrap();
    assert!(matches!(
        first.on_response(302, Location::Text("http://other/".to_string())),
        Action::Follow
    ));
    assert_eq!(second.next_attempt(false).unwrap(), "http://host/a");
    assert_eq!(c.target, "http://host/a");
    assert_eq!(d.target, "http://host/a");
    assert_eq!(first.target, "http://other/");
}

#[test]
fn read_errors_map_to_transport_errors() {
    assert!(matches!(Error::from(ReadError::TooLarge), Error::RequestTooLarge));
    assert!(matches!(Error::from(ReadError::Malformed), Error::Malformed));
    match Error::from(ReadError::Stream("reset".to_string())) {
        Error::Http(m) => assert_eq!(m, "reset"),
        other => panic!("unexpected {:?}", other),
    }
}
