use irc::conn::{
    Config, Connection, ConnectionFuture, ConnectionKind, Established, Progress, Step,
};
use irc::error::IrcError;

type Conn = Connection<u8, u16, Vec<u8>>;

fn config() -> Config {
    Config {
        server: Some("irc.example.org".to_string()),
        port: 6697,
        encoding: "utf8".to_string(),
        use_ssl: false,
        use_mock_connection: false,
        mock_initial_value: String::new(),
        cert_path: None,
        client_cert_path: None,
        client_cert_pass: String::new(),
        insecure: false,
    }
}

fn start(cfg: &Config) -> ConnectionFuture {
    Conn::new(cfg).unwrap()
}

fn expect_step(p: Progress) -> (Step, ConnectionFuture) {
    match p {
        Progress::Pending(step, next) => (step, next),
        other => panic!("expected a step, got {:?}", other),
    }
}

#[test]
fn mock_connection_reads_initial_line() {
    let mut cfg = config();
    cfg.use_mock_connection = true;
    cfg.mock_initial_value = "hello\n".to_string();
    match start(&cfg).poll(Ok(())) {
        Progress::Ready(Established::Mock(codec, mut bytes)) => {
            assert_eq!(bytes, b"hello\n".to_vec());
            assert_eq!(codec.decode(&mut bytes), Some("hello".to_string()));
        }
        other => panic!("expected a mock connection, got {:?}", other),
    }
}

#[test]
fn mock_connection_encodes_initial_value() {
    let mut cfg = config();
    cfg.use_mock_connection = true;
    cfg.use_ssl = true;
    cfg.server = None;
    cfg.encoding = "latin1".to_string();
    cfg.mock_initial_value = "\u{e9}\n".to_string();
    match start(&cfg).poll(Ok(())) {
        Progress::Ready(Established::Mock(_, bytes)) => assert_eq!(bytes, vec![0xe9, b'\n']),
        other => panic!("expected a mock connection, got {:?}", other),
    }
}

#[test]
fn unknown_encoding_fails_before_any_step() {
    for (mock, ssl) in [(true, false), (false, true), (false, false)] {
        let mut cfg = config();
        cfg.encoding = "no-such-encoding".to_string();
        cfg.use_mock_connection = mock;
        cfg.use_ssl = ssl;
        cfg.cert_path = Some("/missing/root.der".to_string());
        match Conn::new(&cfg) {
            Err(IrcError::UnknownCodec { codec }) => assert_eq!(codec, "no-such-encoding"),
            other => panic!("expected an unknown codec, got {:?}", other),
        }
    }
}

#[test]
fn missing_server_is_an_error() {
    let mut cfg = config();
    cfg.server = None;
    assert!(matches!(Conn::new(&cfg), Err(IrcError::MissingServer)));
}

#[test]
fn plain_connection_connects_then_is_ready() {
    let cfg = config();
    let (step, fut) = expect_step(start(&cfg).poll(Ok(())));
    assert_eq!(step, Step::Connect { host: "irc.example.org".to_string(), port: 6697 });
    match fut.poll(Ok(())) {
        Progress::Ready(Established::Unsecured(codec)) => assert_eq!(codec.encoding_label(), "utf8"),
        other => panic!("expected a plain connection, got {:?}", other),
    }
}

#[test]
fn plain_connect_failure_is_final() {
    let cfg = config();
    let (_, fut) = expect_step(start(&cfg).poll(Ok(())));
    let err = IrcError::Io { message: "connection refused".to_string() };
    match fut.poll(Err(err)) {
        Progress::Failed(e) => {
            assert_eq!(e, IrcError::Io { message: "connection refused".to_string() })
        }
        other => panic!("expected a failure, got {:?}", other),
    }
}

#[test]
fn tls_connection_steps_in_order() {
    let mut cfg = config();
    cfg.use_ssl = true;
    cfg.cert_path = Some("root.der".to_string());
    cfg.client_cert_path = Some("client.p12".to_string());
    cfg.client_cert_pass = "secret".to_string();
    cfg.insecure = true;
    let mut fut = start(&cfg);
    let mut steps = Vec::new();
    loop {
        match fut.poll(Ok(())) {
            Progress::Pending(step, next) => {
                steps.push(step);
                fut = next;
            }
            Progress::Ready(est) => {
                assert!(matches!(est, Established::Secured(_)));
                break;
            }
            Progress::Failed(e) => panic!("unexpected failure {:?}", e),
        }
    }
    assert_eq!(
        steps,
        vec![
            Step::AddRootCertificate { path: "root.der".to_string() },
            Step::UseClientIdentity {
                path: "client.p12".to_string(),
                passphrase: "secret".to_string(),
            },
            Step::Connect { host: "irc.example.org".to_string(), port: 6697 },
            Step::Handshake { domain: "irc.example.org".to_string(), accept_invalid_certs: true },
        ]
    );
}

#[test]
fn tls_without_files_connects_first() {
    let mut cfg = config();
    cfg.use_ssl = true;
    let (step, fut) = expect_step(start(&cfg).poll(Ok(())));
    assert!(matches!(step, Step::Connect { .. }));
    let (step, _) = expect_step(fut.poll(Ok(())));
    assert_eq!(
        step,
        Step::Handshake { domain: "irc.example.org".to_string(), accept_invalid_certs: false }
    );
}

#[test]
fn missing_root_certificate_fails_before_connect() {
    let mut cfg = config();
    cfg.use_ssl = true;
    cfg.cert_path = Some("/no/such/root.der".to_string());
    let (step, fut) = expect_step(start(&cfg).poll(Ok(())));
    assert_eq!(step, Step::AddRootCertificate { path: "/no/such/root.der".to_string() });
    let outcome = Err(IrcError::Io { message: "No such file or directory".to_string() });
    match fut.poll(outcome) {
        Progress::Failed(IrcError::Io { .. }) => {}
        other => panic!("expected an I/O failure, got {:?}", other),
    }
}

#[test]
fn log_view_only_for_mock() {
    let mock: Conn = Connection::Mock(b"PING\n".to_vec());
    assert_eq!(mock.log_view(), Some(&b"PING\n".to_vec()));
    assert_eq!(mock.kind(), ConnectionKind::Mock);
    let plain: Conn = Connection::Unsecured(1);
    assert_eq!(plain.log_view(), None);
    assert_eq!(plain.kind(), ConnectionKind::Unsecured);
    let tls: Conn = Connection::Secured(2);
    assert_eq!(tls.log_view(), None);
    assert_eq!(tls.kind(), ConnectionKind::Secured);
}
