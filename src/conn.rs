//! Connections and how they are established.
//!
//! Establishing a connection is a short plan of outside work (reading
//! certificate files, connecting, a TLS handshake) that a driver performs one
//! step at a time. [`ConnectionFuture::poll`] takes the outcome of the last
//! step and says what to do next, when the connection is ready, or that the
//! attempt has failed. Any failure is final: the future is consumed.
use vstd::prelude::*;
use std::collections::VecDeque;
use crate::error::IrcError;
use crate::line::{LineCodec, is_known_label, encode_ok, encoded};

verus! {

/// The settings that one connection attempt reads.
pub struct Config {
    /// The server's host name.
    pub server: Option<String>,
    /// The server's port.
    pub port: u16,
    /// The label of the character encoding of the line codec.
    pub encoding: String,
    /// Whether to connect over TLS.
    pub use_ssl: bool,
    /// Whether to use an in-memory stream instead of the network.
    pub use_mock_connection: bool,
    /// The text that an in-memory stream starts with.
    pub mock_initial_value: String,
    /// A DER certificate file to trust as a root.
    pub cert_path: Option<String>,
    /// A PKCS #12 file with the identity for client authentication.
    pub client_cert_path: Option<String>,
    /// The passphrase of the client identity file.
    pub client_cert_pass: String,
    /// Whether to accept any server certificate.
    pub insecure: bool,
}

/// One piece of outside work on the way to a connection.
#[derive(Debug, PartialEq, Eq)]
pub enum Step {
    /// Read the file at `path` whole and trust the DER certificate in it as a root.
    AddRootCertificate { path: String },
    /// Read the file at `path` whole and authenticate with the PKCS #12
    /// identity in it, opened with `passphrase`.
    UseClientIdentity { path: String, passphrase: String },
    /// Resolve `host` and open a TCP connection to it on `port`.
    Connect { host: String, port: u16 },
    /// Run a TLS handshake over the open connection, verifying the server as
    /// `domain` unless `accept_invalid_certs` is set.
    Handshake { domain: String, accept_invalid_certs: bool },
}

/// The three kinds of transport.
#[derive(Debug, Clone, Copy, PartialEq, Eq)]
pub enum ConnectionKind {
    Unsecured,
    Secured,
    Mock,
}

/// The kind of transport that a configuration asks for: an in-memory stream
/// first, then TLS, then plain TCP.
pub open spec fn kind_of(cfg: Config) -> ConnectionKind {
    if cfg.use_mock_connection {
        ConnectionKind::Mock
    } else if cfg.use_ssl {
        ConnectionKind::Secured
    } else {
        ConnectionKind::Unsecured
    }
}

/// The outside work, in order, that establishing a connection for `cfg` takes.
pub open spec fn plan(cfg: Config) -> Seq<Step> {
    let host = cfg.server->Some_0;
    let connect = Step::Connect { host: host, port: cfg.port };
    if cfg.use_mock_connection {
        seq![]
    } else if cfg.use_ssl {
        let roots = match cfg.cert_path {
            Some(p) => seq![Step::AddRootCertificate { path: p }],
            None => seq![],
        };
        let identity = match cfg.client_cert_path {
            Some(p) => seq![Step::UseClientIdentity { path: p, passphrase: cfg.client_cert_pass }],
            None => seq![],
        };
        roots + identity + seq![
            connect,
            Step::Handshake { domain: host, accept_invalid_certs: cfg.insecure },
        ]
    } else {
        seq![connect]
    }
}

/// A copy of `s`, equal to it.
fn copy_string(s: &String) -> (r: String)
    ensures
        r == *s,
{
    s.clone()
}

/// The plan for a network connection, as [`plan`] states it.
fn network_plan(cfg: &Config) -> (r: VecDeque<Step>)
    requires
        !cfg.use_mock_connection,
        cfg.server is Some,
    ensures
        r@ == plan(*cfg),
{
    let mut steps: VecDeque<Step> = VecDeque::new();
    let host = match &cfg.server {
        Some(h) => h,
        None => {
            return steps;
        },
    };
    if cfg.use_ssl {
        if let Some(p) = &cfg.cert_path {
            steps.push_back(Step::AddRootCertificate { path: copy_string(p) });
        }
        if let Some(p) = &cfg.client_cert_path {
            steps.push_back(
                Step::UseClientIdentity {
                    path: copy_string(p),
                    passphrase: copy_string(&cfg.client_cert_pass),
                },
            );
        }
        steps.push_back(Step::Connect { host: copy_string(host), port: cfg.port });
        steps.push_back(
            Step::Handshake { domain: copy_string(host), accept_invalid_certs: cfg.insecure },
        );
    } else {
        steps.push_back(Step::Connect { host: copy_string(host), port: cfg.port });
    }
    assert(steps@ =~= plan(*cfg));
    steps
}

/// A connection attempt in flight: the kind of transport it makes, the codec
/// it frames with, and the outside work still to do.
#[derive(Debug)]
pub struct ConnectionFuture {
    kind: ConnectionKind,
    codec: LineCodec,
    initial: Vec<u8>,
    pending: VecDeque<Step>,
}

/// What is ready when an attempt succeeds: the codec to frame the transport
/// with and, for an in-memory stream, the bytes that it starts with.
#[derive(Debug)]
pub enum Established {
    Unsecured(LineCodec),
    Secured(LineCodec),
    Mock(LineCodec, Vec<u8>),
}

/// What a poll of a connection attempt gives.
#[derive(Debug)]
pub enum Progress {
    /// Perform the step, then poll the attempt again with its outcome.
    Pending(Step, ConnectionFuture),
    /// The connection is ready.
    Ready(Established),
    /// The attempt has failed; it is over.
    Failed(IrcError),
}

impl ConnectionFuture {
    /// The kind of transport that the attempt makes.
    pub closed spec fn kind(&self) -> ConnectionKind {
        self.kind
    }

    /// The label of the encoding that the connection frames with.
    pub closed spec fn label(&self) -> Seq<char> {
        self.codec.label()
    }

    /// The bytes that an in-memory stream starts with.
    pub closed spec fn initial(&self) -> Seq<u8> {
        self.initial@
    }

    /// The outside work still to do, in order.
    pub closed spec fn pending(&self) -> Seq<Step> {
        self.pending@
    }

    /// Advances the attempt by the outcome of the last step handed out (`Ok`
    /// on the first poll): the next step, the ready connection once no step
    /// is left, or the failure that the outcome reports.
    pub fn poll(self, outcome: Result<(), IrcError>) -> (r: Progress)
        ensures
            outcome matches Err(e) ==> r == Progress::Failed(e),
            outcome is Ok && self.pending().len() > 0 ==> (r matches Progress::Pending(step, next)
                && step == self.pending()[0]
                && next.pending() == self.pending().drop_first()
                && next.kind() == self.kind()
                && next.label() == self.label()
                && next.initial() == self.initial()),
            outcome is Ok && self.pending().len() == 0 ==> (r matches Progress::Ready(est) && match est {
                Established::Unsecured(c) => self.kind() == ConnectionKind::Unsecured
                    && c.label() == self.label(),
                Established::Secured(c) => self.kind() == ConnectionKind::Secured
                    && c.label() == self.label(),
                Established::Mock(c, bytes) => self.kind() == ConnectionKind::Mock
                    && c.label() == self.label() && bytes@ == self.initial(),
            }),
    {
        let mut this = self;
        match outcome {
            Err(e) => Progress::Failed(e),
            Ok(()) => match this.pending.pop_front() {
                Some(step) => Progress::Pending(step, this),
                None => match this.kind {
                    ConnectionKind::Unsecured => Progress::Ready(Established::Unsecured(this.codec)),
                    ConnectionKind::Secured => Progress::Ready(Established::Secured(this.codec)),
                    ConnectionKind::Mock => Progress::Ready(Established::Mock(this.codec, this.initial)),
                },
            },
        }
    }
}

/// A connection over one of the three transports, each of which frames its
/// byte stream with a line codec.
pub enum Connection<U, S, M> {
    Unsecured(U),
    Secured(S),
    Mock(M),
}

impl<U, S, M> Connection<U, S, M> {
    /// Starts establishing a connection for `config`.
    ///
    /// The encoding is checked first, before any outside work. An in-memory
    /// connection needs no outside work: its initial text is encoded at once.
    /// A network connection needs a configured server.
    pub fn new(config: &Config) -> (r: Result<ConnectionFuture, IrcError>)
        ensures
            !is_known_label(config.encoding@) ==> r == Err::<ConnectionFuture, IrcError>(
                IrcError::UnknownCodec { codec: config.encoding },
            ),
            is_known_label(config.encoding@) && config.use_mock_connection ==> {
                if encode_ok(config.encoding@, config.mock_initial_value@) {
                    r matches Ok(f) && f.kind() == ConnectionKind::Mock && f.pending().len() == 0
                        && f.label() == config.encoding@
                        && f.initial() == encoded(config.encoding@, config.mock_initial_value@)
                } else {
                    r matches Err(IrcError::CodecFailed { codec, data }) && codec@
                        == config.encoding@ && data == config.mock_initial_value
                }
            },
            is_known_label(config.encoding@) && !config.use_mock_connection
                && config.server is None ==> r == Err::<ConnectionFuture, IrcError>(
                IrcError::MissingServer,
            ),
            is_known_label(config.encoding@) && !config.use_mock_connection
                && config.server is Some ==> (r matches Ok(f) && f.kind() == kind_of(*config)
                && f.pending() == plan(*config) && f.label() == config.encoding@),
    {
        let codec = match LineCodec::new(config.encoding.as_str()) {
            Ok(c) => c,
            Err(_) => {
                return Err(IrcError::UnknownCodec { codec: copy_string(&config.encoding) });
            },
        };
        if config.use_mock_connection {
            let mut initial: Vec<u8> = Vec::new();
            match codec.encode(copy_string(&config.mock_initial_value), &mut initial) {
                Ok(()) => {
                    assert(initial@ =~= encoded(config.encoding@, config.mock_initial_value@));
                    Ok(ConnectionFuture {
                        kind: ConnectionKind::Mock,
                        codec,
                        initial,
                        pending: VecDeque::new(),
                    })
                },
                Err(e) => Err(e),
            }
        } else if config.server.is_none() {
            Err(IrcError::MissingServer)
        } else {
            let kind = if config.use_ssl {
                ConnectionKind::Secured
            } else {
                ConnectionKind::Unsecured
            };
            Ok(ConnectionFuture { kind, codec, initial: Vec::new(), pending: network_plan(config) })
        }
    }

    /// The kind of transport of the connection.
    pub fn kind(&self) -> (r: ConnectionKind)
        ensures
            r == ConnectionKind::Unsecured <==> self is Unsecured,
            r == ConnectionKind::Secured <==> self is Secured,
            r == ConnectionKind::Mock <==> self is Mock,
    {
        match self {
            Connection::Unsecured(_) => ConnectionKind::Unsecured,
            Connection::Secured(_) => ConnectionKind::Secured,
            Connection::Mock(_) => ConnectionKind::Mock,
        }
    }

    /// The in-memory transport, whose log of what was written a test can
    /// read, if and only if this is an in-memory connection.
    pub fn log_view(&self) -> (r: Option<&M>)
        ensures
            r is Some <==> self is Mock,
            self matches Connection::Mock(m) ==> r == Some(m),
    {
        match self {
            Connection::Mock(inner) => Some(inner),
            _ => None,
        }
    }
}

/// With a root certificate configured for a TLS connection, reading it is the
/// first piece of outside work, and no connect comes before it: an attempt
/// whose certificate cannot be read fails without connecting.
pub proof fn lemma_root_certificate_before_connect(cfg: Config)
    requires
        !cfg.use_mock_connection,
        cfg.use_ssl,
        cfg.cert_path is Some,
    ensures
        plan(cfg).len() > 0,
        plan(cfg)[0] == (Step::AddRootCertificate { path: cfg.cert_path->Some_0 }),
        forall|i: int| 0 <= i < plan(cfg).len() && (#[trigger] plan(cfg)[i]) is Connect ==> i > 0,
{
}

} // verus!
