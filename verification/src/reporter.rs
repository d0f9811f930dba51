use vstd::prelude::*;

verus! {

/// Where reports would be sent: a metrics store by protocol, host and port,
/// with the credentials and the database to use there.
#[derive(Debug, Clone, PartialEq, Eq)]
pub struct Reporter {
    protocol: String,
    host: String,
    port: u16,
    username: String,
    password: String,
    database: String,
}

/// A reporter as plain values.
pub struct ReporterView {
    pub protocol: Seq<char>,
    pub host: Seq<char>,
    pub port: u16,
    pub username: Seq<char>,
    pub password: Seq<char>,
    pub database: Seq<char>,
}

impl View for Reporter {
    type V = ReporterView;

    closed spec fn view(&self) -> ReporterView {
        ReporterView {
            protocol: self.protocol@,
            host: self.host@,
            port: self.port,
            username: self.username@,
            password: self.password@,
            database: self.database@,
        }
    }
}

impl Reporter {
    /// A reporter for the store at `host` and `port`, spoken to over
    /// `protocol`, with no credentials and no database chosen yet.
    pub fn new(protocol: String, host: String, port: u16) -> (reporter: Reporter)
        ensures
            reporter@ == (ReporterView {
                protocol: protocol@,
                host: host@,
                port,
                username: Seq::empty(),
                password: Seq::empty(),
                database: Seq::empty(),
            }),
    {
        Reporter {
            protocol,
            host,
            port,
            username: String::new(),
            password: String::new(),
            database: String::new(),
        }
    }

    /// The protocol to speak.
    pub fn protocol(&self) -> (protocol: &str)
        ensures
            protocol@ == self@.protocol,
    {
        self.protocol.as_str()
    }

    /// The host of the store.
    pub fn host(&self) -> (host: &str)
        ensures
            host@ == self@.host,
    {
        self.host.as_str()
    }

    /// The port of the store.
    pub fn port(&self) -> (port: u16)
        ensures
            port == self@.port,
    {
        self.port
    }
}

} // verus!
