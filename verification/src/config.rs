//! The configuration, and the socket addresses that it names.
use vstd::prelude::*;
use vstd::string::StringExecFns;

verus! {

/// The whole configuration of a process.
#[derive(Debug, Clone)]
pub struct Config {
    pub database: Database,
    pub http_server: HttpServer,
    pub quic_client: QuicClient,
    pub quic_server: QuicServer,
}

/// Where the store of server registrations is reached.
#[derive(Debug, Clone)]
pub struct Database {
    pub database_name: String,
    pub host: String,
    pub password: String,
    pub port: u16,
    pub require_ssl: bool,
    pub username: String,
    pub migration: DatabaseMigration,
}

/// Whether and from where the store is migrated at startup.
#[derive(Debug, Clone)]
pub struct DatabaseMigration {
    pub migrate: bool,
    pub create_database: bool,
    pub path: String,
}

/// Where the health-check endpoint listens.
#[derive(Debug, Clone)]
pub struct HttpServer {
    pub host: String,
    pub port: u16,
}

/// Where the client-role endpoint binds, and the credential files it names.
#[derive(Debug, Clone)]
pub struct QuicClient {
    pub host: String,
    pub port: u16,
    pub certificate: String,
    pub private_key: String,
}

/// Where the server-role endpoint listens, the credential files it loads,
/// and the name under which its certificate is validated.
#[derive(Debug, Clone)]
pub struct QuicServer {
    pub host: String,
    pub port: u16,
    pub certificate: String,
    pub private_key: String,
    pub name: String,
}

/// The decimal digit for a number below ten.
pub open spec fn digit(d: nat) -> Seq<char> {
    if d == 0 {
        "0"@
    } else if d == 1 {
        "1"@
    } else if d == 2 {
        "2"@
    } else if d == 3 {
        "3"@
    } else if d == 4 {
        "4"@
    } else if d == 5 {
        "5"@
    } else if d == 6 {
        "6"@
    } else if d == 7 {
        "7"@
    } else if d == 8 {
        "8"@
    } else {
        "9"@
    }
}

/// A number in decimal, without leading zeros.
pub open spec fn decimal(n: nat) -> Seq<char>
    decreases n,
{
    if n < 10 {
        digit(n)
    } else {
        decimal(n / 10) + digit(n % 10)
    }
}

/// The socket address `host:port` as text.
pub open spec fn address_of(host: Seq<char>, port: u16) -> Seq<char> {
    host + ":"@ + decimal(port as nat)
}

/// The decimal digit for a number below ten.
fn digit_text(d: u16) -> (r: &'static str)
    requires
        d < 10,
    ensures
        r@ == digit(d as nat),
{
    if d == 0 {
        "0"
    } else if d == 1 {
        "1"
    } else if d == 2 {
        "2"
    } else if d == 3 {
        "3"
    } else if d == 4 {
        "4"
    } else if d == 5 {
        "5"
    } else if d == 6 {
        "6"
    } else if d == 7 {
        "7"
    } else if d == 8 {
        "8"
    } else {
        "9"
    }
}

/// Appends `n` in decimal to `text`.
fn append_decimal(text: String, n: u16) -> (r: String)
    ensures
        r@ == text@ + decimal(n as nat),
    decreases n,
{
    if n < 10 {
        text.concat(digit_text(n))
    } else {
        let head = append_decimal(text, n / 10);
        let whole = head.concat(digit_text(n % 10));
        assert(whole@ =~= text@ + decimal(n as nat));
        whole
    }
}

/// The socket address `host:port` as text.
pub fn socket_address(host: &String, port: u16) -> (r: String)
    ensures
        r@ == address_of(host@, port),
{
    let prefix = host.clone().concat(":");
    append_decimal(prefix, port)
}

impl HttpServer {
    /// The address on which the health-check endpoint listens.
    pub fn address(&self) -> (r: String)
        ensures
            r@ == address_of(self.host@, self.port),
    {
        socket_address(&self.host, self.port)
    }
}

impl QuicClient {
    /// The address to which the client-role endpoint binds.
    pub fn address(&self) -> (r: String)
        ensures
            r@ == address_of(self.host@, self.port),
    {
        socket_address(&self.host, self.port)
    }
}

impl QuicServer {
    /// The address on which the server-role endpoint listens, and to which a
    /// client connects.
    pub fn address(&self) -> (r: String)
        ensures
            r@ == address_of(self.host@, self.port),
    {
        socket_address(&self.host, self.port)
    }
}

} // verus!
