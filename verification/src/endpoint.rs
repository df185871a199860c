//! What an endpoint manager decides: which credential a PEM text holds, and
//! how the accept loop of a server and the connect loop of a client go on
//! after each attempt.
//!
//! Reading PEM text is `rustls_pemfile`'s work; what the first section of a
//! text must be for each use is decided and proved here.
use crate::error::{CredentialError, Fault};
use vstd::prelude::*;

verus! {

/// What the first recognised section of a PEM text is.
#[derive(Debug)]
pub enum Section {
    /// An X.509 certificate, as DER.
    Certificate(Vec<u8>),
    /// An RSA private key (PKCS#1), as DER.
    RsaKey(Vec<u8>),
    /// A private key in PKCS#8, as DER.
    Pkcs8Key(Vec<u8>),
    /// An elliptic-curve private key (SEC1), as DER.
    EcKey(Vec<u8>),
    /// A section of another kind.
    Other,
    /// The text holds no section.
    Nothing,
    /// The text is broken: a section does not end, or is no base64.
    Broken,
}

/// What `rustls_pemfile::read_one` finds at the start of `pem`.
pub uninterp spec fn first_section(pem: Seq<u8>) -> Section;

/// `rustls_pemfile::read_one` on a byte slice: the first recognised section
/// of the text. What it finds depends on the bytes alone; `first_section`
/// names it.
#[verifier::external_body]
pub(crate) fn read_section(pem: &[u8]) -> (r: Section)
    ensures
        r == first_section(pem@),
{
    let mut reader = pem;
    match rustls_pemfile::read_one(&mut reader) {
        Ok(Some(rustls_pemfile::Item::X509Certificate(der))) => Section::Certificate(der),
        Ok(Some(rustls_pemfile::Item::RSAKey(der))) => Section::RsaKey(der),
        Ok(Some(rustls_pemfile::Item::PKCS8Key(der))) => Section::Pkcs8Key(der),
        Ok(Some(rustls_pemfile::Item::ECKey(der))) => Section::EcKey(der),
        Ok(Some(_)) => Section::Other,
        Ok(None) => Section::Nothing,
        Err(_) => Section::Broken,
    }
}

/// The certificate that a section gives, or why it gives none.
pub open spec fn certificate_of(section: Section) -> Result<Vec<u8>, Fault> {
    match section {
        Section::Certificate(der) => Ok(der),
        Section::Nothing => Err(Fault::Credential(CredentialError::Missing)),
        Section::Broken => Err(Fault::Credential(CredentialError::Unreadable)),
        _ => Err(Fault::Credential(CredentialError::WrongKind)),
    }
}

/// The private key that a section gives, or why it gives none.
pub open spec fn private_key_of(section: Section) -> Result<Vec<u8>, Fault> {
    match section {
        Section::RsaKey(der) => Ok(der),
        Section::Pkcs8Key(der) => Ok(der),
        Section::EcKey(der) => Ok(der),
        Section::Nothing => Err(Fault::Credential(CredentialError::Missing)),
        Section::Broken => Err(Fault::Credential(CredentialError::Unreadable)),
        _ => Err(Fault::Credential(CredentialError::WrongKind)),
    }
}

/// Takes the certificate out of a section. Only a certificate section gives
/// one.
pub fn certificate_in(section: Section) -> (r: Result<Vec<u8>, Fault>)
    ensures
        r == certificate_of(section),
{
    match section {
        Section::Certificate(der) => Ok(der),
        Section::Nothing => Err(Fault::Credential(CredentialError::Missing)),
        Section::Broken => Err(Fault::Credential(CredentialError::Unreadable)),
        _ => Err(Fault::Credential(CredentialError::WrongKind)),
    }
}

/// Takes the private key out of a section. A key section of any of the three
/// kinds gives one.
pub fn private_key_in(section: Section) -> (r: Result<Vec<u8>, Fault>)
    ensures
        r == private_key_of(section),
{
    match section {
        Section::RsaKey(der) => Ok(der),
        Section::Pkcs8Key(der) => Ok(der),
        Section::EcKey(der) => Ok(der),
        Section::Nothing => Err(Fault::Credential(CredentialError::Missing)),
        Section::Broken => Err(Fault::Credential(CredentialError::Unreadable)),
        _ => Err(Fault::Credential(CredentialError::WrongKind)),
    }
}

/// The credential material of a server: its certificate and its private key,
/// both as DER.
#[derive(Debug)]
pub struct ServerCredentials {
    pub certificate: Vec<u8>,
    pub private_key: Vec<u8>,
}

/// The credentials that two PEM texts give a server, or why they give none.
/// A fault of the certificate comes before one of the key.
pub open spec fn server_credentials_of(certificate: Section, private_key: Section) -> Result<
    ServerCredentials,
    Fault,
> {
    match certificate_of(certificate) {
        Ok(certificate) => match private_key_of(private_key) {
            Ok(private_key) => Ok(ServerCredentials { certificate, private_key }),
            Err(fault) => Err(fault),
        },
        Err(fault) => Err(fault),
    }
}

/// Loads the trusted root of a client from the PEM text of the server's
/// certificate file.
pub fn load_client_trust_root(certificate_pem: &[u8]) -> (r: Result<Vec<u8>, Fault>)
    ensures
        r == certificate_of(first_section(certificate_pem@)),
{
    certificate_in(read_section(certificate_pem))
}

/// Loads the credentials of a server from the PEM texts of its certificate
/// file and its private key file.
pub fn load_server_credentials(certificate_pem: &[u8], private_key_pem: &[u8]) -> (r: Result<
    ServerCredentials,
    Fault,
>)
    ensures
        r == server_credentials_of(
            first_section(certificate_pem@),
            first_section(private_key_pem@),
        ),
{
    let certificate = match certificate_in(read_section(certificate_pem)) {
        Ok(certificate) => certificate,
        Err(fault) => return Err(fault),
    };
    let private_key = match private_key_in(read_section(private_key_pem)) {
        Ok(private_key) => private_key,
        Err(fault) => return Err(fault),
    };
    Ok(ServerCredentials { certificate, private_key })
}

/// The part that an endpoint manager plays.
#[derive(Debug, Clone, Copy, PartialEq, Eq, Structural)]
pub enum Role {
    /// Connects to one peer, again and again.
    Client,
    /// Accepts the connections of many peers.
    Server,
}

/// How one turn of an endpoint manager's loop ended.
#[derive(Debug, Clone, Copy, PartialEq, Eq, Structural)]
pub enum Attempt {
    /// A connect or a handshake failed.
    HandshakeFailed,
    /// A session ran and ended without a fault.
    SessionEnded,
    /// A session ran and ended with this fault.
    SessionFailed(Fault),
    /// The listening endpoint was closed: no connection will come any more.
    ListenerClosed,
}

/// What an endpoint manager does after a turn of its loop.
#[derive(Debug, Clone, Copy, PartialEq, Eq, Structural)]
pub enum Policy {
    /// Go on: the client connects again at once, the server accepts the next
    /// connection.
    Continue,
    /// Leave the loop without a fault.
    Stop,
}

/// What an endpoint manager does after a turn of its loop. No failed
/// handshake and no session, however it ended, stops a manager: a client
/// never stops, and a server stops only when its listening endpoint is
/// closed.
pub open spec fn policy(role: Role, attempt: Attempt) -> Policy {
    if role == Role::Server && attempt == Attempt::ListenerClosed {
        Policy::Stop
    } else {
        Policy::Continue
    }
}

/// Decides what an endpoint manager does after a turn of its loop.
pub fn after_attempt(role: Role, attempt: Attempt) -> (r: Policy)
    ensures
        r == policy(role, attempt),
{
    match (role, attempt) {
        (Role::Server, Attempt::ListenerClosed) => Policy::Stop,
        _ => Policy::Continue,
    }
}

} // verus!
