//! Checking that the server is the one that was bootstrapped.

#[allow(unused_imports)]
use crate::digest::{fingerprint, is_fingerprint};
use crate::text::{concat, str_eq};
use vstd::prelude::*;

verus! {

/// Why a client cannot use a connection.
#[derive(Debug)]
pub enum QuicClientError {
    Connect(String),
    MissingPeerCertificate,
    FingerprintMismatch,
    InvalidAddr,
    InvalidIdleTimeout(String),
}

impl QuicClientError {
    /// What the error says.
    pub open spec fn text(self) -> Seq<char> {
        match self {
            QuicClientError::Connect(m) => "connect error: "@ + m@,
            QuicClientError::MissingPeerCertificate => "peer certificate missing"@,
            QuicClientError::FingerprintMismatch => "fingerprint mismatch"@,
            QuicClientError::InvalidAddr => "invalid quic addr"@,
            QuicClientError::InvalidIdleTimeout(m) => "invalid idle timeout: "@ + m@,
        }
    }

    /// What the error says.
    pub fn message(&self) -> (m: String)
        ensures
            m@ == self.text(),
    {
        match self {
            QuicClientError::Connect(m) => concat("connect error: ", m.as_str()),
            QuicClientError::MissingPeerCertificate => "peer certificate missing".to_owned(),
            QuicClientError::FingerprintMismatch => "fingerprint mismatch".to_owned(),
            QuicClientError::InvalidAddr => "invalid quic addr".to_owned(),
            QuicClientError::InvalidIdleTimeout(m) => concat("invalid idle timeout: ", m.as_str()),
        }
    }
}

/// The fingerprint of a certificate.
pub fn sha256_fingerprint(cert_der: &[u8]) -> (text: String)
    ensures
        text@ == fingerprint(cert_der@),
        is_fingerprint(text@),
{
    crate::digest::sha256_fingerprint(cert_der)
}

/// The fingerprint of the server: that of the first certificate it shows.
pub open spec fn shown_fingerprint(certs: Option<Seq<Vec<u8>>>) -> Option<Seq<char>> {
    match certs {
        Some(chain) => if chain.len() > 0 {
            Some(fingerprint(chain[0]@))
        } else {
            None
        },
        None => None,
    }
}

/// The fingerprint of the server, if it shows a certificate.
pub fn peer_cert_fingerprint(certs: Option<&Vec<Vec<u8>>>) -> (text: Option<String>)
    ensures
        match text {
            Some(t) => shown_fingerprint(
                match certs {
                    Some(chain) => Some(chain@),
                    None => None,
                },
            ) == Some(t@),
            None => shown_fingerprint(
                match certs {
                    Some(chain) => Some(chain@),
                    None => None,
                },
            ) is None,
        },
{
    match certs {
        Some(chain) => if chain.len() > 0 {
            Some(sha256_fingerprint(chain[0].as_slice()))
        } else {
            None
        },
        None => None,
    }
}

/// Accepts the server only if its fingerprint is the expected one.
pub fn verify_peer_fingerprint(certs: Option<&Vec<Vec<u8>>>, expected: &str) -> (outcome: Result<
    (),
    QuicClientError,
>)
    ensures
        match shown_fingerprint(
            match certs {
                Some(chain) => Some(chain@),
                None => None,
            },
        ) {
            None => outcome matches Err(QuicClientError::MissingPeerCertificate),
            Some(actual) => if actual == expected@ {
                outcome is Ok
            } else {
                outcome matches Err(QuicClientError::FingerprintMismatch)
            },
        },
{
    match peer_cert_fingerprint(certs) {
        None => Err(QuicClientError::MissingPeerCertificate),
        Some(actual) => if str_eq(actual.as_str(), expected) {
            Ok(())
        } else {
            Err(QuicClientError::FingerprintMismatch)
        },
    }
}

/// A server is known by the first certificate that it shows, whatever else it shows; one that shows
/// none is not known.
pub proof fn law_first_certificate_counts(chain: Seq<Vec<u8>>)
    ensures
        chain.len() > 0 ==> shown_fingerprint(Some(chain)) == Some(fingerprint(chain[0]@)),
        chain.len() == 0 ==> shown_fingerprint(Some(chain)) is None,
        shown_fingerprint(None) is None,
{
}

/// An error that carries a message says it whole, behind what it is about.
pub proof fn law_errors_say_what_happened(m: String)
    ensures
        QuicClientError::Connect(m).text() == "connect error: "@ + m@,
        QuicClientError::MissingPeerCertificate.text() == "peer certificate missing"@,
        QuicClientError::FingerprintMismatch.text() == "fingerprint mismatch"@,
        QuicClientError::InvalidAddr.text() == "invalid quic addr"@,
        QuicClientError::InvalidIdleTimeout(m).text() == "invalid idle timeout: "@ + m@,
{
}

} // verus!
