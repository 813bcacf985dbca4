//! The certificate that the server shows.

#[allow(unused_imports)]
use crate::digest::{fingerprint, is_fingerprint};
use crate::digest::sha256_fingerprint;
use crate::server::error::NeoshdError;
use crate::text::concat;
use vstd::prelude::*;

verus! {

/// A certificate and its private key in DER form, and the fingerprint that clients pin.
#[derive(Debug)]
pub struct TlsMaterial {
    pub cert_der: Vec<u8>,
    pub key_der: Vec<u8>,
    pub cert_fingerprint: String,
}

/// Byte strings as sequences.
pub open spec fn byte_seqs(v: Seq<Vec<u8>>) -> Seq<Seq<u8>> {
    v.map_values(|b: Vec<u8>| b@)
}

/// The certificates that `rustls_pemfile::certs` finds in a file, or the text of its first error.
pub uninterp spec fn pem_certificates(pem: Seq<u8>) -> Result<Seq<Seq<u8>>, Seq<char>>;

/// The keys that `rustls_pemfile::pkcs8_private_keys` finds in a file, or the text of its first
/// error.
pub uninterp spec fn pem_keys(pem: Seq<u8>) -> Result<Seq<Seq<u8>>, Seq<char>>;

/// Calls `rustls_pemfile::certs` on a file and collects what it finds up to the first error.
#[verifier::external_body]
fn read_certificates(pem: &[u8]) -> (found: Result<Vec<Vec<u8>>, String>)
    ensures
        match found {
            Ok(certs) => pem_certificates(pem@) == Ok::<Seq<Seq<u8>>, Seq<char>>(byte_seqs(certs@)),
            Err(why) => pem_certificates(pem@) == Err::<Seq<Seq<u8>>, Seq<char>>(why@),
        },
{
    rustls_pemfile::certs(&mut std::io::Cursor::new(pem))
        .map(|found| found.map(|cert| cert.to_vec()).map_err(|e| e.to_string()))
        .collect()
}

/// Calls `rustls_pemfile::pkcs8_private_keys` on a file and collects what it finds up to the first
/// error.
#[verifier::external_body]
fn read_keys(pem: &[u8]) -> (found: Result<Vec<Vec<u8>>, String>)
    ensures
        match found {
            Ok(keys) => pem_keys(pem@) == Ok::<Seq<Seq<u8>>, Seq<char>>(byte_seqs(keys@)),
            Err(why) => pem_keys(pem@) == Err::<Seq<Seq<u8>>, Seq<char>>(why@),
        },
{
    rustls_pemfile::pkcs8_private_keys(&mut std::io::Cursor::new(pem))
        .map(|found| found.map(|key| key.secret_pkcs8_der().to_vec()).map_err(|e| e.to_string()))
        .collect()
}

/// Calls `rcgen::generate_simple_self_signed` for a name, and hands out the certificate and the
/// key in DER form. The key is random, so nothing is known of either, nor whether the call
/// succeeds. It is called for no other name than that of the server's own certificate.
#[verifier::external_body]
fn self_signed(name: String) -> (made: Result<(Vec<u8>, Vec<u8>), String>)
    requires
        name@ == "localhost"@,
{
    rcgen::generate_simple_self_signed(vec![name])
        .map(|made| (made.cert.der().to_vec(), made.key_pair.serialize_der()))
        .map_err(|e| e.to_string())
}

/// The certificate and the key to take from what two files hold: the first certificate and the
/// last key.
pub open spec fn chosen_pair(
    certs: Result<Seq<Seq<u8>>, Seq<char>>,
    keys: Result<Seq<Seq<u8>>, Seq<char>>,
) -> Result<(Seq<u8>, Seq<u8>), Seq<char>> {
    match certs {
        Err(why) => Err("read cert failed: "@ + why),
        Ok(found) => if found.len() == 0 {
            Err("empty cert file"@)
        } else {
            match keys {
                Err(why) => Err("read key failed: "@ + why),
                Ok(others) => if others.len() == 0 {
                    Err("empty key file"@)
                } else {
                    Ok((found[0], others.last()))
                },
            }
        },
    }
}

/// Whether the outcome is this pair, or this complaint about the options.
pub open spec fn is_pair_outcome(
    outcome: Result<(Vec<u8>, Vec<u8>), NeoshdError>,
    expected: Result<(Seq<u8>, Seq<u8>), Seq<char>>,
) -> bool {
    match (outcome, expected) {
        (Ok(pair), Ok(want)) => pair.0@ == want.0 && pair.1@ == want.1,
        (Err(NeoshdError::Config(m)), Err(want)) => m@ == want,
        _ => false,
    }
}

/// Chooses the certificate and the key from what two files hold.
pub fn choose_pair(
    certs: Result<Vec<Vec<u8>>, String>,
    keys: Result<Vec<Vec<u8>>, String>,
) -> (outcome: Result<(Vec<u8>, Vec<u8>), NeoshdError>)
    ensures
        is_pair_outcome(
            outcome,
            chosen_pair(
                match certs {
                    Ok(v) => Ok(byte_seqs(v@)),
                    Err(why) => Err(why@),
                },
                match keys {
                    Ok(v) => Ok(byte_seqs(v@)),
                    Err(why) => Err(why@),
                },
            ),
        ),
{
    let cert = match certs {
        Ok(mut found) => {
            assert(byte_seqs(found@).len() == found@.len());
            if found.len() == 0 {
                return Err(NeoshdError::Config("empty cert file".to_owned()));
            }
            assert(byte_seqs(found@)[0] == found@[0]@);
            found.swap_remove(0)
        },
        Err(why) => {
            return Err(NeoshdError::Config(concat("read cert failed: ", why.as_str())));
        },
    };
    match keys {
        Ok(mut found) => {
            let ghost all = found@;
            assert(byte_seqs(all).len() == all.len());
            match found.pop() {
                Some(key) => {
                    assert(byte_seqs(all).last() == all.last()@);
                    Ok((cert, key))
                },
                None => Err(NeoshdError::Config("empty key file".to_owned())),
            }
        },
        Err(why) => Err(NeoshdError::Config(concat("read key failed: ", why.as_str()))),
    }
}

/// Reads a certificate and its key from two PEM files.
pub fn load_cert_key_pair(cert_pem: &[u8], key_pem: &[u8]) -> (outcome: Result<
    (Vec<u8>, Vec<u8>),
    NeoshdError,
>)
    ensures
        is_pair_outcome(outcome, chosen_pair(pem_certificates(cert_pem@), pem_keys(key_pem@))),
{
    let certs = read_certificates(cert_pem);
    let keys = read_keys(key_pem);
    choose_pair(certs, keys)
}

/// What to show of a certificate and its key that were made for the purpose: the pair and the
/// fingerprint of the certificate, or that none could be made.
pub fn new_certificate(made: Result<(Vec<u8>, Vec<u8>), String>) -> (outcome: Result<
    TlsMaterial,
    NeoshdError,
>)
    ensures
        match made {
            Ok((cert, key)) => {
                &&& outcome matches Ok(m)
                &&& m.cert_der == cert
                &&& m.key_der == key
                &&& m.cert_fingerprint@ == fingerprint(cert@)
                &&& is_fingerprint(m.cert_fingerprint@)
            },
            Err(why) => outcome matches Err(NeoshdError::Internal(m)) && m@
                == "generate cert failed: "@ + why@,
        },
{
    match made {
        Ok((cert_der, key_der)) => {
            let cert_fingerprint = sha256_fingerprint(cert_der.as_slice());
            Ok(TlsMaterial { cert_der, key_der, cert_fingerprint })
        },
        Err(why) => Err(
            NeoshdError::Internal(concat("generate cert failed: ", why.as_str())),
        ),
    }
}

/// The name that a new certificate is for.
pub fn certificate_name() -> (name: String)
    ensures
        name@ == "localhost"@,
{
    "localhost".to_owned()
}

/// The certificate to show: the one in the files that are given, or a new one for `localhost`. The
/// fingerprint is always that of the certificate shown.
pub fn server_certificate(pem_files: Option<(&[u8], &[u8])>) -> (outcome: Result<
    TlsMaterial,
    NeoshdError,
>)
    ensures
        outcome matches Ok(m) ==> {
            &&& m.cert_fingerprint@ == fingerprint(m.cert_der@)
            &&& is_fingerprint(m.cert_fingerprint@)
        },
        pem_files matches Some((cert, key)) ==> is_pair_outcome(
            match outcome {
                Ok(m) => Ok((m.cert_der, m.key_der)),
                Err(e) => Err(e),
            },
            chosen_pair(pem_certificates(cert@), pem_keys(key@)),
        ),
        pem_files is None ==> match outcome {
            Ok(_) => true,
            Err(e) => e matches NeoshdError::Internal(m) && crate::text::has_prefix(
                m@,
                "generate cert failed: "@,
            ),
        },
{
    match pem_files {
        Some((cert, key)) => match load_cert_key_pair(cert, key) {
            Ok((cert_der, key_der)) => {
                let cert_fingerprint = sha256_fingerprint(cert_der.as_slice());
                Ok(TlsMaterial { cert_der, key_der, cert_fingerprint })
            },
            Err(e) => Err(e),
        },
        None => {
            let made = self_signed(certificate_name());
            let outcome = new_certificate(made);
            assert(outcome matches Err(NeoshdError::Internal(m)) ==> m@.take(
                "generate cert failed: "@.len() as int,
            ) =~= "generate cert failed: "@);
            outcome
        },
    }
}

/// Of the files that are given, the first certificate and the last key are taken; it is said which
/// file cannot be read or holds nothing, the certificates first.
pub proof fn law_first_certificate_and_last_key(
    certs: Seq<Seq<u8>>,
    keys: Seq<Seq<u8>>,
    why: Seq<char>,
    other: Result<Seq<Seq<u8>>, Seq<char>>,
)
    ensures
        certs.len() > 0 && keys.len() > 0 ==> chosen_pair(Ok(certs), Ok(keys)) == Ok::<
            (Seq<u8>, Seq<u8>),
            Seq<char>,
        >((certs[0], keys[keys.len() - 1])),
        certs.len() == 0 ==> chosen_pair(Ok(certs), other) == Err::<(Seq<u8>, Seq<u8>), Seq<char>>(
            "empty cert file"@,
        ),
        certs.len() > 0 && keys.len() == 0 ==> chosen_pair(Ok(certs), Ok(keys)) == Err::<
            (Seq<u8>, Seq<u8>),
            Seq<char>,
        >("empty key file"@),
        chosen_pair(Err(why), other) == Err::<(Seq<u8>, Seq<u8>), Seq<char>>(
            "read cert failed: "@ + why,
        ),
        certs.len() > 0 ==> chosen_pair(Ok(certs), Err(why)) == Err::<
            (Seq<u8>, Seq<u8>),
            Seq<char>,
        >("read key failed: "@ + why),
{
}

} // verus!
