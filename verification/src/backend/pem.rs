//! The sections of a PEM text, as `rustls_pemfile` reads them.
//!
//! The library takes the bytes of a certificate file and of a key file and
//! leaves the reading of PEM to `rustls_pemfile`. What that crate makes of a
//! text depends on the text alone, so each of its three readers has a name
//! here, and the contracts of the library speak of those names.

use vstd::prelude::*;

verus! {

/// `std::io::Error`, the error of the PEM readers and of the file reads that
/// come before them. The library hands such a value on and never looks into
/// it.
#[verifier::external_type_specification]
#[verifier::external_body]
pub struct ExIoError(std::io::Error);

/// What `rustls_pemfile::certs` makes of a PEM text: the DER bytes of its
/// `CERTIFICATE` sections, in their order, or `None` where it gives an error.
pub uninterp spec fn pem_certs(pem: Seq<u8>) -> Option<Seq<Seq<u8>>>;

/// What `rustls_pemfile::pkcs8_private_keys` makes of a PEM text: the DER
/// bytes of its `PRIVATE KEY` sections, in their order, or `None` where it
/// gives an error.
pub uninterp spec fn pem_pkcs8_private_keys(pem: Seq<u8>) -> Option<Seq<Seq<u8>>>;

/// What `rustls_pemfile::rsa_private_keys` makes of a PEM text: the DER
/// bytes of its `RSA PRIVATE KEY` sections, in their order, or `None` where
/// it gives an error.
pub uninterp spec fn pem_rsa_private_keys(pem: Seq<u8>) -> Option<Seq<Seq<u8>>>;

/// `rustls_pemfile::certs`, reading `pem` from its first byte: the result
/// is the one that `pem_certs` names.
#[verifier::external_body]
pub(crate) fn certs(pem: &Vec<u8>) -> (read: Result<Vec<Vec<u8>>, std::io::Error>)
    ensures
        match read {
            Ok(ders) => pem_certs(pem@) == Some(ders.deep_view()),
            Err(_) => pem_certs(pem@) is None,
        },
{
    rustls_pemfile::certs(&mut pem.as_slice())
}

/// `rustls_pemfile::pkcs8_private_keys`, reading `pem` from its first byte:
/// the result is the one that `pem_pkcs8_private_keys` names.
#[verifier::external_body]
pub(crate) fn pkcs8_private_keys(pem: &Vec<u8>) -> (read: Result<Vec<Vec<u8>>, std::io::Error>)
    ensures
        match read {
            Ok(ders) => pem_pkcs8_private_keys(pem@) == Some(ders.deep_view()),
            Err(_) => pem_pkcs8_private_keys(pem@) is None,
        },
{
    rustls_pemfile::pkcs8_private_keys(&mut pem.as_slice())
}

/// `rustls_pemfile::rsa_private_keys`, reading `pem` from its first byte:
/// the result is the one that `pem_rsa_private_keys` names.
#[verifier::external_body]
pub(crate) fn rsa_private_keys(pem: &Vec<u8>) -> (read: Result<Vec<Vec<u8>>, std::io::Error>)
    ensures
        match read {
            Ok(ders) => pem_rsa_private_keys(pem@) == Some(ders.deep_view()),
            Err(_) => pem_rsa_private_keys(pem@) is None,
        },
{
    rustls_pemfile::rsa_private_keys(&mut pem.as_slice())
}

} // verus!
