//! The certificate bundle: CA certificate, client certificate and client key,
//! each as PEM text.

use vstd::prelude::*;
use vstd::utf8::{decode_utf8, valid_utf8};
use crate::text::utf8_to_string;

verus! {

/// File that holds the CA certificate, within the bundle's directory.
pub const CA_FILE: &'static str = "ca.pem";

/// File that holds the client certificate.
pub const CERT_FILE: &'static str = "cert.pem";

/// File that holds the client key.
pub const KEY_FILE: &'static str = "key.pem";

/// One of the three files of a bundle.
#[derive(Debug, Clone, Copy, PartialEq, Eq, Structural)]
pub enum CertFile {
    Ca,
    Cert,
    Key,
}

/// Why a bundle could not be loaded.
#[derive(Debug, Clone, Copy, PartialEq, Eq, Structural)]
pub enum CertError {
    /// The file is not there or cannot be read.
    Missing(CertFile),
    /// The file does not hold text.
    Unparseable(CertFile),
}

/// A certificate bundle. It is complete: a bundle that lacks a part does not
/// exist.
#[derive(Debug, PartialEq, Eq)]
pub struct Certs {
    /// The CA certificate that verifies the sensor.
    pub ca: String,
    /// The client certificate.
    pub cert: String,
    /// The client key.
    pub key: String,
}

impl Clone for Certs {
    fn clone(&self) -> (r: Self)
        ensures
            r == *self,
    {
        Certs { ca: self.ca.clone(), cert: self.cert.clone(), key: self.key.clone() }
    }
}

/// What is wrong with the content read for `which`, if anything.
pub open spec fn file_error(which: CertFile, content: Option<Vec<u8>>) -> Option<CertError> {
    match content {
        None => Some(CertError::Missing(which)),
        Some(bytes) => if valid_utf8(bytes@) {
            None
        } else {
            Some(CertError::Unparseable(which))
        },
    }
}

/// The first thing wrong with the three files, taken in the order CA,
/// certificate, key.
pub open spec fn bundle_error(
    ca: Option<Vec<u8>>,
    cert: Option<Vec<u8>>,
    key: Option<Vec<u8>>,
) -> Option<CertError> {
    if file_error(CertFile::Ca, ca) is Some {
        file_error(CertFile::Ca, ca)
    } else if file_error(CertFile::Cert, cert) is Some {
        file_error(CertFile::Cert, cert)
    } else {
        file_error(CertFile::Key, key)
    }
}

/// Reads one file of the bundle as text.
fn load(which: CertFile, content: &Option<Vec<u8>>) -> (r: Result<String, CertError>)
    ensures
        match file_error(which, *content) {
            Some(e) => r == Err::<String, CertError>(e),
            None => r matches Ok(s) && s@ == decode_utf8(content->0@),
        },
{
    match content {
        None => Err(CertError::Missing(which)),
        Some(bytes) => match utf8_to_string(bytes.as_slice()) {
            Some(text) => Ok(text),
            None => Err(CertError::Unparseable(which)),
        },
    }
}

impl Certs {
    /// Builds the bundle from what was read of its three files, `None`
    /// standing for a file that could not be read. All three must be there
    /// and hold text.
    pub fn from_files(ca: Option<Vec<u8>>, cert: Option<Vec<u8>>, key: Option<Vec<u8>>) -> (r:
        Result<Certs, CertError>)
        ensures
            match bundle_error(ca, cert, key) {
                Some(e) => r == Err::<Certs, CertError>(e),
                None => r matches Ok(c) && c.ca@ == decode_utf8(ca->0@) && c.cert@ == decode_utf8(
                    cert->0@,
                ) && c.key@ == decode_utf8(key->0@),
            },
    {
        let ca = match load(CertFile::Ca, &ca) {
            Ok(t) => t,
            Err(e) => {
                return Err(e);
            },
        };
        let cert = match load(CertFile::Cert, &cert) {
            Ok(t) => t,
            Err(e) => {
                return Err(e);
            },
        };
        let key = match load(CertFile::Key, &key) {
            Ok(t) => t,
            Err(e) => {
                return Err(e);
            },
        };
        Ok(Certs { ca, cert, key })
    }
}

} // verus!
