use vstd::prelude::*;

use native_tls::{Certificate, TlsConnector, TlsConnectorBuilder};

verus! {

/// native_tls::Certificate, carried opaquely from parsing to the builder.
#[verifier::external_type_specification]
#[verifier::external_body]
pub struct ExCertificate(Certificate);

/// native_tls::TlsConnector, handed to the caller opaquely.
#[verifier::external_type_specification]
#[verifier::external_body]
pub struct ExTlsConnector(TlsConnector);

/// native_tls::TlsConnectorBuilder, carried opaquely while roots are added.
#[verifier::external_type_specification]
#[verifier::external_body]
pub struct ExTlsConnectorBuilder(TlsConnectorBuilder);

/// native_tls::Error, only turned into its message.
#[verifier::external_type_specification]
#[verifier::external_body]
pub struct ExTlsError(native_tls::Error);

/// Error raised when a TLS connector cannot be made from the configuration.
#[derive(Debug)]
pub enum RuntimeError {
    /// The root certificate at this index of the configuration is not a
    /// valid PEM certificate.
    InvalidCertificate(usize, String),
    /// The TLS backend refused to build a connector.
    Tls(String),
}

/// Longest PEM buffer handed to the TLS backend: OpenSSL takes its length as
/// a C `int`.
pub const MAX_PEM_LEN: usize = 2147483647;

/// Message of the error for a certificate longer than `MAX_PEM_LEN`.
pub open spec fn too_large_message() -> Seq<char> {
    "certificate is too large"@
}

/// What holds of making a connector from `certs`, whatever the backend
/// answers: a certificate error names a certificate after only certificates
/// of acceptable length, and says so when that one is too large; any other
/// outcome means every certificate had an acceptable length.
pub open spec fn connector_outcome(certs: Seq<Vec<u8>>, r: Result<TlsConnector, RuntimeError>) -> bool {
    &&& r matches Err(RuntimeError::InvalidCertificate(i, m)) ==> {
        &&& i < certs.len()
        &&& forall|k: int| 0 <= k < i ==> certs[k]@.len() <= MAX_PEM_LEN
        &&& certs[i as int]@.len() > MAX_PEM_LEN ==> m@ == too_large_message()
    }
    &&& !(r matches Err(RuntimeError::InvalidCertificate(_, _))) ==> forall|k: int|
        0 <= k < certs.len() ==> certs[k]@.len() <= MAX_PEM_LEN
}

/// Relies on native_tls::Certificate::from_pem: parses one PEM certificate.
/// It panics on a buffer whose length does not fit a C `int`.
#[verifier::external_body]
fn parse_pem_certificate(pem: &Vec<u8>) -> Result<Certificate, native_tls::Error>
    requires
        pem@.len() <= MAX_PEM_LEN,
{
    Certificate::from_pem(pem.as_slice())
}

/// Relies on native_tls::TlsConnector::builder: a builder with default
/// settings.
#[verifier::external_body]
fn connector_builder() -> TlsConnectorBuilder {
    TlsConnector::builder()
}

/// Relies on native_tls::TlsConnectorBuilder::add_root_certificate: adds a
/// trusted root.
#[verifier::external_body]
fn add_root_certificate(builder: &mut TlsConnectorBuilder, cert: Certificate) {
    builder.add_root_certificate(cert);
}

/// Relies on native_tls::TlsConnectorBuilder::build: makes the connector.
#[verifier::external_body]
fn build_connector(builder: &TlsConnectorBuilder) -> Result<TlsConnector, native_tls::Error> {
    builder.build()
}

/// Relies on the Display impl of native_tls::Error: its message.
#[verifier::external_body]
fn tls_error_text(e: &native_tls::Error) -> String {
    e.to_string()
}

/// Make a TLS connector that trusts the system roots and the given PEM
/// certificates, taken in order. The first certificate that is too large or
/// does not parse gives `InvalidCertificate` with its index; a failure of
/// the backend gives `Tls`.
pub fn make_tls_connector(root_certificates: &Vec<Vec<u8>>) -> (r: Result<
    TlsConnector,
    RuntimeError,
>)
    ensures
        connector_outcome(root_certificates@, r),
{
    let mut builder = connector_builder();
    let mut i: usize = 0;
    while i < root_certificates.len()
        invariant
            i <= root_certificates@.len(),
            forall|k: int| 0 <= k < i ==> root_certificates@[k]@.len() <= MAX_PEM_LEN,
        decreases root_certificates@.len() - i,
    {
        if root_certificates[i].len() > MAX_PEM_LEN {
            return Err(RuntimeError::InvalidCertificate(i, String::from_str("certificate is too large")));
        }
        match parse_pem_certificate(&root_certificates[i]) {
            Ok(cert) => add_root_certificate(&mut builder, cert),
            Err(e) => {
                return Err(RuntimeError::InvalidCertificate(i, tls_error_text(&e)));
            },
        }
        i = i + 1;
    }
    match build_connector(&builder) {
        Ok(c) => Ok(c),
        Err(e) => Err(RuntimeError::Tls(tls_error_text(&e))),
    }
}

} // verus!
