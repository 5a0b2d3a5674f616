//! The profile of the self-signed TLS material generated at boot.
//!
//! The HTTPS listener terminates TLS with a certificate generated once per
//! boot and never persisted. The cryptography is the TLS library's work;
//! what the router fixes is the profile below, and the listener's floor of
//! TLS 1.2 on a modern intermediate acceptor.

use vstd::prelude::*;

verus! {

/// Parameters of the boot-time self-signed certificate.
pub struct CertificateProfile {
    /// RSA key size in bits.
    pub rsa_bits: u32,
    /// X.509 version field; 2 encodes version 3.
    pub x509_version: u32,
    /// Bits of the random serial number.
    pub serial_bits: u32,
    /// Days of validity from the moment of generation.
    pub valid_days: u32,
    /// Subject and issuer common name.
    pub common_name: String,
    /// Subject and issuer organization.
    pub organization: String,
    /// Key usage: digital signature.
    pub usage_digital_signature: bool,
    /// Key usage: key encipherment.
    pub usage_key_encipherment: bool,
    /// Extended key usage: server authentication.
    pub usage_server_auth: bool,
    /// The subject alternative name, a DNS wildcard.
    pub san_dns: String,
    /// Basic constraints: certificate authority.
    pub constraint_ca: bool,
    /// Basic constraints marked critical.
    pub constraint_critical: bool,
    /// Digest the certificate is self-signed with.
    pub signature_digest: String,
}

/// The fixed certificate profile: a 2048-bit RSA key; X.509 version 3 with a
/// 128-bit random serial and 365 days of validity; subject and issuer
/// `CN=authentik default certificate, O=authentik`; key usage for digital
/// signature and key encipherment; extended key usage for server
/// authentication; `DNS:*` as subject alternative name; critical CA basic
/// constraints; self-signed with SHA-256.
pub fn certificate_profile() -> (r: CertificateProfile)
    ensures
        r.rsa_bits == 2048,
        r.x509_version == 2,
        r.serial_bits == 128,
        r.valid_days == 365,
        r.common_name@ == "authentik default certificate"@,
        r.organization@ == "authentik"@,
        r.usage_digital_signature,
        r.usage_key_encipherment,
        r.usage_server_auth,
        r.san_dns@ == "*"@,
        r.constraint_ca,
        r.constraint_critical,
        r.signature_digest@ == "sha256"@,
{
    CertificateProfile {
        rsa_bits: 2048,
        x509_version: 2,
        serial_bits: 128,
        valid_days: 365,
        common_name: "authentik default certificate".to_owned(),
        organization: "authentik".to_owned(),
        usage_digital_signature: true,
        usage_key_encipherment: true,
        usage_server_auth: true,
        san_dns: "*".to_owned(),
        constraint_ca: true,
        constraint_critical: true,
        signature_digest: "sha256".to_owned(),
    }
}

/// The minimum TLS protocol version of the HTTPS listener, as major and
/// minor version numbers: TLS 1.2.
pub fn min_tls_version() -> (r: (u8, u8))
    ensures
        r == (1u8, 2u8),
{
    (1, 2)
}

} // verus!
