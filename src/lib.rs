//! Inspection of the X.509 certificate that a TLS server presents: the data
//! model, the decoding of a certificate into it, the classification of
//! connection failures, and the text report.
pub mod connection;
pub mod decode;
pub mod model;
pub mod text;
pub mod x509;

pub use connection::{fetch_outcome, target_address, ConnectionError};
pub use decode::{
    certificate_info, name_entries, name_entry, public_key_info, FieldDecodeError,
    RawCertificate, RawNameEntry, RawPublicKey,
};
pub use model::{CertificateInfo, NameEntry, PublicKeyInfo, Validity};
pub use text::render_text;
pub use x509::{decode, read_certificate};
