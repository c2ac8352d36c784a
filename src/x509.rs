use vstd::prelude::*;
use openssl::error::ErrorStack;
use openssl::x509::{X509NameEntryRef, X509Ref};
use crate::decode::{
    certificate_info, entry_of, info_of, info_result_view, lemma_certificate_names_keep_order,
    FieldDecodeError, RawCertificate, RawNameEntry, RawPublicKey,
};
use crate::model::{byte_len, magnitude, modulus_bytes, opt_view, signed_hex_value, CertificateInfo, PublicKeyView};

verus! {

#[verifier::external_type_specification]
#[verifier::external_body]
pub struct ExX509Ref(X509Ref);

#[verifier::external_type_specification]
#[verifier::external_body]
pub struct ExX509NameEntryRef(X509NameEntryRef);

#[verifier::external_type_specification]
#[verifier::external_body]
pub struct ExErrorStack(ErrorStack);

/// The attributes of a certificate's subject name, in encoded order.
pub uninterp spec fn subject_entries_of(cert: &X509Ref) -> Seq<&X509NameEntryRef>;

/// The attributes of a certificate's issuer name, in encoded order.
pub uninterp spec fn issuer_entries_of(cert: &X509Ref) -> Seq<&X509NameEntryRef>;

/// The short name of an attribute's type, where it has one.
pub uninterp spec fn short_name_of(e: &X509NameEntryRef) -> Option<Seq<char>>;

/// An attribute's value as UTF-8 text, where it converts.
pub uninterp spec fn utf8_of(e: &X509NameEntryRef) -> Option<Seq<char>>;

/// The printed start of the validity window.
pub uninterp spec fn not_before_of(cert: &X509Ref) -> Seq<char>;

/// The printed end of the validity window.
pub uninterp spec fn not_after_of(cert: &X509Ref) -> Seq<char>;

/// Whether the certificate's public key can be extracted.
pub uninterp spec fn key_readable_of(cert: &X509Ref) -> bool;

/// The modulus size in bytes, where the public key is an RSA key.
pub uninterp spec fn rsa_size_of(cert: &X509Ref) -> Option<u32>;

/// The RSA modulus in hexadecimal, where the key is an RSA key and the
/// modulus renders.
pub uninterp spec fn rsa_modulus_of(cert: &X509Ref) -> Option<Seq<char>>;

/// The value of the RSA modulus, where the key is an RSA key.
pub uninterp spec fn rsa_modulus_value_of(cert: &X509Ref) -> int;

/// The version field as encoded.
pub uninterp spec fn version_of(cert: &X509Ref) -> int;

/// The serial number in hexadecimal, where it renders.
pub uninterp spec fn serial_of(cert: &X509Ref) -> Option<Seq<char>>;

/// The text of the signature algorithm's identifier.
pub uninterp spec fn sig_alg_of(cert: &X509Ref) -> Seq<char>;

/// The view of a result whose error is OpenSSL's.
pub open spec fn ok_view(r: Result<String, ErrorStack>) -> Option<Seq<char>> {
    match r {
        Ok(s) => Some(s@),
        Err(_) => None,
    }
}

/// Relies on `X509Ref::subject_name` and `X509NameRef::entries`: the
/// subject's attributes in their encoded order.
#[verifier::external_body]
fn subject_entries<'a>(cert: &'a X509Ref) -> (r: Vec<&'a X509NameEntryRef>)
    ensures
        r@ == subject_entries_of(cert),
{
    cert.subject_name().entries().collect()
}

/// Relies on `X509Ref::issuer_name` and `X509NameRef::entries`: the
/// issuer's attributes in their encoded order.
#[verifier::external_body]
fn issuer_entries<'a>(cert: &'a X509Ref) -> (r: Vec<&'a X509NameEntryRef>)
    ensures
        r@ == issuer_entries_of(cert),
{
    cert.issuer_name().entries().collect()
}

/// Relies on `X509NameEntryRef::object`, `Asn1ObjectRef::nid` and
/// `Nid::short_name`: the attribute type's short name, if it has one.
#[verifier::external_body]
fn entry_short_name(e: &X509NameEntryRef) -> (r: Result<String, ErrorStack>)
    ensures
        ok_view(r) == short_name_of(e),
{
    e.object().nid().short_name().map(|s| s.to_string())
}

/// Relies on `X509NameEntryRef::data` and `Asn1StringRef::as_utf8`: the
/// attribute's value as UTF-8 text, if it converts.
#[verifier::external_body]
#[allow(deprecated)]
fn entry_text(e: &X509NameEntryRef) -> (r: Result<String, ErrorStack>)
    ensures
        ok_view(r) == utf8_of(e),
{
    e.data().as_utf8().map(|s| s.to_string())
}

/// Relies on `X509Ref::not_before` and the `Display` of `Asn1TimeRef`.
#[verifier::external_body]
fn not_before_text(cert: &X509Ref) -> (r: String)
    ensures
        r@ == not_before_of(cert),
{
    cert.not_before().to_string()
}

/// Relies on `X509Ref::not_after` and the `Display` of `Asn1TimeRef`.
#[verifier::external_body]
fn not_after_text(cert: &X509Ref) -> (r: String)
    ensures
        r@ == not_after_of(cert),
{
    cert.not_after().to_string()
}

/// Relies on `X509Ref::public_key`: whether the subject's public key can be
/// extracted.
#[verifier::external_body]
fn key_readable(cert: &X509Ref) -> (r: bool)
    ensures
        r == key_readable_of(cert),
{
    cert.public_key().is_ok()
}

/// Relies on `X509Ref::public_key`, `PKeyRef::rsa` and `RsaRef::size`: the
/// size of the modulus in bytes, where the key is an RSA key.
#[verifier::external_body]
fn rsa_size(cert: &X509Ref) -> (r: Result<u32, ErrorStack>)
    ensures
        match r {
            Ok(n) => rsa_size_of(cert) == Some(n) && n as nat == byte_len(
                magnitude(rsa_modulus_value_of(cert)),
            ),
            Err(_) => rsa_size_of(cert) is None,
        },
{
    cert.public_key().and_then(|k| k.rsa()).map(|k| k.size())
}

/// Relies on `X509Ref::public_key`, `PKeyRef::rsa`, `RsaRef::n` and
/// `BigNumRef::to_hex_str`: the modulus in hexadecimal, with a leading '-'
/// where it is negative.
#[verifier::external_body]
fn rsa_modulus_hex(cert: &X509Ref) -> (r: Result<String, ErrorStack>)
    ensures
        ok_view(r) == rsa_modulus_of(cert),
        r is Ok ==> signed_hex_value(r->Ok_0@) == rsa_modulus_value_of(cert),
{
    cert.public_key().and_then(|k| k.rsa()).and_then(|k| k.n().to_hex_str()).map(
        |s| s.to_string(),
    )
}

/// Relies on `X509Ref::version`: the version field as encoded.
#[verifier::external_body]
fn version(cert: &X509Ref) -> (r: i32)
    ensures
        r as int == version_of(cert),
{
    cert.version()
}

/// Relies on `X509Ref::serial_number`, `Asn1IntegerRef::to_bn` and
/// `BigNumRef::to_hex_str`: the serial number in hexadecimal.
#[verifier::external_body]
fn serial_hex(cert: &X509Ref) -> (r: Result<String, ErrorStack>)
    ensures
        ok_view(r) == serial_of(cert),
{
    cert.serial_number().to_bn().and_then(|n| n.to_hex_str().map(|s| s.to_string()))
}

/// Relies on `X509Ref::signature_algorithm`, `X509AlgorithmRef::object` and
/// the `Display` of `Asn1ObjectRef`: the algorithm identifier's text.
#[verifier::external_body]
fn signature_algorithm_text(cert: &X509Ref) -> (r: String)
    ensures
        r@ == sig_alg_of(cert),
{
    cert.signature_algorithm().object().to_string()
}

/// The raw entry read from one attribute.
pub open spec fn reads_entry(e: &X509NameEntryRef, raw: RawNameEntry) -> bool {
    opt_view(raw.key) == short_name_of(e) && opt_view(raw.value) == utf8_of(e)
}

/// One raw entry per attribute, each read from the attribute at its position.
pub open spec fn reads_name(entries: Seq<&X509NameEntryRef>, raw: Seq<RawNameEntry>) -> bool {
    &&& raw.len() == entries.len()
    &&& forall|i: int| 0 <= i < raw.len() ==> #[trigger] reads_entry(entries[i], raw[i])
}

/// The raw public key read from a certificate: unreadable, another family,
/// or an RSA key with its size and modulus.
pub open spec fn reads_key(cert: &X509Ref, raw: RawPublicKey) -> bool {
    match raw {
        RawPublicKey::Unreadable => !key_readable_of(cert),
        RawPublicKey::Other => key_readable_of(cert) && rsa_size_of(cert) is None,
        RawPublicKey::Rsa { size_bytes, modulus } => {
            &&& key_readable_of(cert)
            &&& rsa_size_of(cert) == Some(size_bytes)
            &&& size_bytes as nat == byte_len(magnitude(rsa_modulus_value_of(cert)))
            &&& opt_view(modulus) == rsa_modulus_of(cert)
            &&& modulus is Some ==> signed_hex_value(modulus->0@) == rsa_modulus_value_of(cert)
        },
    }
}

/// Every field of `raw` is what is read from `cert`.
pub open spec fn reads(cert: &X509Ref, raw: RawCertificate) -> bool {
    &&& reads_name(subject_entries_of(cert), raw.subject@)
    &&& reads_name(issuer_entries_of(cert), raw.issuer@)
    &&& raw.not_before@ == not_before_of(cert)
    &&& raw.not_after@ == not_after_of(cert)
    &&& reads_key(cert, raw.public_key)
    &&& raw.version as int == version_of(cert)
    &&& opt_view(raw.serial_number) == serial_of(cert)
    &&& raw.signature_algorithm@ == sig_alg_of(cert)
}

/// Reads the short names and texts of a name's attributes, one raw entry
/// per attribute, in order.
fn raw_name(entries: &Vec<&X509NameEntryRef>) -> (r: Vec<RawNameEntry>)
    ensures
        reads_name(entries@, r@),
{
    let mut out: Vec<RawNameEntry> = Vec::new();
    let mut i: usize = 0;
    while i < entries.len()
        invariant
            i <= entries@.len(),
            out@.len() == i,
            forall|j: int| 0 <= j < i ==> #[trigger] reads_entry(entries@[j], out@[j]),
        decreases entries@.len() - i,
    {
        let e: &X509NameEntryRef = entries[i];
        let key = match entry_short_name(e) {
            Ok(k) => Some(k),
            Err(_) => None,
        };
        let value = match entry_text(e) {
            Ok(v) => Some(v),
            Err(_) => None,
        };
        out.push(RawNameEntry { key, value });
        assert(reads_entry(entries@[i as int], out@[i as int]));
        i = i + 1;
    }
    out
}

/// Reads the public key: a key that cannot be extracted gives `Unreadable`,
/// an RSA key gives its size and modulus, another family gives `Other`.
fn raw_public_key(cert: &X509Ref) -> (r: RawPublicKey)
    ensures
        reads_key(cert, r),
{
    if !key_readable(cert) {
        RawPublicKey::Unreadable
    } else {
        match rsa_size(cert) {
            Err(_) => RawPublicKey::Other,
            Ok(size_bytes) => {
                let modulus = match rsa_modulus_hex(cert) {
                    Ok(m) => Some(m),
                    Err(_) => None,
                };
                RawPublicKey::Rsa { size_bytes, modulus }
            },
        }
    }
}

/// Reads every field that the data model needs out of a certificate.
pub fn read_certificate(cert: &X509Ref) -> (r: RawCertificate)
    ensures
        reads(cert, r),
{
    let subject = raw_name(&subject_entries(cert));
    let issuer = raw_name(&issuer_entries(cert));
    let serial_number = match serial_hex(cert) {
        Ok(s) => Some(s),
        Err(_) => None,
    };
    RawCertificate {
        subject,
        issuer,
        not_before: not_before_text(cert),
        not_after: not_after_text(cert),
        public_key: raw_public_key(cert),
        version: version(cert),
        serial_number,
        signature_algorithm: signature_algorithm_text(cert),
    }
}

/// Decodes a certificate into the data model: the result is what
/// `certificate_info` makes of the fields read from `cert`. A decoded
/// certificate has one subject entry per subject attribute and one issuer
/// entry per issuer attribute, in encoded order, and an RSA key size is the
/// modulus's length in bits, rounded up to whole bytes.
pub fn decode(cert: &X509Ref) -> (r: Result<CertificateInfo, FieldDecodeError>)
    ensures
        exists|raw: RawCertificate| #[trigger]
            reads(cert, raw) && info_result_view(r) == info_of(raw),
        r is Ok ==> r->Ok_0@.subject.len() == subject_entries_of(cert).len(),
        r is Ok && r->Ok_0@.public_key is Rsa ==> r->Ok_0@.public_key->Rsa_key_size == 8
            * modulus_bytes(r->Ok_0@.public_key->Rsa_modulus),
        r is Ok ==> r->Ok_0@.issuer.len() == issuer_entries_of(cert).len(),
        r is Ok ==> forall|i: int|
            0 <= i < subject_entries_of(cert).len() ==> Some(r->Ok_0@.subject[i].key)
                == short_name_of(#[trigger] subject_entries_of(cert)[i]) && Some(
                r->Ok_0@.subject[i].value,
            ) == utf8_of(subject_entries_of(cert)[i]),
        r is Ok ==> forall|i: int|
            0 <= i < issuer_entries_of(cert).len() ==> Some(r->Ok_0@.issuer[i].key)
                == short_name_of(#[trigger] issuer_entries_of(cert)[i]) && Some(
                r->Ok_0@.issuer[i].value,
            ) == utf8_of(issuer_entries_of(cert)[i]),
{
    let raw = read_certificate(cert);
    let r = certificate_info(&raw);
    proof {
        if r is Ok {
            lemma_certificate_names_keep_order(raw);
            assert forall|i: int| 0 <= i < raw.subject@.len() implies reads_entry(
                subject_entries_of(cert)[i],
                raw.subject@[i],
            ) && entry_of(raw.subject@[i]) is Ok by {}
            assert forall|i: int| 0 <= i < raw.issuer@.len() implies reads_entry(
                issuer_entries_of(cert)[i],
                raw.issuer@[i],
            ) && entry_of(raw.issuer@[i]) is Ok by {}
        }
    }
    r
}

} // verus!
