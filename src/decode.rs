use vstd::prelude::*;
use crate::model::{
    entries_view, CertificateInfo, CertificateInfoView, NameEntry, NameEntryView,
    PublicKeyInfo, PublicKeyView, Validity,
};

verus! {

/// Why a certificate field could not be turned into the data model.
#[derive(Debug, Clone, Copy, PartialEq, Eq, Structural)]
pub enum FieldDecodeError {
    /// A name attribute's type has no short name.
    UnresolvedAttribute,
    /// A name attribute's value is not UTF-8 text.
    InvalidText,
    /// The public key could not be read.
    PublicKey,
    /// The serial number could not be rendered in hexadecimal.
    SerialNumber,
}

/// One name attribute as read from a certificate: its short name and its
/// text, each absent where it could not be obtained.
#[derive(Debug, Clone)]
pub struct RawNameEntry {
    pub key: Option<String>,
    pub value: Option<String>,
}

/// The public key as read from a certificate.
#[derive(Debug, Clone)]
pub enum RawPublicKey {
    /// The key could not be extracted from the certificate.
    Unreadable,
    /// An RSA key: the modulus size in bytes and the modulus in hexadecimal,
    /// absent where it could not be rendered.
    Rsa { size_bytes: u32, modulus: Option<String> },
    /// A key of another family.
    Other,
}

/// Every field of a certificate as read, before it is checked.
#[derive(Debug, Clone)]
pub struct RawCertificate {
    pub subject: Vec<RawNameEntry>,
    pub issuer: Vec<RawNameEntry>,
    pub not_before: String,
    pub not_after: String,
    pub public_key: RawPublicKey,
    pub version: i32,
    pub serial_number: Option<String>,
    pub signature_algorithm: String,
}

/// The entry that one raw attribute decodes to.
pub open spec fn entry_of(e: RawNameEntry) -> Result<NameEntryView, FieldDecodeError> {
    match e.key {
        None => Err(FieldDecodeError::UnresolvedAttribute),
        Some(k) => match e.value {
            None => Err(FieldDecodeError::InvalidText),
            Some(v) => Ok(NameEntryView { key: k@, value: v@ }),
        },
    }
}

/// The entries that a raw name decodes to, in order; the first entry that
/// fails decides the error.
pub open spec fn names_of(s: Seq<RawNameEntry>) -> Result<Seq<NameEntryView>, FieldDecodeError>
    decreases s.len(),
{
    if s.len() == 0 {
        Ok(Seq::empty())
    } else {
        match names_of(s.drop_last()) {
            Err(e) => Err(e),
            Ok(p) => match entry_of(s.last()) {
                Err(e) => Err(e),
                Ok(v) => Ok(p.push(v)),
            },
        }
    }
}

/// The public key that a raw key decodes to.
pub open spec fn key_of(k: RawPublicKey) -> Result<PublicKeyView, FieldDecodeError> {
    match k {
        RawPublicKey::Unreadable => Err(FieldDecodeError::PublicKey),
        RawPublicKey::Rsa { size_bytes, modulus } => match modulus {
            None => Err(FieldDecodeError::PublicKey),
            Some(m) => Ok(PublicKeyView::Rsa { key_size: 8 * size_bytes as nat, modulus: m@ }),
        },
        RawPublicKey::Other => Ok(PublicKeyView::Unknown),
    }
}

/// The document that a raw certificate decodes to: the subject, the issuer,
/// the public key and the serial number are checked in that order, and the
/// first failure is the result.
pub open spec fn info_of(raw: RawCertificate) -> Result<CertificateInfoView, FieldDecodeError> {
    match names_of(raw.subject@) {
        Err(e) => Err(e),
        Ok(subject) => match names_of(raw.issuer@) {
            Err(e) => Err(e),
            Ok(issuer) => match key_of(raw.public_key) {
                Err(e) => Err(e),
                Ok(public_key) => match raw.serial_number {
                    None => Err(FieldDecodeError::SerialNumber),
                    Some(serial) => Ok(
                        CertificateInfoView {
                            subject,
                            issuer,
                            not_before: raw.not_before@,
                            not_after: raw.not_after@,
                            public_key,
                            version: raw.version as int,
                            serial_number: serial@,
                            signature_algorithm: raw.signature_algorithm@,
                        },
                    ),
                },
            },
        },
    }
}

/// The result of a decode, seen through the views.
pub open spec fn info_result_view(r: Result<CertificateInfo, FieldDecodeError>) -> Result<
    CertificateInfoView,
    FieldDecodeError,
> {
    match r {
        Ok(info) => Ok(info@),
        Err(e) => Err(e),
    }
}

/// Decodes one name attribute.
pub fn name_entry(e: &RawNameEntry) -> (r: Result<NameEntry, FieldDecodeError>)
    ensures
        match r {
            Ok(n) => entry_of(*e) == Ok::<NameEntryView, FieldDecodeError>(n@),
            Err(err) => entry_of(*e) == Err::<NameEntryView, FieldDecodeError>(err),
        },
{
    match &e.key {
        None => Err(FieldDecodeError::UnresolvedAttribute),
        Some(k) => match &e.value {
            None => Err(FieldDecodeError::InvalidText),
            Some(v) => Ok(NameEntry { key: k.clone(), value: v.clone() }),
        },
    }
}

/// Decodes the attributes of a name, keeping their order and their
/// duplicates; any attribute that fails makes the whole name fail.
pub fn name_entries(raw: &Vec<RawNameEntry>) -> (r: Result<Vec<NameEntry>, FieldDecodeError>)
    ensures
        match r {
            Ok(v) => names_of(raw@) == Ok::<Seq<NameEntryView>, FieldDecodeError>(
                entries_view(v@),
            ),
            Err(err) => names_of(raw@) == Err::<Seq<NameEntryView>, FieldDecodeError>(err),
        },
{
    let mut out: Vec<NameEntry> = Vec::new();
    let mut i: usize = 0;
    assert(entries_view(out@) =~= Seq::<NameEntryView>::empty());
    assert(raw@.take(0) =~= Seq::<RawNameEntry>::empty());
    while i < raw.len()
        invariant
            i <= raw@.len(),
            names_of(raw@.take(i as int)) == Ok::<Seq<NameEntryView>, FieldDecodeError>(
                entries_view(out@),
            ),
        decreases raw@.len() - i,
    {
        let ghost prefix = raw@.take(i as int);
        let ghost next = raw@.take(i + 1);
        assert(next.drop_last() =~= prefix);
        assert(next.last() == raw@[i as int]);
        match name_entry(&raw[i]) {
            Err(err) => {
                proof {
                    lemma_names_error_persists(raw@, i as int + 1);
                }
                return Err(err);
            },
            Ok(n) => {
                let ghost before = out@;
                out.push(n);
                assert(out@.drop_last() =~= before);
                assert(entries_view(out@) =~= entries_view(before).push(n@));
                assert(names_of(next) == Ok::<Seq<NameEntryView>, FieldDecodeError>(
                    entries_view(before).push(n@),
                ));
                i = i + 1;
            },
        }
    }
    assert(raw@.take(i as int) =~= raw@);
    Ok(out)
}

/// Once a prefix of a name fails, the whole name fails with the same error.
proof fn lemma_names_error_persists(s: Seq<RawNameEntry>, k: int)
    requires
        0 <= k <= s.len(),
        names_of(s.take(k)) is Err,
    ensures
        names_of(s) == names_of(s.take(k)),
    decreases s.len() - k,
{
    if k < s.len() {
        let next = s.take(k + 1);
        assert(next.drop_last() =~= s.take(k));
        lemma_names_error_persists(s, k + 1);
    } else {
        assert(s.take(k) =~= s);
    }
}

/// A name that decodes gives exactly one entry per attribute, in the order
/// in which the attributes are encoded.
pub proof fn lemma_names_keep_order(s: Seq<RawNameEntry>)
    requires
        names_of(s) is Ok,
    ensures
        names_of(s)->Ok_0.len() == s.len(),
        forall|i: int|
            0 <= i < s.len() ==> #[trigger] entry_of(s[i]) == Ok::<NameEntryView, FieldDecodeError>(
                names_of(s)->Ok_0[i],
            ),
    decreases s.len(),
{
    if s.len() > 0 {
        let p = s.drop_last();
        lemma_names_keep_order(p);
        assert forall|i: int| 0 <= i < s.len() implies #[trigger] entry_of(s[i]) == Ok::<
            NameEntryView,
            FieldDecodeError,
        >(names_of(s)->Ok_0[i]) by {
            if i < s.len() - 1 {
                assert(s[i] == p[i]);
            }
        }
    }
}

/// A certificate that decodes has as many subject entries and issuer entries
/// as it has subject and issuer attributes, each decoded from the attribute
/// at the same position.
pub proof fn lemma_certificate_names_keep_order(raw: RawCertificate)
    requires
        info_of(raw) is Ok,
    ensures
        info_of(raw)->Ok_0.subject.len() == raw.subject@.len(),
        info_of(raw)->Ok_0.issuer.len() == raw.issuer@.len(),
        forall|i: int|
            0 <= i < raw.subject@.len() ==> #[trigger] entry_of(raw.subject@[i]) == Ok::<
                NameEntryView,
                FieldDecodeError,
            >(info_of(raw)->Ok_0.subject[i]),
        forall|i: int|
            0 <= i < raw.issuer@.len() ==> #[trigger] entry_of(raw.issuer@[i]) == Ok::<
                NameEntryView,
                FieldDecodeError,
            >(info_of(raw)->Ok_0.issuer[i]),
{
    lemma_names_keep_order(raw.subject@);
    lemma_names_keep_order(raw.issuer@);
}

/// A decoded public key has a size and a modulus exactly when it is an RSA
/// key, and its size is eight times the modulus length in bytes that the
/// key reports.
pub proof fn lemma_rsa_fields_together(k: RawPublicKey)
    requires
        key_of(k) is Ok,
    ensures
        (key_of(k)->Ok_0 is Rsa) <==> (k is Rsa),
        key_of(k)->Ok_0 is Rsa ==> key_of(k)->Ok_0->Rsa_key_size == 8 * (k->Rsa_size_bytes as nat)
            && k->Rsa_modulus is Some && key_of(k)->Ok_0->Rsa_modulus == k->Rsa_modulus->0@,
{
}

/// Decodes the public key: an RSA key gives its bit size and its modulus.
pub fn public_key_info(k: &RawPublicKey) -> (r: Result<PublicKeyInfo, FieldDecodeError>)
    ensures
        match r {
            Ok(p) => key_of(*k) == Ok::<PublicKeyView, FieldDecodeError>(p@),
            Err(err) => key_of(*k) == Err::<PublicKeyView, FieldDecodeError>(err),
        },
{
    match k {
        RawPublicKey::Unreadable => Err(FieldDecodeError::PublicKey),
        RawPublicKey::Rsa { size_bytes, modulus } => match modulus {
            None => Err(FieldDecodeError::PublicKey),
            Some(m) => Ok(
                PublicKeyInfo::Rsa { key_size: 8 * (*size_bytes as u64), modulus: m.clone() },
            ),
        },
        RawPublicKey::Other => Ok(PublicKeyInfo::Unknown),
    }
}

/// Builds the document from the fields read out of a certificate, failing
/// on the first field that cannot be decoded.
pub fn certificate_info(raw: &RawCertificate) -> (r: Result<CertificateInfo, FieldDecodeError>)
    ensures
        info_result_view(r) == info_of(*raw),
{
    let subject = match name_entries(&raw.subject) {
        Ok(v) => v,
        Err(e) => return Err(e),
    };
    let issuer = match name_entries(&raw.issuer) {
        Ok(v) => v,
        Err(e) => return Err(e),
    };
    let public_key = match public_key_info(&raw.public_key) {
        Ok(p) => p,
        Err(e) => return Err(e),
    };
    let serial_number = match &raw.serial_number {
        Some(s) => s.clone(),
        None => return Err(FieldDecodeError::SerialNumber),
    };
    let info = CertificateInfo {
        subject,
        issuer,
        validity: Validity {
            not_before: raw.not_before.clone(),
            not_after: raw.not_after.clone(),
        },
        public_key,
        version: raw.version,
        serial_number,
        signature_algorithm: raw.signature_algorithm.clone(),
    };
    Ok(info)
}

} // verus!
