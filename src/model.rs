use vstd::prelude::*;

verus! {

/// One component of a distinguished name: the attribute's short name and its text.
#[derive(Debug, Clone)]
pub struct NameEntry {
    pub key: String,
    pub value: String,
}

/// The abstract value of a `NameEntry`.
pub struct NameEntryView {
    pub key: Seq<char>,
    pub value: Seq<char>,
}

impl View for NameEntry {
    type V = NameEntryView;

    open spec fn view(&self) -> NameEntryView {
        NameEntryView { key: self.key@, value: self.value@ }
    }
}

/// The abstract value of a sequence of name entries, in order.
pub open spec fn entries_view(s: Seq<NameEntry>) -> Seq<NameEntryView> {
    s.map_values(|e: NameEntry| e@)
}

/// The validity window, each bound in the textual form that OpenSSL prints.
#[derive(Debug, Clone)]
pub struct Validity {
    pub not_before: String,
    pub not_after: String,
}

/// The public key, by key family. Only RSA keys are decoded further; the
/// size and the modulus exist together, and only for RSA.
#[derive(Debug, Clone)]
pub enum PublicKeyInfo {
    Rsa { key_size: u64, modulus: String },
    Unknown,
}

pub enum PublicKeyView {
    Rsa { key_size: nat, modulus: Seq<char> },
    Unknown,
}

impl View for PublicKeyInfo {
    type V = PublicKeyView;

    open spec fn view(&self) -> PublicKeyView {
        match self {
            PublicKeyInfo::Rsa { key_size, modulus } => PublicKeyView::Rsa {
                key_size: *key_size as nat,
                modulus: modulus@,
            },
            PublicKeyInfo::Unknown => PublicKeyView::Unknown,
        }
    }
}

/// The value of one hexadecimal digit, in either case.
pub open spec fn hex_digit(c: char) -> int {
    if '0' <= c && c <= '9' {
        (c as u32) - ('0' as u32)
    } else if 'A' <= c && c <= 'F' {
        (c as u32) - ('A' as u32) + 10
    } else if 'a' <= c && c <= 'f' {
        (c as u32) - ('a' as u32) + 10
    } else {
        0
    }
}

/// The value of a string of hexadecimal digits, most significant first.
pub open spec fn hex_value(s: Seq<char>) -> int
    decreases s.len(),
{
    if s.len() == 0 {
        0
    } else {
        16 * hex_value(s.drop_last()) + hex_digit(s.last())
    }
}

/// The value of a hexadecimal string with an optional leading '-'.
pub open spec fn signed_hex_value(s: Seq<char>) -> int {
    if s.len() > 0 && s[0] == '-' {
        -hex_value(s.drop_first())
    } else {
        hex_value(s)
    }
}

/// The number of bytes that `n` takes: its bit length rounded up to a byte.
pub open spec fn byte_len(n: nat) -> nat
    decreases n,
{
    if n == 0 {
        0
    } else {
        1 + byte_len(n / 256)
    }
}

/// The magnitude of an integer.
pub open spec fn magnitude(v: int) -> nat {
    if v < 0 {
        (-v) as nat
    } else {
        v as nat
    }
}

/// The number of bytes of the integer that a hexadecimal modulus denotes.
pub open spec fn modulus_bytes(m: Seq<char>) -> nat {
    byte_len(magnitude(signed_hex_value(m)))
}

/// The key family as it is displayed: "RSA" or "Unknown".
pub open spec fn key_type_of(k: PublicKeyView) -> Seq<char> {
    match k {
        PublicKeyView::Rsa { .. } => seq!['R', 'S', 'A'],
        PublicKeyView::Unknown => seq!['U', 'n', 'k', 'n', 'o', 'w', 'n'],
    }
}

impl PublicKeyInfo {
    /// The key family: "RSA" or "Unknown".
    pub fn key_type(&self) -> (r: String)
        ensures
            r@ == key_type_of(self@),
    {
        match self {
            PublicKeyInfo::Rsa { .. } => {
                let r = String::from_str("RSA");
                proof {
                    reveal_strlit("RSA");
                }
                assert(r@ =~= key_type_of(self@));
                r
            },
            PublicKeyInfo::Unknown => {
                let r = String::from_str("Unknown");
                proof {
                    reveal_strlit("Unknown");
                }
                assert(r@ =~= key_type_of(self@));
                r
            },
        }
    }

    /// The modulus bit length, present exactly for an RSA key.
    pub fn key_size(&self) -> (r: Option<u64>)
        ensures
            r is Some <==> self@ is Rsa,
            r is Some ==> r->0 as nat == self@->Rsa_key_size,
    {
        match self {
            PublicKeyInfo::Rsa { key_size, .. } => Some(*key_size),
            PublicKeyInfo::Unknown => None,
        }
    }

    /// The modulus in upper-case hexadecimal, present exactly for an RSA key.
    pub fn modulus(&self) -> (r: Option<String>)
        ensures
            r is Some <==> self@ is Rsa,
            r is Some ==> r->0@ == self@->Rsa_modulus,
    {
        match self {
            PublicKeyInfo::Rsa { modulus, .. } => Some(modulus.clone()),
            PublicKeyInfo::Unknown => None,
        }
    }
}

/// The key that the three document fields `key_type`, `key_size` and
/// `modulus` describe: an RSA key where the type is "RSA" and both the size
/// and the modulus are present, an unknown key where the type is "Unknown"
/// and both are absent, and nothing otherwise.
pub open spec fn key_from_fields(key_type: Seq<char>, key_size: Option<u64>, modulus: Option<
    Seq<char>,
>) -> Option<PublicKeyView> {
    match (key_size, modulus) {
        (Some(size), Some(m)) => if key_type == key_type_of(
            PublicKeyView::Rsa { key_size: size as nat, modulus: m },
        ) {
            Some(PublicKeyView::Rsa { key_size: size as nat, modulus: m })
        } else {
            None
        },
        (None, None) => if key_type == key_type_of(PublicKeyView::Unknown) {
            Some(PublicKeyView::Unknown)
        } else {
            None
        },
        _ => None,
    }
}

/// The view of an optional string.
pub open spec fn opt_view(o: Option<String>) -> Option<Seq<char>> {
    match o {
        Some(s) => Some(s@),
        None => None,
    }
}

impl PublicKeyInfo {
    /// Rebuilds a key from its document fields, as `key_from_fields` says.
    pub fn from_fields(key_type: &String, key_size: Option<u64>, modulus: Option<String>) -> (r:
        Option<PublicKeyInfo>)
        ensures
            match r {
                Some(p) => key_from_fields(key_type@, key_size, opt_view(modulus)) == Some(p@),
                None => key_from_fields(key_type@, key_size, opt_view(modulus)) is None,
            },
    {
        let candidate = match (key_size, modulus) {
            (Some(size), Some(m)) => PublicKeyInfo::Rsa { key_size: size, modulus: m },
            (None, None) => PublicKeyInfo::Unknown,
            _ => return None,
        };
        let expected = candidate.key_type();
        if expected == *key_type {
            Some(candidate)
        } else {
            None
        }
    }
}

/// A key flattened into its document fields and rebuilt from them is the
/// same key; an absent size and modulus stay absent.
pub proof fn lemma_key_fields_round_trip(p: PublicKeyInfo)
    ensures
        key_from_fields(
            key_type_of(p@),
            match p {
                PublicKeyInfo::Rsa { key_size, .. } => Some(key_size),
                PublicKeyInfo::Unknown => None,
            },
            match p {
                PublicKeyInfo::Rsa { modulus, .. } => Some(modulus@),
                PublicKeyInfo::Unknown => None,
            },
        ) == Some(p@),
{
}

/// Everything that is read out of one certificate.
///
/// `version` is the value as encoded, which counts from zero: a version 3
/// certificate holds 2 here.
#[derive(Debug, Clone)]
pub struct CertificateInfo {
    pub subject: Vec<NameEntry>,
    pub issuer: Vec<NameEntry>,
    pub validity: Validity,
    pub public_key: PublicKeyInfo,
    pub version: i32,
    pub serial_number: String,
    pub signature_algorithm: String,
}

pub struct CertificateInfoView {
    pub subject: Seq<NameEntryView>,
    pub issuer: Seq<NameEntryView>,
    pub not_before: Seq<char>,
    pub not_after: Seq<char>,
    pub public_key: PublicKeyView,
    pub version: int,
    pub serial_number: Seq<char>,
    pub signature_algorithm: Seq<char>,
}

impl View for CertificateInfo {
    type V = CertificateInfoView;

    open spec fn view(&self) -> CertificateInfoView {
        CertificateInfoView {
            subject: entries_view(self.subject@),
            issuer: entries_view(self.issuer@),
            not_before: self.validity.not_before@,
            not_after: self.validity.not_after@,
            public_key: self.public_key@,
            version: self.version as int,
            serial_number: self.serial_number@,
            signature_algorithm: self.signature_algorithm@,
        }
    }
}

} // verus!
