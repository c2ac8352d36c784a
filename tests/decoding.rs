use certinfo::{
    certificate_info, name_entries, name_entry, public_key_info, FieldDecodeError, PublicKeyInfo,
    RawCertificate, RawNameEntry, RawPublicKey,
};

fn raw_entry(key: &str, value: &str) -> RawNameEntry {
    RawNameEntry { key: Some(key.to_string()), value: Some(value.to_string()) }
}

fn raw_certificate(subject: Vec<RawNameEntry>, issuer: Vec<RawNameEntry>) -> RawCertificate {
    RawCertificate {
        subject,
        issuer,
        not_before: "Jan  1 00:00:00 2024 GMT".to_string(),
        not_after: "Jan  1 00:00:00 2025 GMT".to_string(),
        public_key: RawPublicKey::Rsa { size_bytes: 256, modulus: Some("C0FFEE".to_string()) },
        version: 2,
        serial_number: Some("01".to_string()),
        signature_algorithm: "sha256WithRSAEncryption".to_string(),
    }
}

#[test]
fn names_keep_count_order_and_duplicates() {
    let subject = vec![
        raw_entry("C", "US"),
        raw_entry("OU", "b"),
        raw_entry("OU", "a"),
        raw_entry("CN", "example.com"),
    ];
    let issuer = vec![raw_entry("CN", "Root"), raw_entry("O", "Authority")];
    let info = certificate_info(&raw_certificate(subject, issuer)).unwrap();
    let keys: Vec<&str> = info.subject.iter().map(|e| e.key.as_str()).collect();
    let values: Vec<&str> = info.subject.iter().map(|e| e.value.as_str()).collect();
    assert_eq!(keys, vec!["C", "OU", "OU", "CN"]);
    assert_eq!(values, vec!["US", "b", "a", "example.com"]);
    assert_eq!(info.issuer.len(), 2);
    assert_eq!(info.issuer[0].key, "CN");
    assert_eq!(info.issuer[1].value, "Authority");
}

#[test]
fn empty_names_are_kept_empty() {
    let info = certificate_info(&raw_certificate(vec![], vec![])).unwrap();
    assert!(info.subject.is_empty());
    assert!(info.issuer.is_empty());
}

#[test]
fn fields_are_carried_over() {
    let info = certificate_info(&raw_certificate(vec![], vec![])).unwrap();
    assert_eq!(info.version, 2);
    assert_eq!(info.serial_number, "01");
    assert_eq!(info.signature_algorithm, "sha256WithRSAEncryption");
    assert_eq!(info.validity.not_before, "Jan  1 00:00:00 2024 GMT");
    assert_eq!(info.validity.not_after, "Jan  1 00:00:00 2025 GMT");
    assert_eq!(info.public_key.key_type(), "RSA");
    assert_eq!(info.public_key.key_size(), Some(2048));
    assert_eq!(info.public_key.modulus(), Some("C0FFEE".to_string()));
}

#[test]
fn unresolved_attribute_fails_the_whole_name() {
    let subject = vec![
        raw_entry("CN", "ok"),
        RawNameEntry { key: None, value: Some("x".to_string()) },
    ];
    let r = certificate_info(&raw_certificate(subject, vec![]));
    assert_eq!(r.unwrap_err(), FieldDecodeError::UnresolvedAttribute);
}

#[test]
fn non_utf8_value_fails_in_the_issuer() {
    let issuer = vec![RawNameEntry { key: Some("CN".to_string()), value: None }];
    let r = certificate_info(&raw_certificate(vec![raw_entry("CN", "ok")], issuer));
    assert_eq!(r.unwrap_err(), FieldDecodeError::InvalidText);
}

#[test]
fn first_failing_entry_decides_the_error() {
    let subject = vec![
        RawNameEntry { key: Some("CN".to_string()), value: None },
        RawNameEntry { key: None, value: None },
    ];
    assert_eq!(name_entries(&subject).unwrap_err(), FieldDecodeError::InvalidText);
    let entry = RawNameEntry { key: None, value: None };
    assert_eq!(name_entry(&entry).unwrap_err(), FieldDecodeError::UnresolvedAttribute);
}

#[test]
fn unreadable_public_key_fails() {
    let mut raw = raw_certificate(vec![], vec![]);
    raw.public_key = RawPublicKey::Unreadable;
    assert_eq!(certificate_info(&raw).unwrap_err(), FieldDecodeError::PublicKey);
}

#[test]
fn unrenderable_modulus_fails() {
    let key = RawPublicKey::Rsa { size_bytes: 128, modulus: None };
    assert_eq!(public_key_info(&key).unwrap_err(), FieldDecodeError::PublicKey);
}

#[test]
fn unrenderable_serial_fails() {
    let mut raw = raw_certificate(vec![], vec![]);
    raw.serial_number = None;
    assert_eq!(certificate_info(&raw).unwrap_err(), FieldDecodeError::SerialNumber);
}

#[test]
fn name_error_comes_before_key_error() {
    let mut raw = raw_certificate(vec![RawNameEntry { key: None, value: None }], vec![]);
    raw.public_key = RawPublicKey::Unreadable;
    raw.serial_number = None;
    assert_eq!(certificate_info(&raw).unwrap_err(), FieldDecodeError::UnresolvedAttribute);
}

#[test]
fn other_key_family_is_unknown_without_size_or_modulus() {
    let p = public_key_info(&RawPublicKey::Other).unwrap();
    assert_eq!(p.key_type(), "Unknown");
    assert_eq!(p.key_size(), None);
    assert_eq!(p.modulus(), None);
}

#[test]
fn rsa_key_size_is_eight_times_the_byte_size() {
    let key = RawPublicKey::Rsa { size_bytes: 512, modulus: Some("AB".to_string()) };
    let p = public_key_info(&key).unwrap();
    assert_eq!(p.key_size(), Some(4096));
    assert_eq!(p.modulus(), Some("AB".to_string()));
}

#[test]
fn key_fields_round_trip() {
    let rsa = PublicKeyInfo::Rsa { key_size: 2048, modulus: "C0FFEE".to_string() };
    let back =
        PublicKeyInfo::from_fields(&rsa.key_type(), rsa.key_size(), rsa.modulus()).unwrap();
    assert_eq!(back.key_size(), Some(2048));
    assert_eq!(back.modulus(), Some("C0FFEE".to_string()));
    let unknown = PublicKeyInfo::Unknown;
    let back = PublicKeyInfo::from_fields(&unknown.key_type(), None, None).unwrap();
    assert_eq!(back.key_type(), "Unknown");
    assert_eq!(back.key_size(), None);
}

#[test]
fn key_fields_that_disagree_are_refused() {
    assert!(PublicKeyInfo::from_fields(&"RSA".to_string(), None, None).is_none());
    assert!(PublicKeyInfo::from_fields(&"Unknown".to_string(), Some(8), Some("FF".to_string()))
        .is_none());
    assert!(PublicKeyInfo::from_fields(&"RSA".to_string(), Some(8), None).is_none());
}
