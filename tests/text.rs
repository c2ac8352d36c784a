use certinfo::{render_text, CertificateInfo, NameEntry, PublicKeyInfo, Validity};

fn entry(k: &str, v: &str) -> NameEntry {
    NameEntry { key: k.to_string(), value: v.to_string() }
}

fn info(subject: Vec<NameEntry>, public_key: PublicKeyInfo, version: i32) -> CertificateInfo {
    CertificateInfo {
        subject,
        issuer: vec![entry("C", "US"), entry("CN", "Root CA")],
        validity: Validity { not_before: "NB".to_string(), not_after: "NA".to_string() },
        public_key,
        version,
        serial_number: "0A1B".to_string(),
        signature_algorithm: "sha256WithRSAEncryption".to_string(),
    }
}

#[test]
fn text_report_for_rsa_key() {
    let key = PublicKeyInfo::Rsa { key_size: 2048, modulus: "C0FFEE".to_string() };
    let text = render_text(&info(vec![entry("CN", "example.com")], key, 2));
    let expected = "--- Certificate Information ---\n\
Subject:\n\
\x20 CN = example.com\n\
Issuer:\n\
\x20 C = US\n\
\x20 CN = Root CA\n\
Validity Period:\n\
\x20 Not Before: NB\n\
\x20 Not After:  NA\n\
Version: 2\n\
Serial Number: 0A1B\n\
Signature Algorithm: sha256WithRSAEncryption\n\
Public Key Type: RSA\n\
RSA Key Size: 2048 bits\n\
RSA Modulus: C0FFEE\n";
    assert_eq!(text, expected);
}

#[test]
fn text_report_for_unknown_key_has_no_rsa_lines() {
    let text = render_text(&info(vec![entry("CN", "x")], PublicKeyInfo::Unknown, 0));
    assert!(text.ends_with("Version: 0\nSerial Number: 0A1B\nSignature Algorithm: sha256WithRSAEncryption\nPublic Key Type: Unknown\n"));
    assert!(!text.contains("RSA Key Size"));
    assert!(!text.contains("RSA Modulus"));
}

#[test]
fn text_report_with_empty_subject_has_adjacent_headings() {
    let text = render_text(&info(vec![], PublicKeyInfo::Unknown, 2));
    let lines: Vec<&str> = text.lines().collect();
    assert_eq!(lines[0], "--- Certificate Information ---");
    assert_eq!(lines[1], "Subject:");
    assert_eq!(lines[2], "Issuer:");
}

#[test]
fn text_report_with_negative_version() {
    let text = render_text(&info(vec![], PublicKeyInfo::Unknown, -12));
    assert!(text.contains("\nVersion: -12\n"));
}

#[test]
fn text_report_key_sizes_in_decimal() {
    for (size, shown) in [(0u64, "0"), (7, "7"), (10, "10"), (4096, "4096"), (u64::MAX, "18446744073709551615")] {
        let key = PublicKeyInfo::Rsa { key_size: size, modulus: "FF".to_string() };
        let text = render_text(&info(vec![], key, 2));
        assert!(text.contains(&format!("\nRSA Key Size: {} bits\n", shown)));
    }
}
