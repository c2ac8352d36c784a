use vstd::prelude::*;
use crate::model::{
    entries_view, key_type_of, CertificateInfo, CertificateInfoView, NameEntry, NameEntryView,
    PublicKeyInfo, PublicKeyView,
};

verus! {

/// The character of a decimal digit.
pub open spec fn digit_char(d: nat) -> char {
    seq!['0', '1', '2', '3', '4', '5', '6', '7', '8', '9'][d as int]
}

/// The decimal digits of `n`, without leading zeros.
pub open spec fn decimal(n: nat) -> Seq<char>
    decreases n,
{
    if n < 10 {
        seq![digit_char(n)]
    } else {
        decimal(n / 10) + seq![digit_char(n % 10)]
    }
}

/// `v` in decimal, with a leading '-' when it is negative.
pub open spec fn signed_decimal(v: int) -> Seq<char> {
    if v < 0 {
        seq!['-'] + decimal((-v) as nat)
    } else {
        decimal(v as nat)
    }
}

/// One indented `key = value` line per entry, in order.
pub open spec fn entries_text(s: Seq<NameEntryView>) -> Seq<char>
    decreases s.len(),
{
    if s.len() == 0 {
        Seq::empty()
    } else {
        entries_text(s.drop_last()) + "  "@ + s.last().key + " = "@ + s.last().value + "\n"@
    }
}

/// The lines that only an RSA key has: its size in bits and its modulus.
pub open spec fn rsa_text(k: PublicKeyView) -> Seq<char> {
    match k {
        PublicKeyView::Rsa { key_size, modulus } => "RSA Key Size: "@ + decimal(key_size)
            + " bits\n"@ + "RSA Modulus: "@ + modulus + "\n"@,
        PublicKeyView::Unknown => Seq::empty(),
    }
}

/// The report's first line.
pub open spec fn report_header() -> Seq<char> {
    "--- Certificate Information ---\n"@
}

/// Everything of the report after the issuer's entries.
pub open spec fn report_tail(info: CertificateInfoView) -> Seq<char> {
    "Validity Period:\n"@ + "  Not Before: "@ + info.not_before + "\n"@ + "  Not After:  "@
        + info.not_after + "\n"@ + "Version: "@ + signed_decimal(info.version) + "\n"@
        + "Serial Number: "@ + info.serial_number + "\n"@ + "Signature Algorithm: "@
        + info.signature_algorithm + "\n"@ + "Public Key Type: "@ + key_type_of(info.public_key)
        + "\n"@ + rsa_text(info.public_key)
}

/// The text report: a header line, the subject's and the issuer's entries
/// under their headings, the validity window, the version, the serial
/// number, the signature algorithm and the public key.
pub open spec fn text_report(info: CertificateInfoView) -> Seq<char> {
    report_header() + "Subject:\n"@ + entries_text(info.subject) + "Issuer:\n"@ + entries_text(
        info.issuer,
    ) + report_tail(info)
}

/// With no subject entries, the "Subject:" heading line is followed at once
/// by the "Issuer:" heading line.
pub proof fn lemma_empty_subject_headings(info: CertificateInfoView)
    requires
        info.subject.len() == 0,
    ensures
        text_report(info) == report_header() + "Subject:\n"@ + "Issuer:\n"@ + entries_text(
            info.issuer,
        ) + report_tail(info),
{
    assert(entries_text(info.subject) =~= Seq::<char>::empty());
    assert(report_header() + "Subject:\n"@ + entries_text(info.subject) =~= report_header()
        + "Subject:\n"@);
}

/// The text of one decimal digit.
fn digit_str(d: u64) -> (r: &'static str)
    requires
        d < 10,
    ensures
        r@ == seq![digit_char(d as nat)],
{
    proof {
        reveal_strlit("0");
        reveal_strlit("1");
        reveal_strlit("2");
        reveal_strlit("3");
        reveal_strlit("4");
        reveal_strlit("5");
        reveal_strlit("6");
        reveal_strlit("7");
        reveal_strlit("8");
        reveal_strlit("9");
    }
    let r = if d == 0 {
        "0"
    } else if d == 1 {
        "1"
    } else if d == 2 {
        "2"
    } else if d == 3 {
        "3"
    } else if d == 4 {
        "4"
    } else if d == 5 {
        "5"
    } else if d == 6 {
        "6"
    } else if d == 7 {
        "7"
    } else if d == 8 {
        "8"
    } else {
        "9"
    };
    assert(r@ =~= seq![digit_char(d as nat)]);
    r
}

/// Appends `n` in decimal.
fn append_decimal(out: &mut String, n: u64)
    ensures
        final(out)@ == old(out)@ + decimal(n as nat),
    decreases n,
{
    let ghost start = out@;
    if n >= 10 {
        append_decimal(out, n / 10);
    }
    out.append(digit_str(n % 10));
    assert(out@ =~= start + decimal(n as nat));
}

/// Appends `v` in decimal, signed.
fn append_signed_decimal(out: &mut String, v: i32)
    ensures
        final(out)@ == old(out)@ + signed_decimal(v as int),
{
    let ghost start = out@;
    if v < 0 {
        out.append("-");
        proof {
            reveal_strlit("-");
        }
        let m: i64 = -(v as i64);
        append_decimal(out, m as u64);
        assert(out@ =~= start + signed_decimal(v as int));
    } else {
        append_decimal(out, v as u64);
    }
}

/// Appends one indented `key = value` line per entry.
fn append_entries(out: &mut String, entries: &Vec<NameEntry>)
    ensures
        final(out)@ == old(out)@ + entries_text(entries_view(entries@)),
{
    let ghost start = out@;
    let mut i: usize = 0;
    assert(entries_view(entries@.take(0)) =~= Seq::<NameEntryView>::empty());
    while i < entries.len()
        invariant
            i <= entries@.len(),
            out@ == start + entries_text(entries_view(entries@.take(i as int))),
        decreases entries@.len() - i,
    {
        let ghost before = out@;
        let e = &entries[i];
        out.append("  ");
        out.append(e.key.as_str());
        out.append(" = ");
        out.append(e.value.as_str());
        out.append("\n");
        let ghost next = entries_view(entries@.take(i + 1));
        assert(next.drop_last() =~= entries_view(entries@.take(i as int)));
        assert(next.last() == e@);
        assert(out@ =~= start + entries_text(next));
        i = i + 1;
    }
    assert(entries@.take(i as int) =~= entries@);
}

/// Appends everything of the report after the issuer's entries.
fn append_tail(out: &mut String, info: &CertificateInfo)
    ensures
        final(out)@ == old(out)@ + report_tail(info@),
{
    let ghost start = out@;
    out.append("Validity Period:\n");
    out.append("  Not Before: ");
    out.append(info.validity.not_before.as_str());
    out.append("\n");
    out.append("  Not After:  ");
    out.append(info.validity.not_after.as_str());
    out.append("\n");
    out.append("Version: ");
    append_signed_decimal(out, info.version);
    out.append("\n");
    out.append("Serial Number: ");
    out.append(info.serial_number.as_str());
    out.append("\n");
    out.append("Signature Algorithm: ");
    out.append(info.signature_algorithm.as_str());
    out.append("\n");
    out.append("Public Key Type: ");
    let key_type = info.public_key.key_type();
    out.append(key_type.as_str());
    out.append("\n");
    let ghost before_rsa = out@;
    match &info.public_key {
        PublicKeyInfo::Rsa { key_size, modulus } => {
            out.append("RSA Key Size: ");
            append_decimal(out, *key_size);
            out.append(" bits\n");
            out.append("RSA Modulus: ");
            out.append(modulus.as_str());
            out.append("\n");
            assert(out@ =~= before_rsa + rsa_text(info.public_key@));
        },
        PublicKeyInfo::Unknown => {
            assert(out@ =~= before_rsa + rsa_text(info.public_key@));
        },
    }
    assert(out@ =~= start + report_tail(info@));
}

/// Renders the text report of a certificate.
pub fn render_text(info: &CertificateInfo) -> (r: String)
    ensures
        r@ == text_report(info@),
{
    let mut out = String::new();
    out.append("--- Certificate Information ---\n");
    out.append("Subject:\n");
    append_entries(&mut out, &info.subject);
    out.append("Issuer:\n");
    append_entries(&mut out, &info.issuer);
    let ghost names = out@;
    assert(names =~= report_header() + "Subject:\n"@ + entries_text(info@.subject) + "Issuer:\n"@
        + entries_text(info@.issuer));
    append_tail(&mut out, info);
    out
}

} // verus!
