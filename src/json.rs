//! The pieces of compact JSON text that the outbound records are made of.
use vstd::prelude::*;

verus! {

#[verifier::external_type_specification]
#[verifier::external_body]
pub struct ExJsonValue(serde_json::Value);

#[verifier::external_type_specification]
#[verifier::external_body]
pub struct ExJsonError(serde_json::Error);

/// The JSON string literal that serde_json writes for the text `s`:
/// the characters between double quotes, with `"`, `\` and control
/// characters escaped.
pub uninterp spec fn json_string(s: Seq<char>) -> Seq<u8>;

/// Relies on `serde_json::to_vec` applied to a `str`: it writes the quoted,
/// escaped string literal into a `Vec<u8>`, a writer that never fails, so
/// the result is always `Ok`.
#[verifier::external_body]
pub(crate) fn encode_string(s: &str) -> (r: Result<Vec<u8>, serde_json::Error>)
    ensures
        r is Ok,
        r->Ok_0@ == json_string(s@),
{
    serde_json::to_vec(s)
}

/// Appends the JSON string literal for `s`.
pub fn push_string(out: &mut Vec<u8>, s: &str)
    ensures
        final(out)@ == old(out)@ + json_string(s@),
{
    if let Ok(mut b) = encode_string(s) {
        out.append(&mut b);
    }
}

/// The compact JSON text that serde_json writes for the document `v`.
pub uninterp spec fn document_json(v: serde_json::Value) -> Seq<u8>;

/// Relies on `serde_json::to_vec` applied to a `serde_json::Value`: the
/// document's compact JSON text. A `Value`'s objects have string keys only
/// and a `Vec<u8>` writer never fails, so the result is always `Ok`.
#[verifier::external_body]
pub(crate) fn encode_document(v: &serde_json::Value) -> (r: Result<Vec<u8>, serde_json::Error>)
    ensures
        r is Ok,
        r->Ok_0@ == document_json(*v),
{
    serde_json::to_vec(v)
}

/// The text that `String::from_utf8_lossy` makes of `b`: valid UTF-8
/// decoded, each invalid sequence replaced by U+FFFD.
pub uninterp spec fn lossy_text(b: Seq<u8>) -> Seq<char>;

/// Relies on `String::from_utf8_lossy`: the bytes as text, invalid
/// sequences replaced.
#[verifier::external_body]
pub(crate) fn utf8_lossy(b: &[u8]) -> (r: String)
    ensures
        r@ == lossy_text(b@),
{
    String::from_utf8_lossy(b).into_owned()
}

/// Decimal digits of `n`, most significant first, with no leading zeros.
pub open spec fn decimal(n: nat) -> Seq<u8>
    decreases n,
{
    if n < 10 {
        seq![(48 + n) as u8]
    } else {
        decimal(n / 10).push((48 + n % 10) as u8)
    }
}

/// Appends the decimal digits of `n`.
pub fn push_decimal(out: &mut Vec<u8>, n: u16)
    ensures
        final(out)@ == old(out)@ + decimal(n as nat),
    decreases n,
{
    if n >= 10 {
        push_decimal(out, n / 10);
    }
    out.push(48u8 + (n % 10) as u8);
    assert(final(out)@ =~= old(out)@ + decimal(n as nat));
}

/// Appends `bytes` to `out`.
pub fn push_bytes(out: &mut Vec<u8>, bytes: &[u8])
    ensures
        final(out)@ == old(out)@ + bytes@,
{
    let mut i: usize = 0;
    while i < bytes.len()
        invariant
            i <= bytes@.len(),
            out@ == old(out)@ + bytes@.subrange(0, i as int),
        decreases bytes@.len() - i,
    {
        out.push(bytes[i]);
        i = i + 1;
        assert(out@ =~= old(out)@ + bytes@.subrange(0, i as int));
    }
    assert(bytes@.subrange(0, i as int) =~= bytes@);
}

/// The bytes of a text made of ASCII characters alone.
pub open spec fn ascii(s: Seq<char>) -> Seq<u8> {
    s.map_values(|c: char| c as u8)
}

pub open spec fn is_ascii_text(s: Seq<char>) -> bool {
    forall|i: int| 0 <= i < s.len() ==> (s[i] as u32) < 128
}

/// Appends the ASCII text `s`.
pub fn push_ascii(out: &mut Vec<u8>, s: &str)
    requires
        is_ascii_text(s@),
    ensures
        final(out)@ == old(out)@ + ascii(s@),
{
    let n = s.unicode_len();
    let mut i: usize = 0;
    while i < n
        invariant
            n == s@.len(),
            i <= n,
            out@ == old(out)@ + ascii(s@.subrange(0, i as int)),
        decreases n - i,
    {
        let c = s.get_char(i);
        out.push(c as u8);
        i = i + 1;
        assert(ascii(s@.subrange(0, i as int)) =~= ascii(s@.subrange(0, i as int - 1)).push(c as u8));
        assert(out@ =~= old(out)@ + ascii(s@.subrange(0, i as int)));
    }
    assert(s@.subrange(0, i as int) =~= s@);
}

} // verus!
