use vstd::prelude::*;
use vstd::utf8::{
    decode_utf8, encode_scalar, encode_utf8, has_width_1_encoding, leading_byte_width_1, valid_utf8,
};

verus! {

/// The text that lossy UTF-8 decoding makes of a byte sequence.
pub uninterp spec fn lossy_text(b: Seq<u8>) -> Seq<char>;

/// Relies on `String::from_utf8_lossy`: it never fails, gives the decoded
/// text of valid UTF-8 unchanged, and otherwise replaces each invalid
/// sequence with U+FFFD; the result depends on the bytes alone.
#[verifier::external_body]
pub(crate) fn decode_lossy(b: &[u8]) -> (r: String)
    ensures
        r@ == lossy_text(b@),
        valid_utf8(b@) ==> r@ == decode_utf8(b@),
{
    String::from_utf8_lossy(b).into_owned()
}

/// Appends the bytes of `b` to `out`.
pub(crate) fn append_bytes(out: &mut Vec<u8>, b: &[u8])
    ensures
        final(out)@ == old(out)@ + b@,
{
    let mut i: usize = 0;
    while i < b.len()
        invariant
            0 <= i <= b@.len(),
            out@ == old(out)@ + b@.subrange(0, i as int),
        decreases b@.len() - i,
    {
        out.push(b[i]);
        i = i + 1;
        assert(b@.subrange(0, i as int) == b@.subrange(0, i - 1) + seq![b@[i - 1]]);
    }
    assert(b@.subrange(0, b@.len() as int) == b@);
}

/// The UTF-8 bytes of `s`, as an owned buffer.
pub fn text_bytes(s: &str) -> (r: Vec<u8>)
    ensures
        r@ == encode_utf8(s@),
{
    let mut out: Vec<u8> = Vec::new();
    append_bytes(&mut out, s.as_bytes());
    out
}

/// Whether a byte sequence holds a zero byte.
pub open spec fn has_nul(b: Seq<u8>) -> bool {
    exists|i: int| 0 <= i < b.len() && b[i] == 0
}

/// The null-terminated buffer that carries `text` across the boundary, or
/// `None` where the text itself holds a NUL character and so cannot be
/// carried.
pub open spec fn output_of(text: Seq<char>) -> Option<Seq<u8>> {
    if text.contains('\0') {
        None
    } else {
        Some(encode_utf8(text).push(0u8))
    }
}

proof fn lemma_has_nul_concat(a: Seq<u8>, b: Seq<u8>)
    ensures
        has_nul(a + b) <==> has_nul(a) || has_nul(b),
{
    if has_nul(a + b) {
        let i = choose|i: int| 0 <= i < (a + b).len() && (a + b)[i] == 0;
        if i >= a.len() {
            assert(b[i - a.len()] == 0);
        }
    }
    if has_nul(a) {
        let i = choose|i: int| 0 <= i < a.len() && a[i] == 0;
        assert((a + b)[i] == 0);
    }
    if has_nul(b) {
        let i = choose|i: int| 0 <= i < b.len() && b[i] == 0;
        assert((a + b)[a.len() + i] == 0);
    }
}

proof fn lemma_scalar_has_nul(c: char)
    ensures
        has_nul(encode_scalar(c as u32)) <==> c == '\0',
{
    let v = c as u32;
    let e = encode_scalar(v);
    assert(('\0' as u32) == 0);
    if has_width_1_encoding(v) {
        assert(e == seq![leading_byte_width_1(v)]);
        assert(((v & 0x7F) as u8 == 0) <==> v == 0) by (bit_vector)
            requires
                v <= 0x7F,
        ;
        if has_nul(e) {
            assert(e[0] == 0);
            vstd::utf8::char_u32_cast(c, v);
        }
        if c == '\0' {
            assert(e[0] == 0);
        }
    } else {
        assert(forall|b: u8| #![trigger 0xC0u8 | b] 0xC0u8 | b != 0) by (bit_vector);
        assert(forall|b: u8| #![trigger 0xE0u8 | b] 0xE0u8 | b != 0) by (bit_vector);
        assert(forall|b: u8| #![trigger 0xF0u8 | b] 0xF0u8 | b != 0) by (bit_vector);
        assert(forall|b: u8| #![trigger 0x80u8 | b] 0x80u8 | b != 0) by (bit_vector);
        assert(!has_nul(e));
    }
}

/// A zero byte in the UTF-8 encoding of a text comes from a NUL character
/// and from nothing else, so the text can be carried in a null-terminated
/// buffer exactly when it holds no NUL.
pub proof fn lemma_nul_byte_iff_nul_char(t: Seq<char>)
    ensures
        has_nul(encode_utf8(t)) <==> t.contains('\0'),
    decreases t.len(),
{
    if t.len() > 0 {
        let c = t[0];
        let rest = t.drop_first();
        lemma_scalar_has_nul(c);
        lemma_nul_byte_iff_nul_char(rest);
        lemma_has_nul_concat(encode_scalar(c as u32), encode_utf8(rest));
        if t.contains('\0') {
            let i = choose|i: int| 0 <= i < t.len() && t[i] == '\0';
            if i > 0 {
                assert(rest[i - 1] == '\0');
            }
        }
        if rest.contains('\0') {
            let i = choose|i: int| 0 <= i < rest.len() && rest[i] == '\0';
            assert(t[i + 1] == '\0');
        }
        if c == '\0' {
            assert(t[0] == '\0');
        }
    }
}

/// Encodes `s` as UTF-8 followed by one terminating zero byte; fails where
/// `s` holds a zero byte of its own.
pub fn output_buffer(s: &str) -> (r: Option<Vec<u8>>)
    ensures
        r matches Some(v) ==> output_of(s@) == Some(v@),
        r is None ==> output_of(s@) is None,
{
    let b = s.as_bytes();
    let mut out: Vec<u8> = Vec::new();
    let mut i: usize = 0;
    while i < b.len()
        invariant
            0 <= i <= b@.len(),
            b@ == encode_utf8(s@),
            out@ == b@.subrange(0, i as int),
            forall|k: int| 0 <= k < i ==> b@[k] != 0,
        decreases b@.len() - i,
    {
        if b[i] == 0 {
            proof {
                lemma_nul_byte_iff_nul_char(s@);
            }
            return None;
        }
        out.push(b[i]);
        i = i + 1;
    }
    assert(out@ == b@);
    proof {
        lemma_nul_byte_iff_nul_char(s@);
    }
    out.push(0u8);
    Some(out)
}

} // verus!
