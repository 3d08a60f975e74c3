use vstd::prelude::*;
use vstd::utf8::encode_utf8;
use crate::text::append_bytes;

verus! {

pub const BACKSLASH: u8 = 0x5c;

pub const BACKTICK: u8 = 0x60;

pub const DOLLAR: u8 = 0x24;

pub const CARRIAGE_RETURN: u8 = 0x0d;

pub const SEMICOLON: u8 = 0x3b;

pub const LETTER_R: u8 = 0x72;

pub const LETTER_X: u8 = 0x78;

pub const DIGIT_ZERO: u8 = 0x30;

/// The bytes that stand for `c` inside a template literal. A backslash, a
/// backtick and a dollar sign get a backslash before them; a carriage return
/// becomes `\r` (a raw one would be read as a line feed) and a zero byte
/// becomes `\x00` (the engine refuses source text holding one).
pub open spec fn escape_byte(c: u8) -> Seq<u8> {
    if c == BACKSLASH || c == BACKTICK || c == DOLLAR {
        seq![BACKSLASH, c]
    } else if c == CARRIAGE_RETURN {
        seq![BACKSLASH, LETTER_R]
    } else if c == 0 {
        seq![BACKSLASH, LETTER_X, DIGIT_ZERO, DIGIT_ZERO]
    } else {
        seq![c]
    }
}

/// The body of a template literal whose value is `b`.
pub open spec fn escape_template(b: Seq<u8>) -> Seq<u8>
    decreases b.len(),
{
    if b.len() == 0 {
        Seq::empty()
    } else {
        escape_byte(b[0]) + escape_template(b.skip(1))
    }
}

pub open spec fn prepend(c: u8, rest: Option<Seq<u8>>) -> Option<Seq<u8>> {
    match rest {
        Some(s) => Some(seq![c] + s),
        None => None,
    }
}

/// The value JavaScript gives a template-literal body made of plain bytes and
/// the escapes `\\`, `` \` ``, `\$`, `\r` and `\x00`. A body holding anything
/// else that is not plain (a bare backtick, which would end the literal; a
/// bare `$`, which could open a substitution; a raw carriage return; a zero
/// byte; any other escape) is outside this description and gives `None`.
pub open spec fn template_value(t: Seq<u8>) -> Option<Seq<u8>>
    decreases t.len(),
{
    if t.len() == 0 {
        Some(Seq::empty())
    } else if t[0] == BACKSLASH {
        if t.len() >= 2 && (t[1] == BACKSLASH || t[1] == BACKTICK || t[1] == DOLLAR) {
            prepend(t[1], template_value(t.skip(2)))
        } else if t.len() >= 2 && t[1] == LETTER_R {
            prepend(CARRIAGE_RETURN, template_value(t.skip(2)))
        } else if t.len() >= 4 && t[1] == LETTER_X && t[2] == DIGIT_ZERO && t[3] == DIGIT_ZERO {
            prepend(0, template_value(t.skip(4)))
        } else {
            None
        }
    } else if t[0] == BACKTICK || t[0] == DOLLAR || t[0] == CARRIAGE_RETURN || t[0] == 0 {
        None
    } else {
        prepend(t[0], template_value(t.skip(1)))
    }
}

/// The bytes of `const inputData = `, which open every binding.
pub open spec fn binding_head() -> Seq<u8> {
    encode_utf8("const inputData = "@)
}

/// The script that binds `inputData` to the string `text`, as a template
/// literal.
pub open spec fn string_binding_source(text: Seq<char>) -> Seq<u8> {
    binding_head() + seq![BACKTICK] + escape_template(encode_utf8(text)) + seq![BACKTICK, SEMICOLON]
}

/// The script that binds `inputData` to the value of the expression `text`.
pub open spec fn expression_binding_source(text: Seq<char>) -> Seq<u8> {
    binding_head() + encode_utf8(text) + seq![SEMICOLON]
}

proof fn lemma_escape_concat(a: Seq<u8>, b: Seq<u8>)
    ensures
        escape_template(a + b) == escape_template(a) + escape_template(b),
    decreases a.len(),
{
    if a.len() == 0 {
        assert(a + b == b);
    } else {
        assert((a + b).skip(1) == a.skip(1) + b);
        lemma_escape_concat(a.skip(1), b);
        assert((a + b)[0] == a[0]);
    }
}

/// The template literal that the string binding writes denotes exactly the
/// bytes it was given: reading the escaped body back yields `b`, and the body
/// holds no bare backtick that would end the literal early.
pub proof fn lemma_escape_round_trip(b: Seq<u8>)
    ensures
        template_value(escape_template(b)) == Some(b),
    decreases b.len(),
{
    if b.len() == 0 {
    } else {
        let c = b[0];
        let rest = escape_template(b.skip(1));
        let t = escape_byte(c) + rest;
        lemma_escape_round_trip(b.skip(1));
        if c == BACKSLASH || c == BACKTICK || c == DOLLAR || c == CARRIAGE_RETURN {
            assert(t.skip(2) == rest);
        } else if c == 0 {
            assert(t.skip(4) == rest);
        } else {
            assert(t.skip(1) == rest);
        }
        assert(seq![c] + b.skip(1) == b);
    }
}

/// The string binding of `text` is the binding head, a backtick, a body
/// whose template-literal value is exactly the UTF-8 bytes of `text`, and a
/// closing backtick with a semicolon: the script that follows sees
/// `inputData` equal to the text it was given.
pub proof fn lemma_string_binding_value(text: Seq<char>)
    ensures
        exists|body: Seq<u8>|
            #![trigger template_value(body)]
            string_binding_source(text) == binding_head() + seq![BACKTICK] + body + seq![
                BACKTICK,
                SEMICOLON,
            ] && template_value(body) == Some(encode_utf8(text)),
{
    let body = escape_template(encode_utf8(text));
    lemma_escape_round_trip(encode_utf8(text));
    assert(template_value(body) == Some(encode_utf8(text)));
}

/// Appends the template-literal body whose value is `b` to `out`.
fn append_escaped(out: &mut Vec<u8>, b: &[u8])
    ensures
        final(out)@ == old(out)@ + escape_template(b@),
{
    let mut i: usize = 0;
    while i < b.len()
        invariant
            0 <= i <= b@.len(),
            out@ == old(out)@ + escape_template(b@.subrange(0, i as int)),
        decreases b@.len() - i,
    {
        let c = b[i];
        proof {
            let done = b@.subrange(0, i as int);
            let one = b@.subrange(i as int, i + 1);
            assert(b@.subrange(0, i + 1) == done + one);
            lemma_escape_concat(done, one);
            assert(one.skip(1).len() == 0);
            assert(escape_template(one) == escape_byte(c) + escape_template(one.skip(1)));
        }
        if c == BACKSLASH || c == BACKTICK || c == DOLLAR {
            out.push(BACKSLASH);
            out.push(c);
        } else if c == CARRIAGE_RETURN {
            out.push(BACKSLASH);
            out.push(LETTER_R);
        } else if c == 0 {
            out.push(BACKSLASH);
            out.push(LETTER_X);
            out.push(DIGIT_ZERO);
            out.push(DIGIT_ZERO);
        } else {
            out.push(c);
        }
        i = i + 1;
    }
    assert(b@.subrange(0, b@.len() as int) == b@);
}

/// Script text that binds `inputData` to the string `input`, written as a
/// backtick-delimited literal whose value is exactly `input`.
pub fn string_binding(input: &str) -> (r: Vec<u8>)
    ensures
        r@ == string_binding_source(input@),
{
    let mut out: Vec<u8> = Vec::new();
    append_bytes(&mut out, "const inputData = ".as_bytes());
    out.push(BACKTICK);
    append_escaped(&mut out, input.as_bytes());
    out.push(BACKTICK);
    out.push(SEMICOLON);
    out
}

/// Script text that binds `inputData` to the value of `input`, read as a
/// script expression (an object literal, JSON text, a number, ...).
pub fn expression_binding(input: &str) -> (r: Vec<u8>)
    ensures
        r@ == expression_binding_source(input@),
{
    let mut out: Vec<u8> = Vec::new();
    append_bytes(&mut out, "const inputData = ".as_bytes());
    append_bytes(&mut out, input.as_bytes());
    out.push(SEMICOLON);
    out
}

} // verus!
