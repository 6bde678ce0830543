//! Cryptographic primitives taken from OpenSSL, and the text layout rules
//! that the wire format puts around them.

use vstd::prelude::*;
use vstd::string::*;
use vstd::utf8::valid_utf8;

verus! {

/// The SHA-1 digest of a byte string.
pub uninterp spec fn sha1_digest_of(data: Seq<u8>) -> Seq<u8>;

/// The character of the standard base64 alphabet for a six-bit value.
pub open spec fn base64_char(v: u8) -> u8 {
    if v < 26 {
        (65 + v) as u8
    } else if v < 52 {
        (97 + (v - 26)) as u8
    } else if v < 62 {
        (48 + (v - 52)) as u8
    } else if v == 62 {
        43u8
    } else {
        47u8
    }
}

/// The standard base64 encoding (with `=` padding, without line breaks) of
/// a byte string, as ASCII bytes: each group of three bytes becomes four
/// characters of six bits each.
pub open spec fn base64_encoding_of(data: Seq<u8>) -> Seq<u8>
    decreases data.len(),
{
    if data.len() == 0 {
        Seq::empty()
    } else if data.len() == 1 {
        seq![base64_char(data[0] >> 2u8), base64_char((data[0] & 3u8) << 4u8), 61u8, 61u8]
    } else if data.len() == 2 {
        seq![
            base64_char(data[0] >> 2u8),
            base64_char(((data[0] & 3u8) << 4u8) | (data[1] >> 4u8)),
            base64_char((data[1] & 15u8) << 2u8),
            61u8,
        ]
    } else {
        seq![
            base64_char(data[0] >> 2u8),
            base64_char(((data[0] & 3u8) << 4u8) | (data[1] >> 4u8)),
            base64_char(((data[1] & 15u8) << 2u8) | (data[2] >> 6u8)),
            base64_char(data[2] & 63u8),
        ] + base64_encoding_of(data.skip(3))
    }
}

/// The bytes that a base64 text (UTF-8, without line breaks) decodes to, or
/// `None` when the text is not valid base64.
pub uninterp spec fn base64_decoding_of(text: Seq<u8>) -> Option<Seq<u8>>;

/// The longest input that the encoder accepts: its output length must fit a
/// C `int`.
pub const MAX_BASE64_INPUT: usize = 1_500_000_000;

/// The longest text that the decoder accepts.
pub const MAX_BASE64_TEXT: usize = 2_147_483_647;

/// The width of a line of base64 text on the wire.
pub const BASE64_LINE_WIDTH: usize = 64;

/// Relies on `openssl::sha::sha1`: the 20-byte SHA-1 digest of `data`.
#[verifier::external_body]
pub(crate) fn sha1_digest(data: &[u8]) -> (r: Vec<u8>)
    ensures
        r@ == sha1_digest_of(data@),
        r@.len() == 20,
{
    openssl::sha::sha1(data).to_vec()
}

/// Relies on `openssl::base64::encode_block`: four output characters for
/// each started group of three input bytes, no line breaks.
#[verifier::external_body]
pub(crate) fn base64_encode(data: &[u8]) -> (r: Vec<u8>)
    requires
        data@.len() <= MAX_BASE64_INPUT,
    ensures
        r@ == base64_encoding_of(data@),
        r@.len() == 4 * ((data@.len() + 2) / 3),
{
    openssl::base64::encode_block(data).into_bytes()
}

/// Relies on `std::str::from_utf8`: the bytes read as text, when they are
/// valid UTF-8.
#[verifier::external_body]
pub(crate) fn utf8_text(bytes: &[u8]) -> (r: Option<&str>)
    ensures
        r.is_some() == valid_utf8(bytes@),
        r.is_some() ==> r.unwrap().spec_bytes() == bytes@,
{
    std::str::from_utf8(bytes).ok()
}

/// Relies on `openssl::base64::decode_block`: the decoded bytes, or `None`
/// when the text is not base64.
#[verifier::external_body]
pub(crate) fn base64_decode(text: &str) -> (r: Option<Vec<u8>>)
    requires
        text.spec_bytes().len() <= MAX_BASE64_TEXT,
    ensures
        r.is_some() == base64_decoding_of(text.spec_bytes()).is_some(),
        r.is_some() ==> r.unwrap()@ == base64_decoding_of(text.spec_bytes()).unwrap(),
{
    openssl::base64::decode_block(text).ok()
}

/// `text` cut into lines of `width` bytes, joined by line feeds; the last
/// line may be shorter, and no line feed ends the text.
pub open spec fn wrap_lines(text: Seq<u8>, width: nat) -> Seq<u8>
    decreases text.len(),
{
    if width == 0 || text.len() <= width {
        text
    } else {
        text.take(width as int) + seq![10u8] + wrap_lines(text.skip(width as int), width)
    }
}

/// `text` without its line feeds and carriage returns.
pub open spec fn strip_line_breaks(text: Seq<u8>) -> Seq<u8> {
    text.filter(|b: u8| b != 10u8 && b != 13u8)
}

/// Cuts `text` into lines of `width` bytes joined by line feeds.
pub fn wrap(text: &[u8], width: usize) -> (r: Vec<u8>)
    requires
        width > 0,
    ensures
        r@ == wrap_lines(text@, width as nat),
{
    let mut out: Vec<u8> = Vec::new();
    let mut pos: usize = 0;
    let n = text.len();
    proof {
        assert(text@.skip(0) =~= text@);
        assert(out@ + wrap_lines(text@, width as nat) =~= wrap_lines(text@, width as nat));
    }
    while pos < n
        invariant
            width > 0,
            n == text@.len(),
            pos <= n,
            pos == 0 ==> out@ == Seq::<u8>::empty(),
            pos > 0 && pos < n ==> wrap_lines(text@, width as nat) == out@ + seq![10u8]
                + wrap_lines(text@.skip(pos as int), width as nat),
            pos == 0 ==> wrap_lines(text@, width as nat) == out@ + wrap_lines(
                text@.skip(pos as int),
                width as nat,
            ),
            pos >= n ==> out@ == wrap_lines(text@, width as nat),
        decreases n - pos,
    {
        let ghost rest = text@.skip(pos as int);
        let ghost before = out@;
        if pos > 0 {
            out.push(10u8);
        }
        let end: usize = if n - pos <= width { n } else { pos + width };
        let mut i: usize = pos;
        while i < end
            invariant
                pos <= i <= end <= n,
                n == text@.len(),
                out@ == (if pos > 0 { before + seq![10u8] } else { before }) + text@.subrange(
                    pos as int,
                    i as int,
                ),
            decreases end - i,
        {
            out.push(text[i]);
            i = i + 1;
        }
        proof {
            let sep = if pos > 0 { seq![10u8] } else { Seq::<u8>::empty() };
            assert(out@ =~= before + sep + text@.subrange(pos as int, end as int));
            if n - pos <= width {
                assert(rest =~= text@.subrange(pos as int, end as int));
                assert(wrap_lines(rest, width as nat) == rest);
            } else {
                assert(rest.take(width as int) =~= text@.subrange(pos as int, end as int));
                assert(rest.skip(width as int) =~= text@.skip(end as int));
            }
        }
        pos = end;
    }
    out
}

/// `text` without its line feeds and carriage returns.
pub fn strip_breaks(text: &[u8]) -> (r: Vec<u8>)
    ensures
        r@ == strip_line_breaks(text@),
{
    let mut out: Vec<u8> = Vec::new();
    let mut i: usize = 0;
    while i < text.len()
        invariant
            i <= text@.len(),
            out@ == strip_line_breaks(text@.take(i as int)),
        decreases text.len() - i,
    {
        proof {
            reveal(Seq::filter);
            assert(text@.take(i as int + 1).drop_last() =~= text@.take(i as int));
        }
        let b = text[i];
        if b != 10u8 && b != 13u8 {
            out.push(b);
        }
        i = i + 1;
    }
    assert(text@.take(text@.len() as int) =~= text@);
    out
}

/// An owned copy of a byte string.
pub fn copy_bytes(data: &[u8]) -> (r: Vec<u8>)
    ensures
        r@ == data@,
{
    let mut out: Vec<u8> = Vec::new();
    let mut i: usize = 0;
    while i < data.len()
        invariant
            i <= data@.len(),
            out@ == data@.take(i as int),
        decreases data.len() - i,
    {
        out.push(data[i]);
        i = i + 1;
        assert(out@ =~= data@.take(i as int));
    }
    assert(data@.take(data@.len() as int) =~= data@);
    out
}

} // verus!
