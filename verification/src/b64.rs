//! Standard base64 with padding, the encoding used for the binary fields of
//! a stored secret payload. The encoding is specified exactly, byte for
//! byte; the outside calls are trusted against that spec.

use vstd::prelude::*;

verus! {

/// The byte standing at position `v` of the standard base64 alphabet.
pub open spec fn b64_char(v: int) -> u8 {
    if v < 26 {
        (65 + v) as u8  // 'A'..'Z'

    } else if v < 52 {
        (97 + (v - 26)) as u8  // 'a'..'z'

    } else if v < 62 {
        (48 + (v - 52)) as u8  // '0'..'9'

    } else if v == 62 {
        43  // '+'

    } else {
        47  // '/'

    }
}

/// Standard base64 rendering of a byte sequence, with `=` padding: three
/// input bytes become four alphabet bytes; one or two trailing input bytes
/// become a padded four-byte group.
pub open spec fn b64_of(b: Seq<u8>) -> Seq<u8>
    decreases b.len(),
{
    if b.len() == 0 {
        Seq::empty()
    } else if b.len() == 1 {
        seq![
            b64_char(b[0] as int / 4),
            b64_char((b[0] as int % 4) * 16),
            61u8,
            61u8,
        ]
    } else if b.len() == 2 {
        seq![
            b64_char(b[0] as int / 4),
            b64_char((b[0] as int % 4) * 16 + b[1] as int / 16),
            b64_char((b[1] as int % 16) * 4),
            61u8,
        ]
    } else {
        seq![
            b64_char(b[0] as int / 4),
            b64_char((b[0] as int % 4) * 16 + b[1] as int / 16),
            b64_char((b[1] as int % 16) * 4 + b[2] as int / 64),
            b64_char(b[2] as int % 64),
        ] + b64_of(b.skip(3))
    }
}

/// No base64 output byte is a double quote (34), so a quoted base64 field
/// in a JSON text ends exactly at the closing quote.
pub proof fn lemma_b64_no_quote(m: Seq<u8>)
    ensures
        forall|i: int| 0 <= i < b64_of(m).len() ==> b64_of(m)[i] != 34,
    decreases m.len(),
{
    if m.len() >= 3 {
        lemma_b64_no_quote(m.skip(3));
        assert forall|i: int| 0 <= i < b64_of(m).len() implies b64_of(m)[i] != 34 by {
            if i >= 4 {
                assert(b64_of(m)[i] == b64_of(m.skip(3))[i - 4]);
            }
        }
    }
}

/// Relies on `base64::engine::general_purpose::STANDARD` encoding: the
/// standard alphabet with `=` padding, as `b64_of` lays it out.
#[verifier::external_body]
pub(crate) fn b64_encode(data: &Vec<u8>) -> (r: Vec<u8>)
    ensures
        r@ == b64_of(data@),
{
    base64::Engine::encode(&base64::engine::general_purpose::STANDARD, data.as_slice())
        .into_bytes()
}

/// Relies on `base64::engine::general_purpose::STANDARD` decoding, which
/// requires canonical padding and rejects non-zero trailing bits: it
/// accepts exactly the canonical encodings and inverts `b64_of` on them.
#[verifier::external_body]
pub(crate) fn b64_decode(data: &Vec<u8>) -> (r: Option<Vec<u8>>)
    ensures
        r is Some ==> data@ == b64_of(r->Some_0@),
        forall|m: Seq<u8>| data@ == b64_of(m) ==> r is Some && r->Some_0@ == m,
{
    base64::Engine::decode(&base64::engine::general_purpose::STANDARD, data.as_slice()).ok()
}

} // verus!
