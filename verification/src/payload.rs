//! The on-disk form of an encrypted secret: a JSON object holding the
//! algorithm label, the base64 of ciphertext, nonce, salt and tag, and a
//! version number. The text is specified byte for byte, and the parser is
//! proved to invert the serializer.

use vstd::prelude::*;
use vstd::string::*;
use vstd::utf8::*;
use crate::b64::{b64_of, b64_encode, b64_decode, lemma_b64_no_quote};
use crate::bytes::{extend_bytes, subrange_bytes, bytes_match_at};

verus! {

/// An encrypted provider secret as stored on disk, fields decoded.
pub struct SecretPayload {
    pub salt: Vec<u8>,
    pub nonce: Vec<u8>,
    pub tag: Vec<u8>,
    pub ciphertext: Vec<u8>,
}

/// Mathematical model of a payload: the four binary fields.
pub ghost struct PayloadModel {
    pub salt: Seq<u8>,
    pub nonce: Seq<u8>,
    pub tag: Seq<u8>,
    pub ciphertext: Seq<u8>,
}

impl View for SecretPayload {
    type V = PayloadModel;

    open spec fn view(&self) -> PayloadModel {
        PayloadModel {
            salt: self.salt@,
            nonce: self.nonce@,
            tag: self.tag@,
            ciphertext: self.ciphertext@,
        }
    }
}

/// Opening of the payload text, up to the ciphertext field's value.
pub open spec fn json_head() -> Seq<u8> {
    "{\n  \"algo\": \"aes-256-gcm\",\n  \"ciphertext\": \"".spec_bytes()
}

/// Between the ciphertext value and the nonce value.
pub open spec fn json_mid_iv() -> Seq<u8> {
    "\",\n  \"iv\": \"".spec_bytes()
}

/// Between the nonce value and the salt value.
pub open spec fn json_mid_salt() -> Seq<u8> {
    "\",\n  \"salt\": \"".spec_bytes()
}

/// Between the salt value and the tag value.
pub open spec fn json_mid_tag() -> Seq<u8> {
    "\",\n  \"tag\": \"".spec_bytes()
}

/// Closing of the payload text, version number included.
pub open spec fn json_tail() -> Seq<u8> {
    "\",\n  \"version\": 1\n}".spec_bytes()
}

/// The serialized JSON text of a payload, byte for byte.
pub open spec fn spec_payload_json(m: PayloadModel) -> Seq<u8> {
    json_head() + b64_of(m.ciphertext) + json_mid_iv() + b64_of(m.nonce) + json_mid_salt()
        + b64_of(m.salt) + json_mid_tag() + b64_of(m.tag) + json_tail()
}

fn json_head_bytes() -> (r: Vec<u8>)
    ensures
        r@ == json_head(),
{
    "{\n  \"algo\": \"aes-256-gcm\",\n  \"ciphertext\": \"".as_bytes_vec()
}

fn json_mid_iv_bytes() -> (r: Vec<u8>)
    ensures
        r@ == json_mid_iv(),
{
    "\",\n  \"iv\": \"".as_bytes_vec()
}

fn json_mid_salt_bytes() -> (r: Vec<u8>)
    ensures
        r@ == json_mid_salt(),
{
    "\",\n  \"salt\": \"".as_bytes_vec()
}

fn json_mid_tag_bytes() -> (r: Vec<u8>)
    ensures
        r@ == json_mid_tag(),
{
    "\",\n  \"tag\": \"".as_bytes_vec()
}

fn json_tail_bytes() -> (r: Vec<u8>)
    ensures
        r@ == json_tail(),
{
    "\",\n  \"version\": 1\n}".as_bytes_vec()
}

/// Serialize a payload to its JSON text.
pub fn payload_to_json(p: &SecretPayload) -> (r: Vec<u8>)
    ensures
        r@ == spec_payload_json(p@),
{
    let mut out = json_head_bytes();
    let ct64 = b64_encode(&p.ciphertext);
    extend_bytes(&mut out, &ct64);
    let m1 = json_mid_iv_bytes();
    extend_bytes(&mut out, &m1);
    let iv64 = b64_encode(&p.nonce);
    extend_bytes(&mut out, &iv64);
    let m2 = json_mid_salt_bytes();
    extend_bytes(&mut out, &m2);
    let salt64 = b64_encode(&p.salt);
    extend_bytes(&mut out, &salt64);
    let m3 = json_mid_tag_bytes();
    extend_bytes(&mut out, &m3);
    let tag64 = b64_encode(&p.tag);
    extend_bytes(&mut out, &tag64);
    let tl = json_tail_bytes();
    extend_bytes(&mut out, &tl);
    proof {
        assert(out@ =~= spec_payload_json(p@));
    }
    out
}

/// `j` is the position of the first double quote at or after `pos`.
pub open spec fn is_first_quote(s: Seq<u8>, pos: int, j: int) -> bool {
    &&& pos <= j < s.len()
    &&& s[j] == 34
    &&& forall|k: int| pos <= k < j ==> s[k] != 34
}

/// Two first-quote positions for the same start agree.
pub proof fn lemma_first_quote_unique(s: Seq<u8>, pos: int, j1: int, j2: int)
    requires
        is_first_quote(s, pos, j1),
        is_first_quote(s, pos, j2),
    ensures
        j1 == j2,
{
    if j1 < j2 {
        assert(s[j1] != 34);
    }
    if j2 < j1 {
        assert(s[j2] != 34);
    }
}

/// The separator pieces of the payload text each open with a double quote,
/// closing the base64 field before them.
pub proof fn lemma_separators_open_with_quote()
    ensures
        json_mid_iv().len() > 0 && json_mid_iv()[0] == 34,
        json_mid_salt().len() > 0 && json_mid_salt()[0] == 34,
        json_mid_tag().len() > 0 && json_mid_tag()[0] == 34,
        json_tail().len() > 0 && json_tail()[0] == 34,
{
    reveal_strlit("\",\n  \"iv\": \"");
    reveal_strlit("\",\n  \"salt\": \"");
    reveal_strlit("\",\n  \"tag\": \"");
    reveal_strlit("\",\n  \"version\": 1\n}");
    assert(is_ascii_chars(("\",\n  \"iv\": \"")@));
    assert(is_ascii_chars(("\",\n  \"salt\": \"")@));
    assert(is_ascii_chars(("\",\n  \"tag\": \"")@));
    assert(is_ascii_chars(("\",\n  \"version\": 1\n}")@));
    is_ascii_chars_encode_utf8(("\",\n  \"iv\": \"")@);
    is_ascii_chars_encode_utf8(("\",\n  \"salt\": \"")@);
    is_ascii_chars_encode_utf8(("\",\n  \"tag\": \"")@);
    is_ascii_chars_encode_utf8(("\",\n  \"version\": 1\n}")@);
}

/// Match a fixed piece of text at `pos`, returning the position after it;
/// `None` exactly when the piece does not stand there.
fn expect_bytes(s: &Vec<u8>, pos: usize, pat: &Vec<u8>) -> (r: Option<usize>)
    requires
        pos <= s@.len(),
    ensures
        r matches Some(e) ==> e == pos + pat@.len() && pos + pat@.len() <= s@.len()
            && s@.subrange(pos as int, pos + pat@.len()) == pat@,
        r is None ==> !(pos + pat@.len() <= s@.len() && s@.subrange(pos as int, pos + pat@.len())
            == pat@),
{
    if pat.len() <= s.len() - pos {
        if bytes_match_at(s, pat, pos) {
            Some(pos + pat.len())
        } else {
            None
        }
    } else {
        None
    }
}

/// Find the first double quote at or after `pos`.
fn scan_quote(s: &Vec<u8>, pos: usize) -> (r: Option<usize>)
    requires
        pos <= s@.len(),
    ensures
        r matches Some(j) ==> is_first_quote(s@, pos as int, j as int),
        r is None ==> forall|k: int| pos <= k < s@.len() ==> s@[k] != 34,
{
    let mut j: usize = pos;
    while j < s.len()
        invariant
            pos <= j <= s@.len(),
            forall|k: int| pos <= k < j ==> s@[k] != 34,
        decreases s@.len() - j,
    {
        if s[j] == 34 {
            return Some(j);
        }
        j = j + 1;
    }
    None
}

/// Read a base64 field ending at the next double quote; returns the decoded
/// bytes and the position of that quote.
fn parse_b64_field(s: &Vec<u8>, pos: usize) -> (r: Option<(Vec<u8>, usize)>)
    requires
        pos <= s@.len(),
    ensures
        r matches Some(fj) ==> is_first_quote(s@, pos as int, fj.1 as int) && s@.subrange(
            pos as int,
            fj.1 as int,
        ) == b64_of(fj.0@),
        forall|m: Seq<u8>, j: int|
            is_first_quote(s@, pos as int, j) && s@.subrange(pos as int, j) == b64_of(m)
                ==> r is Some && r->Some_0.0@ == m && r->Some_0.1 == j,
{
    match scan_quote(s, pos) {
        None => {
            proof {
                assert forall|m: Seq<u8>, j: int|
                    !(is_first_quote(s@, pos as int, j) && s@.subrange(pos as int, j) == b64_of(
                        m,
                    )) by {
                    if is_first_quote(s@, pos as int, j) {
                        assert(s@[j] != 34);
                    }
                }
            }
            None
        },
        Some(j) => {
            let field64 = subrange_bytes(s, pos, j);
            match b64_decode(&field64) {
                None => {
                    proof {
                        assert forall|m: Seq<u8>, jj: int|
                            !(is_first_quote(s@, pos as int, jj) && s@.subrange(pos as int, jj)
                                == b64_of(m)) by {
                            if is_first_quote(s@, pos as int, jj) && s@.subrange(pos as int, jj)
                                == b64_of(m) {
                                lemma_first_quote_unique(s@, pos as int, j as int, jj);
                                assert(field64@ == b64_of(m));
                            }
                        }
                    }
                    None
                },
                Some(f) => {
                    proof {
                        assert forall|m: Seq<u8>, jj: int|
                            is_first_quote(s@, pos as int, jj) && s@.subrange(pos as int, jj)
                                == b64_of(m) implies f@ == m && jj == j as int by {
                            lemma_first_quote_unique(s@, pos as int, j as int, jj);
                            assert(field64@ == b64_of(m));
                        }
                    }
                    Some((f, j))
                },
            }
        },
    }
}

/// Start of the ciphertext field's base64 text.
pub open spec fn ct_start() -> int {
    json_head().len() as int
}

/// End of the ciphertext field's base64 text (its closing quote).
pub open spec fn ct_end(m: PayloadModel) -> int {
    ct_start() + b64_of(m.ciphertext).len()
}

/// Start of the nonce field's base64 text.
pub open spec fn iv_start(m: PayloadModel) -> int {
    ct_end(m) + json_mid_iv().len()
}

/// End of the nonce field's base64 text.
pub open spec fn iv_end(m: PayloadModel) -> int {
    iv_start(m) + b64_of(m.nonce).len()
}

/// Start of the salt field's base64 text.
pub open spec fn salt_start(m: PayloadModel) -> int {
    iv_end(m) + json_mid_salt().len()
}

/// End of the salt field's base64 text.
pub open spec fn salt_end(m: PayloadModel) -> int {
    salt_start(m) + b64_of(m.salt).len()
}

/// Start of the tag field's base64 text.
pub open spec fn tag_start(m: PayloadModel) -> int {
    salt_end(m) + json_mid_tag().len()
}

/// End of the tag field's base64 text.
pub open spec fn tag_end(m: PayloadModel) -> int {
    tag_start(m) + b64_of(m.tag).len()
}

/// How the serialized text of a payload decomposes: each separator stands
/// between two base64 fields, and each base64 field runs exactly up to the
/// first quote after it.
pub proof fn lemma_json_shape(s: Seq<u8>, m: PayloadModel)
    requires
        s == spec_payload_json(m),
    ensures
        s.len() == tag_end(m) + json_tail().len(),
        s.subrange(0, ct_start()) == json_head(),
        is_first_quote(s, ct_start(), ct_end(m)),
        s.subrange(ct_start(), ct_end(m)) == b64_of(m.ciphertext),
        s.subrange(ct_end(m), iv_start(m)) == json_mid_iv(),
        is_first_quote(s, iv_start(m), iv_end(m)),
        s.subrange(iv_start(m), iv_end(m)) == b64_of(m.nonce),
        s.subrange(iv_end(m), salt_start(m)) == json_mid_salt(),
        is_first_quote(s, salt_start(m), salt_end(m)),
        s.subrange(salt_start(m), salt_end(m)) == b64_of(m.salt),
        s.subrange(salt_end(m), tag_start(m)) == json_mid_tag(),
        is_first_quote(s, tag_start(m), tag_end(m)),
        s.subrange(tag_start(m), tag_end(m)) == b64_of(m.tag),
        s.subrange(tag_end(m), s.len() as int) == json_tail(),
{
    lemma_separators_open_with_quote();
    lemma_b64_no_quote(m.ciphertext);
    lemma_b64_no_quote(m.nonce);
    lemma_b64_no_quote(m.salt);
    lemma_b64_no_quote(m.tag);
    assert(s.subrange(0, ct_start()) =~= json_head());
    assert(s.subrange(ct_start(), ct_end(m)) =~= b64_of(m.ciphertext));
    assert(s.subrange(ct_end(m), iv_start(m)) =~= json_mid_iv());
    assert(s.subrange(iv_start(m), iv_end(m)) =~= b64_of(m.nonce));
    assert(s.subrange(iv_end(m), salt_start(m)) =~= json_mid_salt());
    assert(s.subrange(salt_start(m), salt_end(m)) =~= b64_of(m.salt));
    assert(s.subrange(salt_end(m), tag_start(m)) =~= json_mid_tag());
    assert(s.subrange(tag_start(m), tag_end(m)) =~= b64_of(m.tag));
    assert(s.subrange(tag_end(m), s.len() as int) =~= json_tail());
    assert(s[ct_end(m)] == json_mid_iv()[0]);
    assert(s[iv_end(m)] == json_mid_salt()[0]);
    assert(s[salt_end(m)] == json_mid_tag()[0]);
    assert(s[tag_end(m)] == json_tail()[0]);
    assert forall|k: int| ct_start() <= k < ct_end(m) implies s[k] != 34 by {
        assert(s[k] == b64_of(m.ciphertext)[k - ct_start()]);
    }
    assert forall|k: int| iv_start(m) <= k < iv_end(m) implies s[k] != 34 by {
        assert(s[k] == b64_of(m.nonce)[k - iv_start(m)]);
    }
    assert forall|k: int| salt_start(m) <= k < salt_end(m) implies s[k] != 34 by {
        assert(s[k] == b64_of(m.salt)[k - salt_start(m)]);
    }
    assert forall|k: int| tag_start(m) <= k < tag_end(m) implies s[k] != 34 by {
        assert(s[k] == b64_of(m.tag)[k - tag_start(m)]);
    }
}

/// A text that decomposes into the payload skeleton around the base64 of
/// the four fields is the serialization of those fields.
proof fn lemma_assemble(
    s: Seq<u8>,
    p: PayloadModel,
    pos0: int,
    j1: int,
    pos1: int,
    j2: int,
    pos2: int,
    j3: int,
    pos3: int,
    j4: int,
    pos4: int,
)
    requires
        0 <= pos0 <= j1 <= pos1 <= j2 <= pos2 <= j3 <= pos3 <= j4 <= pos4 == s.len(),
        s.subrange(0, pos0) == json_head(),
        s.subrange(pos0, j1) == b64_of(p.ciphertext),
        s.subrange(j1, pos1) == json_mid_iv(),
        s.subrange(pos1, j2) == b64_of(p.nonce),
        s.subrange(j2, pos2) == json_mid_salt(),
        s.subrange(pos2, j3) == b64_of(p.salt),
        s.subrange(j3, pos3) == json_mid_tag(),
        s.subrange(pos3, j4) == b64_of(p.tag),
        s.subrange(j4, pos4) == json_tail(),
    ensures
        s == spec_payload_json(p),
{
    assert(s =~= spec_payload_json(p));
}

/// Parse the JSON text of a payload. Succeeds on every serialized payload,
/// returning exactly the payload that was serialized; whatever it accepts
/// is the serialization of what it returns.
#[verifier::rlimit(100)]
#[verifier::spinoff_prover]
pub fn payload_from_json(s: &Vec<u8>) -> (r: Option<SecretPayload>)
    ensures
        r matches Some(p) ==> s@ == spec_payload_json(p@),
        forall|m: PayloadModel| s@ == spec_payload_json(m) ==> r is Some && r->Some_0@ == m,
{
    let head = json_head_bytes();
    let pos0 = match expect_bytes(s, 0, &head) {
        Some(e) => e,
        None => {
            proof {
                assert forall|m: PayloadModel| s@ != spec_payload_json(m) by {
                    if s@ == spec_payload_json(m) {
                        lemma_json_shape(s@, m);
                    }
                }
            }
            return None;
        },
    };
    let (ct, j1) = match parse_b64_field(s, pos0) {
        Some(fj) => fj,
        None => {
            proof {
                assert forall|m: PayloadModel| s@ != spec_payload_json(m) by {
                    if s@ == spec_payload_json(m) {
                        lemma_json_shape(s@, m);
                    }
                }
            }
            return None;
        },
    };
    let mid1 = json_mid_iv_bytes();
    let pos1 = match expect_bytes(s, j1, &mid1) {
        Some(e) => e,
        None => {
            proof {
                assert forall|m: PayloadModel| s@ != spec_payload_json(m) by {
                    if s@ == spec_payload_json(m) {
                        lemma_json_shape(s@, m);
                        lemma_first_quote_unique(s@, pos0 as int, j1 as int, ct_end(m));
                    }
                }
            }
            return None;
        },
    };
    let (iv, j2) = match parse_b64_field(s, pos1) {
        Some(fj) => fj,
        None => {
            proof {
                assert forall|m: PayloadModel| s@ != spec_payload_json(m) by {
                    if s@ == spec_payload_json(m) {
                        lemma_json_shape(s@, m);
                        lemma_first_quote_unique(s@, pos0 as int, j1 as int, ct_end(m));
                    }
                }
            }
            return None;
        },
    };
    let mid2 = json_mid_salt_bytes();
    let pos2 = match expect_bytes(s, j2, &mid2) {
        Some(e) => e,
        None => {
            proof {
                assert forall|m: PayloadModel| s@ != spec_payload_json(m) by {
                    if s@ == spec_payload_json(m) {
                        lemma_json_shape(s@, m);
                        lemma_first_quote_unique(s@, pos0 as int, j1 as int, ct_end(m));
                        lemma_first_quote_unique(s@, pos1 as int, j2 as int, iv_end(m));
                    }
                }
            }
            return None;
        },
    };
    let (salt, j3) = match parse_b64_field(s, pos2) {
        Some(fj) => fj,
        None => {
            proof {
                assert forall|m: PayloadModel| s@ != spec_payload_json(m) by {
                    if s@ == spec_payload_json(m) {
                        lemma_json_shape(s@, m);
                        lemma_first_quote_unique(s@, pos0 as int, j1 as int, ct_end(m));
                        lemma_first_quote_unique(s@, pos1 as int, j2 as int, iv_end(m));
                    }
                }
            }
            return None;
        },
    };
    let mid3 = json_mid_tag_bytes();
    let pos3 = match expect_bytes(s, j3, &mid3) {
        Some(e) => e,
        None => {
            proof {
                assert forall|m: PayloadModel| s@ != spec_payload_json(m) by {
                    if s@ == spec_payload_json(m) {
                        lemma_json_shape(s@, m);
                        lemma_first_quote_unique(s@, pos0 as int, j1 as int, ct_end(m));
                        lemma_first_quote_unique(s@, pos1 as int, j2 as int, iv_end(m));
                        lemma_first_quote_unique(s@, pos2 as int, j3 as int, salt_end(m));
                    }
                }
            }
            return None;
        },
    };
    let (tag, j4) = match parse_b64_field(s, pos3) {
        Some(fj) => fj,
        None => {
            proof {
                assert forall|m: PayloadModel| s@ != spec_payload_json(m) by {
                    if s@ == spec_payload_json(m) {
                        lemma_json_shape(s@, m);
                        lemma_first_quote_unique(s@, pos0 as int, j1 as int, ct_end(m));
                        lemma_first_quote_unique(s@, pos1 as int, j2 as int, iv_end(m));
                        lemma_first_quote_unique(s@, pos2 as int, j3 as int, salt_end(m));
                    }
                }
            }
            return None;
        },
    };
    let tail = json_tail_bytes();
    let pos4 = match expect_bytes(s, j4, &tail) {
        Some(e) => e,
        None => {
            proof {
                assert forall|m: PayloadModel| s@ != spec_payload_json(m) by {
                    if s@ == spec_payload_json(m) {
                        lemma_json_shape(s@, m);
                        lemma_first_quote_unique(s@, pos0 as int, j1 as int, ct_end(m));
                        lemma_first_quote_unique(s@, pos1 as int, j2 as int, iv_end(m));
                        lemma_first_quote_unique(s@, pos2 as int, j3 as int, salt_end(m));
                        lemma_first_quote_unique(s@, pos3 as int, j4 as int, tag_end(m));
                    }
                }
            }
            return None;
        },
    };
    if pos4 != s.len() {
        proof {
            assert forall|m: PayloadModel| s@ != spec_payload_json(m) by {
                if s@ == spec_payload_json(m) {
                    lemma_json_shape(s@, m);
                    lemma_first_quote_unique(s@, pos0 as int, j1 as int, ct_end(m));
                    lemma_first_quote_unique(s@, pos1 as int, j2 as int, iv_end(m));
                    lemma_first_quote_unique(s@, pos2 as int, j3 as int, salt_end(m));
                    lemma_first_quote_unique(s@, pos3 as int, j4 as int, tag_end(m));
                }
            }
        }
        return None;
    }
    let p = SecretPayload { salt, nonce: iv, tag, ciphertext: ct };
    proof {
        lemma_assemble(
            s@,
            p@,
            pos0 as int,
            j1 as int,
            pos1 as int,
            j2 as int,
            pos2 as int,
            j3 as int,
            pos3 as int,
            j4 as int,
            pos4 as int,
        );
        assert forall|m: PayloadModel| s@ == spec_payload_json(m) implies p@ == m by {
            lemma_json_shape(s@, m);
            lemma_first_quote_unique(s@, pos0 as int, j1 as int, ct_end(m));
            lemma_first_quote_unique(s@, pos1 as int, j2 as int, iv_end(m));
            lemma_first_quote_unique(s@, pos2 as int, j3 as int, salt_end(m));
            lemma_first_quote_unique(s@, pos3 as int, j4 as int, tag_end(m));
        }
    }
    Some(p)
}

} // verus!

