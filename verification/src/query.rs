//! Classification of the one HTTP request the loopback receiver serves: a
//! favicon fetch to be ignored, a callback carrying a `code` query
//! parameter, or a callback without one. The query-string grammar —
//! `&`-separated pairs, `=`-separated key and value, form-urlencoded
//! escapes — is this library's own verified logic.

use vstd::prelude::*;
use vstd::string::*;
use crate::bytes::{contains_seq, contains_bytes, subrange_bytes};

verus! {

/// ASCII hexadecimal digit, either case.
pub open spec fn is_hex_digit(b: u8) -> bool {
    (48 <= b <= 57) || (97 <= b <= 102) || (65 <= b <= 70)
}

/// Value of a hexadecimal digit.
pub open spec fn hex_val(b: u8) -> int {
    if 48 <= b <= 57 {
        b - 48
    } else if 97 <= b <= 102 {
        b - 87
    } else {
        b - 55
    }
}

/// Form-urlencoded decoding: `+` becomes a space, a `%` followed by two
/// hexadecimal digits becomes that byte, and anything else — a stray `%`
/// included — passes through unchanged.
pub open spec fn spec_pct_decode(s: Seq<u8>) -> Seq<u8>
    decreases s.len(),
{
    if s.len() == 0 {
        Seq::empty()
    } else if s[0] == 43 {
        seq![32u8] + spec_pct_decode(s.skip(1))
    } else if s[0] == 37 && s.len() >= 3 && is_hex_digit(s[1]) && is_hex_digit(s[2]) {
        seq![(hex_val(s[1]) * 16 + hex_val(s[2])) as u8] + spec_pct_decode(s.skip(3))
    } else {
        seq![s[0]] + spec_pct_decode(s.skip(1))
    }
}

/// Length of the longest prefix of `s` free of `b`: the index of the first
/// `b`, or the length of `s` when none occurs.
pub open spec fn idx_of(s: Seq<u8>, b: u8) -> int
    decreases s.len(),
{
    if s.len() == 0 {
        0
    } else if s[0] == b {
        0
    } else {
        1 + idx_of(s.skip(1), b)
    }
}

/// A position with the first-occurrence properties is `idx_of`.
pub proof fn lemma_idx_of_is_first(s: Seq<u8>, b: u8, j: int)
    requires
        0 <= j <= s.len(),
        j < s.len() ==> s[j] == b,
        forall|k: int| 0 <= k < j ==> s[k] != b,
    ensures
        idx_of(s, b) == j,
    decreases s.len(),
{
    if s.len() > 0 && s[0] != b {
        assert(j > 0);
        lemma_idx_of_is_first(s.skip(1), b, j - 1);
    }
}

/// Find the first occurrence of `b` in `s`, as `idx_of` names it.
pub fn idx_byte(s: &Vec<u8>, b: u8) -> (r: usize)
    ensures
        r == idx_of(s@, b),
        r <= s@.len(),
{
    let mut j: usize = 0;
    while j < s.len()
        invariant
            j <= s@.len(),
            forall|k: int| 0 <= k < j ==> s@[k] != b,
        decreases s@.len() - j,
    {
        if s[j] == b {
            proof {
                lemma_idx_of_is_first(s@, b, j as int);
            }
            return j;
        }
        j = j + 1;
    }
    proof {
        lemma_idx_of_is_first(s@, b, s@.len() as int);
    }
    j
}

/// Value of a hexadecimal digit byte, when it is one.
fn hex_digit_value(b: u8) -> (r: Option<u8>)
    ensures
        r is Some <==> is_hex_digit(b),
        r matches Some(v) ==> v == hex_val(b) && v <= 15,
{
    if 48 <= b && b <= 57 {
        Some(b - 48)
    } else if 97 <= b && b <= 102 {
        Some(b - 87)
    } else if 65 <= b && b <= 70 {
        Some(b - 55)
    } else {
        None
    }
}

/// Decode a form-urlencoded byte string.
pub fn pct_decode(s: &Vec<u8>) -> (r: Vec<u8>)
    ensures
        r@ == spec_pct_decode(s@),
{
    let mut out: Vec<u8> = Vec::new();
    let mut i: usize = 0;
    proof {
        assert(s@.skip(0) =~= s@);
        assert(Seq::<u8>::empty() + spec_pct_decode(s@) =~= spec_pct_decode(s@));
    }
    while i < s.len()
        invariant
            i <= s@.len(),
            spec_pct_decode(s@) == out@ + spec_pct_decode(s@.skip(i as int)),
        decreases s@.len() - i,
    {
        let ghost pre = s@.skip(i as int);
        let c = s[i];
        if c == 43 {
            out.push(32);
            i = i + 1;
            proof {
                assert(pre.skip(1) =~= s@.skip(i as int));
                assert(out@ + spec_pct_decode(s@.skip(i as int)) =~= (out@.drop_last() + seq![32u8])
                    + spec_pct_decode(s@.skip(i as int)));
            }
        } else if c == 37 && s.len() - i >= 3 {
            let h1 = hex_digit_value(s[i + 1]);
            let h2 = hex_digit_value(s[i + 2]);
            match (h1, h2) {
                (Some(v1), Some(v2)) => {
                    out.push(v1 * 16 + v2);
                    i = i + 3;
                    proof {
                        assert(pre.skip(3) =~= s@.skip(i as int));
                        assert(pre[1] == s@[i - 2] && pre[2] == s@[i - 1]);
                        assert(out@ + spec_pct_decode(s@.skip(i as int)) =~= (out@.drop_last()
                            + seq![(hex_val(pre[1]) * 16 + hex_val(pre[2])) as u8])
                            + spec_pct_decode(s@.skip(i as int)));
                    }
                },
                _ => {
                    out.push(c);
                    i = i + 1;
                    proof {
                        assert(pre.skip(1) =~= s@.skip(i as int));
                        assert(out@ + spec_pct_decode(s@.skip(i as int)) =~= (out@.drop_last()
                            + seq![pre[0]]) + spec_pct_decode(s@.skip(i as int)));
                    }
                },
            }
        } else {
            out.push(c);
            i = i + 1;
            proof {
                assert(pre.skip(1) =~= s@.skip(i as int));
                assert(out@ + spec_pct_decode(s@.skip(i as int)) =~= (out@.drop_last()
                    + seq![pre[0]]) + spec_pct_decode(s@.skip(i as int)));
            }
        }
    }
    proof {
        assert(s@.skip(s@.len() as int) =~= Seq::<u8>::empty());
        assert(out@ =~= out@ + spec_pct_decode(s@.skip(i as int)));
    }
    out
}

/// The decoded `code` value of one `key=value` segment, when its decoded
/// key is `code`.
pub open spec fn spec_segment_code(seg: Seq<u8>) -> Option<Seq<u8>> {
    let e = idx_of(seg, 61);
    let key = spec_pct_decode(seg.take(e));
    if key == "code".spec_bytes() {
        Some(
            spec_pct_decode(
                if e < seg.len() {
                    seg.skip(e + 1)
                } else {
                    Seq::empty()
                },
            ),
        )
    } else {
        None
    }
}

/// The decoded `code` value of the first `&`-separated segment whose key
/// decodes to `code`.
pub open spec fn spec_query_code(q: Seq<u8>) -> Option<Seq<u8>>
    decreases q.len(),
{
    let a = idx_of(q, 38);
    let seg = q.take(a);
    if spec_segment_code(seg) is Some {
        spec_segment_code(seg)
    } else if 0 <= a < q.len() {
        spec_query_code(q.skip(a + 1))
    } else {
        None
    }
}

/// The `code` parameter of a request URL: taken from the query string
/// after the first `?`, absent when the URL has none.
pub open spec fn spec_url_code(url: Seq<u8>) -> Option<Seq<u8>> {
    let qm = idx_of(url, 63);
    if qm < url.len() {
        spec_query_code(url.skip(qm + 1))
    } else {
        None
    }
}

/// A request for the site icon, recognized anywhere in the URL, as the
/// receiver ignores such requests.
pub open spec fn is_favicon_url(url: Seq<u8>) -> bool {
    contains_seq(url, "favicon.ico".spec_bytes())
}

/// Compare two byte vectors.
pub fn eq_bytes(a: &Vec<u8>, b: &Vec<u8>) -> (r: bool)
    ensures
        r == (a@ == b@),
{
    if a.len() != b.len() {
        proof {
            assert(a@.len() != b@.len());
        }
        return false;
    }
    let mut j: usize = 0;
    while j < a.len()
        invariant
            a@.len() == b@.len(),
            j <= a@.len(),
            forall|k: int| 0 <= k < j ==> a@[k] == b@[k],
        decreases a@.len() - j,
    {
        if a[j] != b[j] {
            return false;
        }
        j = j + 1;
    }
    proof {
        assert(a@ =~= b@);
    }
    true
}

/// Extract the decoded `code` value from a query string.
pub fn query_code(q: &Vec<u8>) -> (r: Option<Vec<u8>>)
    ensures
        r is Some <==> spec_query_code(q@) is Some,
        r matches Some(v) ==> spec_query_code(q@) == Some(v@),
{
    let code_key = "code".as_bytes_vec();
    let mut cur = subrange_bytes(q, 0, q.len());
    proof {
        assert(cur@ =~= q@);
    }
    loop
        invariant
            code_key@ == "code".spec_bytes(),
            spec_query_code(q@) == spec_query_code(cur@),
        decreases cur@.len(),
    {
        let a = idx_byte(&cur, 38);
        let seg = subrange_bytes(&cur, 0, a);
        proof {
            assert(seg@ =~= cur@.take(idx_of(cur@, 38)));
        }
        let e = idx_byte(&seg, 61);
        let keypart = subrange_bytes(&seg, 0, e);
        proof {
            assert(keypart@ =~= seg@.take(idx_of(seg@, 61)));
        }
        let key = pct_decode(&keypart);
        if eq_bytes(&key, &code_key) {
            let valpart = if e < seg.len() {
                subrange_bytes(&seg, e + 1, seg.len())
            } else {
                Vec::new()
            };
            proof {
                if idx_of(seg@, 61) < seg@.len() {
                    assert(valpart@ =~= seg@.skip(idx_of(seg@, 61) + 1));
                } else {
                    assert(valpart@ =~= Seq::<u8>::empty());
                }
            }
            let value = pct_decode(&valpart);
            proof {
                assert(spec_segment_code(seg@) == Some(value@));
            }
            return Some(value);
        }
        proof {
            assert(spec_segment_code(seg@) is None);
        }
        if a < cur.len() {
            let rest = subrange_bytes(&cur, a + 1, cur.len());
            proof {
                assert(rest@ =~= cur@.skip(idx_of(cur@, 38) + 1));
            }
            cur = rest;
        } else {
            proof {
                assert(spec_query_code(cur@) is None);
            }
            return None;
        }
    }
}

/// What one inbound request means to the flow.
pub enum CallbackKind {
    /// A favicon fetch: answered 404 and ignored.
    Favicon,
    /// A callback carrying an authorization code.
    Code(Vec<u8>),
    /// A callback without a code: the user denied access.
    NoCode,
}

/// Classify a request URL: favicon fetches first, then the presence of a
/// `code` query parameter.
pub fn classify_request(url: &str) -> (r: CallbackKind)
    ensures
        is_favicon_url(url.spec_bytes()) <==> r is Favicon,
        !is_favicon_url(url.spec_bytes()) ==> {
            &&& r is Code <==> spec_url_code(url.spec_bytes()) is Some
            &&& (r matches CallbackKind::Code(v) ==> spec_url_code(url.spec_bytes()) == Some(v@))
        },
{
    let url_bytes = url.as_bytes_vec();
    let fav = "favicon.ico".as_bytes_vec();
    if contains_bytes(&url_bytes, &fav) {
        return CallbackKind::Favicon;
    }
    let qm = idx_byte(&url_bytes, 63);
    if qm < url_bytes.len() {
        let qstr = subrange_bytes(&url_bytes, qm + 1, url_bytes.len());
        proof {
            assert(qstr@ =~= url_bytes@.skip(idx_of(url_bytes@, 63) + 1));
        }
        match query_code(&qstr) {
            Some(c) => CallbackKind::Code(c),
            None => CallbackKind::NoCode,
        }
    } else {
        CallbackKind::NoCode
    }
}

} // verus!
