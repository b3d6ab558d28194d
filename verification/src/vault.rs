//! The secret vault: sealing a provider secret under the machine passphrase
//! and opening it again. A fresh 16-byte salt and 12-byte nonce go into
//! every sealing; opening re-derives the key from the stored salt and fails
//! closed — on a missing file, a malformed text, or a tag that does not
//! authenticate, the caller sees plain absence.

use vstd::prelude::*;
use vstd::string::*;
use vstd::utf8::*;
use crate::bytes::{extend_bytes, subrange_bytes};
use crate::crypto::{
    aes256_gcm_open,
    aes256_gcm_seal,
    derive_key,
    gcm_seal,
    random_bytes,
    spec_vault_key,
};
use crate::{NONCE_LEN, SALT_LEN, TAG_LEN};
use crate::payload::{
    PayloadModel,
    SecretPayload,
    payload_from_json,
    payload_to_json,
    spec_payload_json,
};

verus! {

/// The field lengths the format fixes: 16-byte salt, 12-byte nonce,
/// 16-byte tag.
pub open spec fn payload_wf(m: PayloadModel) -> bool {
    m.salt.len() == SALT_LEN && m.nonce.len() == NONCE_LEN && m.tag.len() == TAG_LEN
}

/// The sealing of `pt` has its documented length: the plaintext's bytes
/// plus the 16-byte tag. Every sealing made by this vault satisfies it.
pub open spec fn sealed_len_ok(pass: Seq<char>, salt: Seq<u8>, nonce: Seq<u8>, pt: Seq<char>) -> bool {
    gcm_seal(spec_vault_key(pass, salt), nonce, encode_utf8(pt)).len() == encode_utf8(pt).len()
        + 16
}

/// The payload produced by sealing `pt` under `pass` with a given salt and
/// nonce: ciphertext and tag are the AES-256-GCM sealing of the plaintext's
/// UTF-8 bytes under the PBKDF2 key, the 16-byte tag standing last.
pub open spec fn spec_sealed(
    pass: Seq<char>,
    salt: Seq<u8>,
    nonce: Seq<u8>,
    pt: Seq<char>,
) -> PayloadModel {
    let data = gcm_seal(spec_vault_key(pass, salt), nonce, encode_utf8(pt));
    PayloadModel {
        salt: salt,
        nonce: nonce,
        tag: data.skip(data.len() - 16),
        ciphertext: data.take(data.len() - 16),
    }
}

/// Seal a plaintext with a caller-supplied salt and nonce.
pub fn seal_secret_with(
    passphrase: &str,
    salt: Vec<u8>,
    nonce: Vec<u8>,
    plaintext: &str,
) -> (r: SecretPayload)
    requires
        salt@.len() == 16,
        nonce@.len() == 12,
        encode_utf8(plaintext@).len() <= 0xFFFF_FFFF,
    ensures
        r@ == spec_sealed(passphrase@, salt@, nonce@, plaintext@),
        payload_wf(r@),
        sealed_len_ok(passphrase@, salt@, nonce@, plaintext@),
        r@.ciphertext.len() == encode_utf8(plaintext@).len(),
{
    let key = derive_key(passphrase, &salt);
    let pt_bytes = plaintext.as_bytes_vec();
    let data = aes256_gcm_seal(&key, &nonce, &pt_bytes);
    let n = data.len();
    let ct = subrange_bytes(&data, 0, n - 16);
    let tag = subrange_bytes(&data, n - 16, n);
    proof {
        assert(data@.take(data@.len() - 16) =~= data@.subrange(0, n - 16));
        assert(data@.skip(data@.len() - 16) =~= data@.subrange(n - 16, n as int));
    }
    SecretPayload { salt, nonce, tag, ciphertext: ct }
}

/// Seal a plaintext under a passphrase with a fresh random salt and nonce,
/// as a saved secret is built.
pub fn seal_secret(passphrase: &str, plaintext: &str) -> (r: SecretPayload)
    requires
        encode_utf8(plaintext@).len() <= 0xFFFF_FFFF,
    ensures
        r@ == spec_sealed(passphrase@, r@.salt, r@.nonce, plaintext@),
        payload_wf(r@),
        sealed_len_ok(passphrase@, r@.salt, r@.nonce, plaintext@),
        r@.ciphertext.len() == encode_utf8(plaintext@).len(),
{
    let salt = random_bytes(SALT_LEN);
    let nonce = random_bytes(NONCE_LEN);
    seal_secret_with(passphrase, salt, nonce, plaintext)
}

/// Relies on `String::from_utf8`: succeeds exactly on valid UTF-8 and
/// decodes it.
#[verifier::external_body]
fn bytes_to_string(bytes: Vec<u8>) -> (r: Option<String>)
    ensures
        r is Some <==> valid_utf8(bytes@),
        r matches Some(s) ==> s@ == decode_utf8(bytes@),
{
    String::from_utf8(bytes).ok()
}

/// Open a payload under a passphrase. Opening inverts sealing (the round
/// trip below), and a plaintext comes back only from its own sealing: on a
/// payload whose ciphertext, tag or nonce differ from that sealing, the
/// original plaintext is never returned.
pub fn open_secret(passphrase: &str, payload: &SecretPayload) -> (r: Option<String>)
    ensures
        !payload_wf(payload@) ==> r is None,
        r matches Some(s) ==> payload@ == spec_sealed(
            passphrase@,
            payload@.salt,
            payload@.nonce,
            s@,
        ),
        forall|pt: Seq<char>|
            payload@ == spec_sealed(passphrase@, payload@.salt, payload@.nonce, pt)
                && payload_wf(payload@) && sealed_len_ok(
                passphrase@,
                payload@.salt,
                payload@.nonce,
                pt,
            ) && encode_utf8(pt).len() <= 0xFFFF_FFFF ==> r is Some && r->Some_0@ == pt,
{
    broadcast use vstd::utf8::encode_utf8_valid_utf8;
    broadcast use vstd::utf8::encode_utf8_decode_utf8;
    broadcast use vstd::utf8::decode_utf8_encode_utf8;

    if payload.salt.len() != SALT_LEN || payload.nonce.len() != NONCE_LEN || payload.tag.len() != TAG_LEN {
        return None;
    }
    let key = derive_key(passphrase, &payload.salt);
    let mut data = subrange_bytes(&payload.ciphertext, 0, payload.ciphertext.len());
    extend_bytes(&mut data, &payload.tag);
    proof {
        assert(data@ =~= payload@.ciphertext + payload@.tag);
    }
    match aes256_gcm_open(&key, &payload.nonce, &data) {
        None => {
            proof {
                assert forall|pt: Seq<char>|
                    !(payload@ == spec_sealed(passphrase@, payload@.salt, payload@.nonce, pt)
                        && payload_wf(payload@) && sealed_len_ok(
                        passphrase@,
                        payload@.salt,
                        payload@.nonce,
                        pt,
                    ) && encode_utf8(pt).len() <= 0xFFFF_FFFF) by {
                    if payload@ == spec_sealed(passphrase@, payload@.salt, payload@.nonce, pt)
                        && payload_wf(payload@) && sealed_len_ok(
                        passphrase@,
                        payload@.salt,
                        payload@.nonce,
                        pt,
                    ) && encode_utf8(pt).len() <= 0xFFFF_FFFF {
                        let sealed = gcm_seal(key@, payload@.nonce, encode_utf8(pt));
                        assert(data@ =~= sealed.take(sealed.len() - 16) + sealed.skip(
                            sealed.len() - 16,
                        ));
                        assert(data@ =~= sealed);
                    }
                }
            }
            None
        },
        Some(pt_bytes) => {
            let ghost opened = pt_bytes@;
            match bytes_to_string(pt_bytes) {
                None => {
                    proof {
                        assert forall|pt: Seq<char>|
                            !(payload@ == spec_sealed(
                                passphrase@,
                                payload@.salt,
                                payload@.nonce,
                                pt,
                            ) && payload_wf(payload@) && sealed_len_ok(
                                passphrase@,
                                payload@.salt,
                                payload@.nonce,
                                pt,
                            ) && encode_utf8(pt).len()
                                <= 0xFFFF_FFFF) by {
                            if payload@ == spec_sealed(
                                passphrase@,
                                payload@.salt,
                                payload@.nonce,
                                pt,
                            ) && payload_wf(payload@) && sealed_len_ok(
                                passphrase@,
                                payload@.salt,
                                payload@.nonce,
                                pt,
                            ) && encode_utf8(pt).len() <= 0xFFFF_FFFF {
                                let sealed = gcm_seal(key@, payload@.nonce, encode_utf8(pt));
                                assert(data@ =~= sealed.take(sealed.len() - 16) + sealed.skip(
                                    sealed.len() - 16,
                                ));
                                assert(data@ =~= sealed);
                                assert(opened == encode_utf8(pt));
                            }
                        }
                    }
                    None
                },
                Some(s) => {
                    proof {
                        assert(encode_utf8(s@) == opened);
                        let sealed_back = gcm_seal(key@, payload@.nonce, encode_utf8(s@));
                        assert(sealed_back == data@);
                        assert(payload@.ciphertext =~= sealed_back.take(sealed_back.len() - 16));
                        assert(payload@.tag =~= sealed_back.skip(sealed_back.len() - 16));
                        assert forall|pt: Seq<char>|
                            payload@ == spec_sealed(passphrase@, payload@.salt, payload@.nonce, pt)
                                && payload_wf(payload@) && sealed_len_ok(
                                passphrase@,
                                payload@.salt,
                                payload@.nonce,
                                pt,
                            ) && encode_utf8(pt).len()
                                <= 0xFFFF_FFFF implies s@ == pt by {
                            let sealed = gcm_seal(key@, payload@.nonce, encode_utf8(pt));
                            assert(data@ =~= sealed.take(sealed.len() - 16) + sealed.skip(
                                sealed.len() - 16,
                            ));
                            assert(data@ =~= sealed);
                            assert(opened == encode_utf8(pt));
                            assert(decode_utf8(encode_utf8(pt)) == pt);
                        }
                    }
                    Some(s)
                },
            }
        },
    }
}

/// Seal a plaintext and render the stored JSON text, as `encrypt_and_save`
/// writes it to the provider's key file.
pub fn seal_secret_to_json(passphrase: &str, plaintext: &str) -> (r: Vec<u8>)
    requires
        encode_utf8(plaintext@).len() <= 0xFFFF_FFFF,
    ensures
        exists|salt: Seq<u8>, nonce: Seq<u8>|
            salt.len() == 16 && nonce.len() == 12 && payload_wf(
                spec_sealed(passphrase@, salt, nonce, plaintext@),
            ) && sealed_len_ok(passphrase@, salt, nonce, plaintext@) && r@
                == #[trigger] spec_payload_json(
                spec_sealed(passphrase@, salt, nonce, plaintext@),
            ),
{
    let p = seal_secret(passphrase, plaintext);
    let r = payload_to_json(&p);
    proof {
        assert(r@ == spec_payload_json(spec_sealed(passphrase@, p@.salt, p@.nonce, plaintext@)));
    }
    r
}

/// Open a stored key file under a passphrase. An absent file is plain
/// absence, not an error; so is any malformed text, wrong base64, or a
/// sealing that does not authenticate under this passphrase.
pub fn open_stored_secret(passphrase: &str, stored: &Option<Vec<u8>>) -> (r: Option<String>)
    ensures
        stored is None ==> r is None,
        r matches Some(s) ==> exists|m: PayloadModel|
            stored matches Some(b) && b@ == #[trigger] spec_payload_json(m) && m == spec_sealed(
                passphrase@,
                m.salt,
                m.nonce,
                s@,
            ),
        forall|salt: Seq<u8>, nonce: Seq<u8>, pt: Seq<char>|
            stored matches Some(b) && b@ == #[trigger] spec_payload_json(
                spec_sealed(passphrase@, salt, nonce, pt),
            ) && salt.len() == 16 && nonce.len() == 12 && payload_wf(
                spec_sealed(passphrase@, salt, nonce, pt),
            ) && sealed_len_ok(passphrase@, salt, nonce, pt) && encode_utf8(pt).len()
                <= 0xFFFF_FFFF ==> r is Some && r->Some_0@ == pt,
{
    match stored {
        None => None,
        Some(bytes) => {
            match payload_from_json(bytes) {
                None => None,
                Some(p) => {
                    let r = open_secret(passphrase, &p);
                    proof {
                        assert forall|salt: Seq<u8>, nonce: Seq<u8>, pt: Seq<char>|
                            bytes@ == #[trigger] spec_payload_json(
                                spec_sealed(passphrase@, salt, nonce, pt),
                            ) && salt.len() == 16 && nonce.len() == 12 && payload_wf(
                                spec_sealed(passphrase@, salt, nonce, pt),
                            ) && sealed_len_ok(passphrase@, salt, nonce, pt) && encode_utf8(
                                pt,
                            ).len() <= 0xFFFF_FFFF implies r is Some
                            && r->Some_0@ == pt by {
                            assert(p@ == spec_sealed(passphrase@, salt, nonce, pt));
                        }
                    }
                    r
                },
            }
        },
    }
}

/// What the UI's key lookup returns: the stored secret, or the empty
/// string when none is configured — absence is not an error.
pub fn stored_secret_or_empty(passphrase: &str, stored: &Option<Vec<u8>>) -> (r: String)
    ensures
        stored is None ==> r@ == Seq::<char>::empty(),
        forall|salt: Seq<u8>, nonce: Seq<u8>, pt: Seq<char>|
            stored matches Some(b) && b@ == #[trigger] spec_payload_json(
                spec_sealed(passphrase@, salt, nonce, pt),
            ) && salt.len() == 16 && nonce.len() == 12 && payload_wf(
                spec_sealed(passphrase@, salt, nonce, pt),
            ) && sealed_len_ok(passphrase@, salt, nonce, pt) && encode_utf8(pt).len()
                <= 0xFFFF_FFFF ==> r@ == pt,
{
    match open_stored_secret(passphrase, stored) {
        Some(s) => s,
        None => String::new(),
    }
}

/// The name of a provider's key file: the provider identifier followed by
/// `_key.json`.
pub fn key_file_name(provider: &str) -> (r: String)
    ensures
        r@ == provider@ + "_key.json"@,
{
    let mut s = provider.to_owned();
    s.append("_key.json");
    s
}

} // verus!

