//! Cryptographic primitives behind trusted wrappers: SHA-256, PBKDF2, and
//! AES-256-GCM, together with the machine-bound passphrase derivation.
//!
//! The digests and ciphers themselves are outside calls; their results are
//! named by uninterpreted spec functions, and everything built on top of
//! them is verified against those names.

use vstd::prelude::*;
use vstd::string::*;
use vstd::utf8::*;

verus! {

/// Number of PBKDF2 rounds used to stretch the machine passphrase.
pub const KDF_ROUNDS: u32 = 150000;

/// The SHA-256 digest of a byte sequence (32 bytes).
pub uninterp spec fn sha256_digest(data: Seq<u8>) -> Seq<u8>;

/// The 32-byte key that PBKDF2 with HMAC-SHA-256 derives from a password,
/// a salt and a round count.
pub uninterp spec fn pbkdf2_key(password: Seq<u8>, salt: Seq<u8>, rounds: u32) -> Seq<u8>;

/// The AES-256-GCM sealing of a plaintext: the ciphertext followed by the
/// 16-byte authentication tag, a deterministic function of key, nonce and
/// plaintext.
pub uninterp spec fn gcm_seal(key: Seq<u8>, nonce: Seq<u8>, plaintext: Seq<u8>) -> Seq<u8>;

/// The sixteen lowercase hexadecimal digits.
pub open spec fn hex_digits() -> Seq<char> {
    seq!['0', '1', '2', '3', '4', '5', '6', '7', '8', '9', 'a', 'b', 'c', 'd', 'e', 'f']
}

/// Lowercase hexadecimal rendering of a byte sequence, two digits per byte,
/// high nibble first.
pub open spec fn hex_of(b: Seq<u8>) -> Seq<char> {
    Seq::new(
        b.len() * 2,
        |i: int|
            hex_digits()[
                if i % 2 == 0 {
                    b[i / 2] as int / 16
                } else {
                    b[i / 2] as int % 16
                }
            ],
    )
}

/// Relies on `sha2::Sha256` (through the `Digest` trait): returns the
/// 32-byte SHA-256 digest of the input, a function of the input alone.
#[verifier::external_body]
fn sha256_bytes(data: &Vec<u8>) -> (r: Vec<u8>)
    ensures
        r@ == sha256_digest(data@),
        r@.len() == 32,
{
    <sha2::Sha256 as sha2::Digest>::digest(data.as_slice()).to_vec()
}

/// Relies on `pbkdf2::pbkdf2` with `Hmac<Sha256>` as the PRF: fills a
/// 32-byte buffer with the derived key, a function of password, salt and
/// round count alone. `Hmac` accepts keys of any length, so the call
/// cannot fail.
#[verifier::external_body]
fn pbkdf2_bytes(password: &Vec<u8>, salt: &Vec<u8>, rounds: u32) -> (r: Vec<u8>)
    ensures
        r@ == pbkdf2_key(password@, salt@, rounds),
        r@.len() == 32,
{
    let mut key = vec![0u8; 32];
    pbkdf2::pbkdf2::<hmac::Hmac<sha2::Sha256>>(
        password.as_slice(),
        salt.as_slice(),
        rounds,
        &mut key,
    ).expect("HMAC accepts any key length");
    key
}

/// Relies on `hex::encode`: two lowercase hexadecimal digits per byte,
/// high nibble first.
#[verifier::external_body]
fn hex_encode(data: &Vec<u8>) -> (r: String)
    ensures
        r@ == hex_of(data@),
{
    hex::encode(data.as_slice())
}

/// Relies on `aes_gcm::Aes256Gcm` encryption (`Aead::encrypt`): returns
/// ciphertext followed by the 16-byte tag. With a plaintext below the
/// cipher's size limit the call cannot fail.
#[verifier::external_body]
pub(crate) fn aes256_gcm_seal(key: &Vec<u8>, nonce: &Vec<u8>, plaintext: &Vec<u8>) -> (r: Vec<u8>)
    requires
        key@.len() == 32,
        nonce@.len() == 12,
        plaintext@.len() <= 0xFFFF_FFFF,
    ensures
        r@ == gcm_seal(key@, nonce@, plaintext@),
        r@.len() == plaintext@.len() + 16,
{
    let cipher = <aes_gcm::Aes256Gcm as aes_gcm::KeyInit>::new_from_slice(key.as_slice())
        .expect("key length checked by caller");
    let nonce_arr: &aes_gcm::Nonce<aes_gcm::aead::consts::U12> = nonce
        .as_slice()
        .try_into()
        .expect("nonce length checked by caller");
    aes_gcm::aead::Aead::encrypt(&cipher, nonce_arr, plaintext.as_slice())
        .expect("plaintext length checked by caller")
}

/// Relies on `aes_gcm::Aes256Gcm` decryption (`Aead::decrypt`): succeeds
/// exactly on data whose trailing 16-byte tag authenticates under the key
/// and nonce, and then inverts the sealing.
#[verifier::external_body]
pub(crate) fn aes256_gcm_open(key: &Vec<u8>, nonce: &Vec<u8>, data: &Vec<u8>) -> (r: Option<Vec<u8>>)
    requires
        key@.len() == 32,
        nonce@.len() == 12,
    ensures
        r is Some ==> data@ == gcm_seal(key@, nonce@, r->Some_0@),
        forall|m: Seq<u8>|
            m.len() <= 0xFFFF_FFFF && data@ == gcm_seal(key@, nonce@, m) ==> r is Some
                && r->Some_0@ == m,
{
    let cipher = <aes_gcm::Aes256Gcm as aes_gcm::KeyInit>::new_from_slice(key.as_slice())
        .expect("key length checked by caller");
    let nonce_arr: &aes_gcm::Nonce<aes_gcm::aead::consts::U12> = nonce
        .as_slice()
        .try_into()
        .expect("nonce length checked by caller");
    aes_gcm::aead::Aead::decrypt(&cipher, nonce_arr, data.as_slice()).ok()
}

/// Relies on `rand::rngs::OsRng::fill_bytes`: fills the buffer from the
/// operating system's random source; nothing is known of the values.
#[verifier::external_body]
pub(crate) fn random_bytes(n: usize) -> (r: Vec<u8>)
    ensures
        r@.len() == n,
{
    let mut buf = vec![0u8; n];
    rand::RngCore::fill_bytes(&mut rand::rngs::OsRng, &mut buf);
    buf
}

/// Relies on `dirs::home_dir`: the current user's home directory, an
/// environment lookup of which nothing is promised.
#[verifier::external_body]
fn home_dir_string() -> (r: Option<String>)
{
    dirs::home_dir().map(|p| p.to_string_lossy().into_owned())
}

/// The machine-bound passphrase derived from a home directory path: the
/// lowercase hex rendering of the SHA-256 digest of its UTF-8 bytes.
pub open spec fn spec_machine_passphrase(home: Seq<char>) -> Seq<char> {
    hex_of(sha256_digest(encode_utf8(home)))
}

/// Hash a home directory path into the machine passphrase. Deterministic:
/// the same path always yields the same passphrase.
pub fn derive_machine_passphrase(home: &str) -> (r: String)
    ensures
        r@ == spec_machine_passphrase(home@),
{
    let bytes = home.as_bytes_vec();
    let digest = sha256_bytes(&bytes);
    hex_encode(&digest)
}

/// Read the home directory and derive the machine passphrase from it;
/// `None` when the environment offers no home directory.
pub fn machine_passphrase() -> (r: Option<String>)
    ensures
        r matches Some(s) ==> exists|home: Seq<char>| s@ == spec_machine_passphrase(home),
{
    match home_dir_string() {
        Some(home) => {
            let pass = derive_machine_passphrase(home.as_str());
            proof {
                assert(pass@ == spec_machine_passphrase(home@));
            }
            Some(pass)
        },
        None => None,
    }
}

/// The 32-byte vault key for a passphrase and salt.
pub open spec fn spec_vault_key(passphrase: Seq<char>, salt: Seq<u8>) -> Seq<u8> {
    pbkdf2_key(encode_utf8(passphrase), salt, KDF_ROUNDS)
}

/// Stretch a passphrase and salt into the 32-byte vault key. Pure: the
/// same passphrase and salt always yield the same key.
pub fn derive_key(passphrase: &str, salt: &Vec<u8>) -> (r: Vec<u8>)
    ensures
        r@ == spec_vault_key(passphrase@, salt@),
        r@.len() == 32,
{
    let pass_bytes = passphrase.as_bytes_vec();
    pbkdf2_bytes(&pass_bytes, salt, KDF_ROUNDS)
}

} // verus!
