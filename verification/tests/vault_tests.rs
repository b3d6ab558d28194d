use loopback_vault::crypto::{derive_key, derive_machine_passphrase, machine_passphrase};
use loopback_vault::payload::{payload_from_json, payload_to_json, SecretPayload};
use loopback_vault::vault::{
    key_file_name, open_secret, open_stored_secret, seal_secret, seal_secret_to_json,
    seal_secret_with, stored_secret_or_empty,
};

fn sample_payload() -> SecretPayload {
    SecretPayload {
        salt: vec![0u8; 16],
        nonce: vec![0u8; 12],
        tag: vec![0u8; 16],
        ciphertext: vec![1u8, 2, 3],
    }
}

#[test]
fn round_trip_payload() {
    let p = seal_secret("machine-pass", "gemini api key value");
    let out = open_secret("machine-pass", &p);
    assert_eq!(out, Some("gemini api key value".to_string()));
}

#[test]
fn round_trip_stored_json() {
    let bytes = seal_secret_to_json("machine-pass", "sk-secret-värde");
    let out = open_stored_secret("machine-pass", &Some(bytes));
    assert_eq!(out, Some("sk-secret-värde".to_string()));
}

#[test]
fn round_trip_empty_plaintext() {
    let p = seal_secret("machine-pass", "");
    assert_eq!(open_secret("machine-pass", &p), Some(String::new()));
}

#[test]
fn tamper_tag_fails() {
    let mut p = seal_secret_with("pass", vec![7u8; 16], vec![9u8; 12], "secret");
    p.tag[0] ^= 0x01;
    assert_eq!(open_secret("pass", &p), None);
    p.tag[0] ^= 0x01;
    p.tag[15] ^= 0x80;
    assert_eq!(open_secret("pass", &p), None);
}

#[test]
fn tamper_ciphertext_fails() {
    let mut p = seal_secret_with("pass", vec![7u8; 16], vec![9u8; 12], "secret");
    p.ciphertext[0] ^= 0x01;
    assert_eq!(open_secret("pass", &p), None);
}

#[test]
fn tamper_nonce_fails() {
    let mut p = seal_secret_with("pass", vec![7u8; 16], vec![9u8; 12], "secret");
    p.nonce[11] ^= 0x40;
    assert_eq!(open_secret("pass", &p), None);
}

#[test]
fn machine_binding() {
    // Two home directories whose hex hashes differ give passphrases under
    // which the other machine's payload never opens.
    let pass_a = derive_machine_passphrase("/home/ada");
    let pass_b = derive_machine_passphrase("/home/bob");
    assert_ne!(pass_a, pass_b);
    let p = seal_secret_with(pass_a.as_str(), vec![1u8; 16], vec![2u8; 12], "bound");
    assert_eq!(open_secret(pass_b.as_str(), &p), None);
}

#[test]
fn stored_machine_binding() {
    let bytes = seal_secret_to_json("pass-a", "bound secret");
    assert_eq!(open_stored_secret("pass-b", &Some(bytes)), None);
}

#[test]
fn absent_file_is_plain_absence() {
    assert_eq!(open_stored_secret("pass", &None), None);
    assert_eq!(
        open_stored_secret("pass", &Some(b"not a payload at all".to_vec())),
        None
    );
    assert_eq!(stored_secret_or_empty("pass", &None), "");
}

#[test]
fn stored_secret_reads_back() {
    let bytes = seal_secret_to_json("pass", "key-value");
    assert_eq!(stored_secret_or_empty("pass", &Some(bytes)), "key-value");
}

#[test]
fn malformed_field_lengths_fail_closed() {
    let mut p = seal_secret_with("pass", vec![7u8; 16], vec![9u8; 12], "secret");
    p.salt.pop();
    assert_eq!(open_secret("pass", &p), None);
}

#[test]
fn fresh_salt_and_nonce_each_time() {
    let a = seal_secret("pass", "x");
    let b = seal_secret("pass", "x");
    assert_eq!(a.salt.len(), 16);
    assert_eq!(a.nonce.len(), 12);
    assert_eq!(a.tag.len(), 16);
    assert!(a.salt != b.salt || a.nonce != b.nonce);
}

#[test]
fn passphrase_is_sha256_hex_of_home() {
    let expected = hex::encode(<sha2::Sha256 as sha2::Digest>::digest(b"/home/ada"));
    assert_eq!(derive_machine_passphrase("/home/ada"), expected);
    // 32 bytes as lowercase hex
    assert_eq!(expected.len(), 64);
}

#[test]
fn machine_passphrase_uses_current_home() {
    match (machine_passphrase(), dirs::home_dir()) {
        (Some(got), Some(home)) => {
            let expected = derive_machine_passphrase(home.to_string_lossy().as_ref());
            assert_eq!(got, expected);
        }
        (None, None) => {}
        (got, home) => panic!("mismatch: {:?} vs {:?}", got, home),
    }
}

#[test]
fn derive_key_matches_pbkdf2() {
    let salt = vec![5u8; 16];
    let key = derive_key("pw", &salt);
    let mut expected = [0u8; 32];
    pbkdf2::pbkdf2::<hmac::Hmac<sha2::Sha256>>(b"pw", &salt, 150000, &mut expected).unwrap();
    assert_eq!(key, expected.to_vec());
}

#[test]
fn seal_matches_aes_gcm() {
    let salt = vec![3u8; 16];
    let nonce = vec![4u8; 12];
    let p = seal_secret_with("pw", salt.clone(), nonce.clone(), "plain");
    let mut key = [0u8; 32];
    pbkdf2::pbkdf2::<hmac::Hmac<sha2::Sha256>>(b"pw", &salt, 150000, &mut key).unwrap();
    let cipher = <aes_gcm::Aes256Gcm as aes_gcm::KeyInit>::new_from_slice(&key).unwrap();
    let nonce_arr: &aes_gcm::Nonce<aes_gcm::aead::consts::U12> =
        nonce.as_slice().try_into().unwrap();
    let sealed = aes_gcm::aead::Aead::encrypt(&cipher, nonce_arr, b"plain".as_ref()).unwrap();
    let (ct, tag) = sealed.split_at(sealed.len() - 16);
    assert_eq!(p.ciphertext, ct.to_vec());
    assert_eq!(p.tag, tag.to_vec());
    assert_eq!(p.salt, salt);
    assert_eq!(p.nonce, nonce);
}

#[test]
fn payload_json_exact_text() {
    let json = payload_to_json(&sample_payload());
    let expected = "{\n  \"algo\": \"aes-256-gcm\",\n  \"ciphertext\": \"AQID\",\n  \"iv\": \"AAAAAAAAAAAAAAAA\",\n  \"salt\": \"AAAAAAAAAAAAAAAAAAAAAA==\",\n  \"tag\": \"AAAAAAAAAAAAAAAAAAAAAA==\",\n  \"version\": 1\n}";
    assert_eq!(String::from_utf8(json).unwrap(), expected);
}

#[test]
fn payload_json_uses_standard_base64() {
    let mut p = sample_payload();
    p.ciphertext = vec![251u8, 255, 190, 5];
    let json = String::from_utf8(payload_to_json(&p)).unwrap();
    let expected = base64::Engine::encode(
        &base64::engine::general_purpose::STANDARD,
        [251u8, 255, 190, 5],
    );
    assert!(json.contains(&format!("\"ciphertext\": \"{}\"", expected)));
}

#[test]
fn payload_parse_inverts_serialize() {
    let p = SecretPayload {
        salt: (0u8..16).collect(),
        nonce: (100u8..112).collect(),
        tag: (200u8..216).collect(),
        ciphertext: vec![],
    };
    let json = payload_to_json(&p);
    let q = payload_from_json(&json).expect("canonical text parses");
    assert_eq!(q.salt, p.salt);
    assert_eq!(q.nonce, p.nonce);
    assert_eq!(q.tag, p.tag);
    assert_eq!(q.ciphertext, p.ciphertext);
}

#[test]
fn payload_parse_fails_closed() {
    let good = payload_to_json(&sample_payload());
    // trailing bytes
    let mut extra = good.clone();
    extra.push(b'\n');
    assert!(payload_from_json(&extra).is_none());
    // corrupt base64 in a field
    let mut bad = good.clone();
    let pos = String::from_utf8(good.clone()).unwrap().find("AQID").unwrap();
    bad[pos] = b'"';
    assert!(payload_from_json(&bad).is_none());
    // missing opening brace
    assert!(payload_from_json(&good[1..].to_vec()).is_none());
    assert!(payload_from_json(&Vec::new()).is_none());
}

#[test]
fn key_file_name_for_provider() {
    assert_eq!(key_file_name("gemini"), "gemini_key.json");
    assert_eq!(key_file_name("imgbb"), "imgbb_key.json");
}
