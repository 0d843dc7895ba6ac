use helpline::authorization::{
    aad, authorize, create_token, create_token_at, get_username_from_token_if_valid,
    hash_password, username_if_valid_at, SecretKey, Token,
};
use helpline::errors::Error;
use hmac::Mac;
use sha3::Digest;

fn key() -> SecretKey {
    SecretKey::from_bytes([3u8; 32])
}

fn issued() -> Token {
    create_token_at(&key(), "alice", 1_000, [7u8; 12]).expect("a day after 1000 fits")
}

#[test]
fn aad_is_username_then_big_endian_time_then_nonce() {
    let data = aad("ab", 1, [9u8; 12]);
    let mut expected = vec![b'a', b'b', 0, 0, 0, 0, 0, 0, 0, 1];
    expected.extend_from_slice(&[9u8; 12]);
    assert_eq!(data, expected);
}

#[test]
fn aad_encodes_time_as_std_does() {
    for time in [0i64, 1, 255, 256, 86_400, 1_700_000_000, i64::MAX, -1, -256, i64::MIN] {
        let data = aad("", time, [0u8; 12]);
        assert_eq!(&data[..8], &time.to_be_bytes()[..]);
        assert_eq!(data.len(), 20);
    }
}

#[test]
fn aad_uses_utf8_bytes_of_the_username() {
    let data = aad("é", 0, [0u8; 12]);
    assert_eq!(&data[..2], &[0xc3, 0xa9]);
    assert_eq!(data.len(), 22);
}

#[test]
fn token_expires_a_day_after_issue() {
    let token = issued();
    assert_eq!(token.username, "alice");
    assert_eq!(token.expiration_time, 1_000 + 86_400);
    assert_eq!(token.nonce, [7u8; 12]);
}

#[test]
fn token_mac_is_hmac_sha3_256_of_the_aad() {
    let token = issued();
    let mut mac = hmac::Hmac::<sha3::Sha3_256>::new_from_slice(&[3u8; 32]).unwrap();
    mac.update(&aad("alice", 87_400, [7u8; 12]));
    assert_eq!(token.mac, mac.finalize().into_bytes().to_vec());
    assert_eq!(token.mac.len(), 32);
}

#[test]
fn token_is_refused_where_a_day_later_overflows() {
    assert!(create_token_at(&key(), "alice", i64::MAX - 86_399, [7u8; 12]).is_none());
    assert!(create_token_at(&key(), "alice", i64::MAX - 86_400, [7u8; 12]).is_some());
}

#[test]
fn issued_token_resolves_to_its_username_until_it_expires() {
    let token = issued();
    assert_eq!(username_if_valid_at(&key(), &token, 1_000), Some("alice"));
    assert_eq!(username_if_valid_at(&key(), &token, 87_400), Some("alice"));
    assert_eq!(username_if_valid_at(&key(), &token, 87_401), None);
}

#[test]
fn expired_token_fails_even_with_a_correct_mac() {
    let token = issued();
    assert_eq!(username_if_valid_at(&key(), &token, i64::MAX), None);
}

#[test]
fn flipping_a_bit_of_the_mac_is_rejected() {
    for byte in 0..32 {
        for bit in 0..8 {
            let mut token = issued();
            token.mac[byte] ^= 1 << bit;
            assert_eq!(username_if_valid_at(&key(), &token, 1_000), None);
        }
    }
}

#[test]
fn a_truncated_or_extended_mac_is_rejected() {
    let mut token = issued();
    token.mac.pop();
    assert_eq!(username_if_valid_at(&key(), &token, 1_000), None);
    let mut token = issued();
    token.mac.push(0);
    assert_eq!(username_if_valid_at(&key(), &token, 1_000), None);
    let mut token = issued();
    token.mac.clear();
    assert_eq!(username_if_valid_at(&key(), &token, 1_000), None);
}

#[test]
fn flipping_a_bit_of_the_nonce_is_rejected() {
    for byte in 0..12 {
        for bit in 0..8 {
            let mut token = issued();
            token.nonce[byte] ^= 1 << bit;
            assert_eq!(username_if_valid_at(&key(), &token, 1_000), None);
        }
    }
}

#[test]
fn flipping_a_bit_of_the_expiration_time_is_rejected() {
    for bit in 0..63 {
        let mut token = issued();
        token.expiration_time ^= 1 << bit;
        assert_eq!(username_if_valid_at(&key(), &token, 1_000), None);
    }
}

#[test]
fn changing_the_username_is_rejected() {
    let mut token = issued();
    token.username = "alicf".to_owned();
    assert_eq!(username_if_valid_at(&key(), &token, 1_000), None);
    let mut token = issued();
    token.username = "bob".to_owned();
    assert_eq!(username_if_valid_at(&key(), &token, 1_000), None);
}

#[test]
fn a_token_of_another_key_is_rejected() {
    let token = issued();
    let other = SecretKey::from_bytes([4u8; 32]);
    assert_eq!(username_if_valid_at(&other, &token, 1_000), None);
}

#[test]
fn a_fresh_token_is_valid_now() {
    let key = SecretKey::generate();
    let token = create_token(&key, "carol").expect("the clock is sane");
    assert_eq!(get_username_from_token_if_valid(&key, &token), Some("carol"));
    assert_eq!(authorize(&key, &token), Ok("carol".to_owned()));
}

#[test]
fn a_token_that_never_expires_is_valid_whatever_the_clock_shows() {
    let mut mac = hmac::Hmac::<sha3::Sha3_256>::new_from_slice(&[3u8; 32]).unwrap();
    mac.update(&aad("dave", i64::MAX, [1u8; 12]));
    let token = Token {
        username: "dave".to_owned(),
        expiration_time: i64::MAX,
        nonce: [1u8; 12],
        mac: mac.finalize().into_bytes().to_vec(),
    };
    assert_eq!(get_username_from_token_if_valid(&key(), &token), Some("dave"));
    assert_eq!(authorize(&key(), &token), Ok("dave".to_owned()));
}

#[test]
fn a_token_that_expired_long_ago_is_invalid_now() {
    let token = issued();
    assert_eq!(get_username_from_token_if_valid(&key(), &token), None);
    assert_eq!(authorize(&key(), &token), Err(Error::InvalidToken));
}

#[test]
fn two_fresh_tokens_differ_in_their_nonce() {
    let key = SecretKey::generate();
    let a = create_token(&key, "carol").unwrap();
    let b = create_token(&key, "carol").unwrap();
    assert_ne!(a.nonce, b.nonce);
}

#[test]
fn tokens_of_a_former_secret_are_invalid() {
    let token = create_token(&SecretKey::generate(), "carol").unwrap();
    let restarted = SecretKey::generate();
    assert_eq!(get_username_from_token_if_valid(&restarted, &token), None);
    assert_eq!(authorize(&restarted, &token), Err(Error::InvalidToken));
}

#[test]
fn password_hash_is_sha3_256_of_salt_then_password() {
    let hash = hash_password("hunter2", [5u8; 32]);
    let mut data = vec![5u8; 32];
    data.extend_from_slice(b"hunter2");
    assert_eq!(hash, sha3::Sha3_256::digest(&data).to_vec());
    assert_eq!(hash.len(), 32);
    assert_ne!(hash, hash_password("hunter2", [6u8; 32]));
    assert_ne!(hash, hash_password("hunter3", [5u8; 32]));
}
