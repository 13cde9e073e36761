use inventor_bot::data::packets::check_packets;
use inventor_bot::data::secrets::{decrypt, encrypt, CryptoError};
use pgp::ser::Serialize;
use pgp::types::CompressionAlgorithm;
use pgp::{Deserializable, Message};

/// A password packet (AES-256, salted SHA-256) followed by a SEIPD v1 packet
/// whose ciphertext is `n` bytes long.
fn inner_with_short_seipd(n: u8) -> Vec<u8> {
    let mut v = vec![0xC3, 12, 4, 9, 1, 8, 1, 2, 3, 4, 5, 6, 7, 8];
    v.push(0xD2);
    v.push(n + 1);
    v.push(1);
    v.extend(std::iter::repeat(0xAB).take(n as usize));
    v
}

#[test]
fn framing_rejects_short_seipd() {
    assert!(!check_packets(&inner_with_short_seipd(19)));
    assert!(!check_packets(&inner_with_short_seipd(39)));
    assert!(check_packets(&inner_with_short_seipd(40)));
    assert!(check_packets(&[]));
    assert!(!check_packets(&[0xC3]));
    assert!(!check_packets(&[0xC3, 5, 1]));
    assert!(!check_packets(&[0x12]));
    assert!(check_packets(&[0x8C, 1, 0, 0xCB, 0]));
    assert!(!check_packets(&[0xC9, 0]));
}

#[test]
fn short_seipd_payload_fails_without_panic() {
    let inner = inner_with_short_seipd(20);
    let message = Message::from_bytes(&inner[..]).unwrap();
    let payload = message.compress(CompressionAlgorithm::ZLIB).unwrap().to_bytes().unwrap();
    assert_eq!(decrypt(&payload, "any"), Err(CryptoError::DecryptFailed));
}

#[test]
fn corrupt_payloads_fail() {
    assert_eq!(decrypt(&[], "pw"), Err(CryptoError::DecryptFailed));
    let mut b = encrypt("some text", "pw", 9).unwrap();
    let last = b.len() - 1;
    b[last] ^= 0x55;
    assert_eq!(decrypt(&b, "pw"), Err(CryptoError::DecryptFailed));
    b.truncate(b.len() / 2);
    assert_eq!(decrypt(&b, "pw"), Err(CryptoError::DecryptFailed));
}
