use augustus::crypto::{PublicKey, H256};

#[test]
fn digest_in_hexadecimal() {
    assert_eq!(H256::new(0, 0).hex(), vec![b'0'; 64]);
    assert_eq!(H256::new(u128::MAX, u128::MAX).hex(), vec![b'f'; 64]);
    let digest = H256::new(0x0123456789abcdef_fedcba9876543210, 0xa);
    assert_eq!(
        String::from_utf8(digest.hex()).unwrap(),
        "0123456789abcdeffedcba98765432100000000000000000000000000000000a"
    );
    assert_eq!(
        String::from_utf8(digest.hex()).unwrap(),
        format!("{:032x}{:032x}", digest.high, digest.low)
    );
}

#[test]
fn key_is_known_by_its_digest() {
    let digest = H256::new(1, 2);
    assert_eq!(PublicKey { digest }.sha256(), digest);
    assert_eq!(digest, H256 { high: 1, low: 2 });
    assert_ne!(digest, H256::new(2, 1));
}
