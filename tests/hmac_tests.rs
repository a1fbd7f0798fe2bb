use hook::hmac::hmac_sha256;

fn hex_of(b: &[u8]) -> String {
    hex::encode(b)
}

#[test]
fn hmac_short_key_rfc4231_case_1() {
    let r = hmac_sha256(vec![0x0b; 20], b"Hi There".to_vec());
    assert_eq!(
        hex_of(&r),
        "b0344c61d8db38535ca8afceaf0bf12b881dc200c9833da726e9376c2e32cff7"
    );
}

#[test]
fn hmac_short_key_rfc4231_case_2() {
    let r = hmac_sha256(b"Jefe".to_vec(), b"what do ya want for nothing?".to_vec());
    assert_eq!(
        hex_of(&r),
        "5bdcc146bf60754e6a042426089575c75a003f089d2739839dec58b964ec3843"
    );
}

#[test]
fn hmac_block_sized_key() {
    let key: Vec<u8> = (0u8..64).collect();
    let r = hmac_sha256(key, b"Sample message for keylen=blocklen".to_vec());
    assert_eq!(
        hex_of(&r),
        "8bb9a1db9806f20df7f77b82138c7914d174d59e13dc4d0169c9057b133e1d62"
    );
}

#[test]
fn hmac_long_key_rfc4231_case_6() {
    let r = hmac_sha256(
        vec![0xaa; 131],
        b"Test Using Larger Than Block-Size Key - Hash Key First".to_vec(),
    );
    assert_eq!(
        hex_of(&r),
        "60e431591ee0b67f0d8a26aacbf5b77f8e0bc6213728c5140546040f0ee37f54"
    );
}

#[test]
fn hmac_empty_key_and_message() {
    let r = hmac_sha256(vec![], vec![]);
    assert_eq!(r.len(), 32);
    assert_eq!(
        hex_of(&r),
        "b613679a0814d9ec772f95d778c35fc5ff1697c493715653c6c712144292c5ad"
    );
}
