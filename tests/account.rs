use giga721::account::{account_id, to_hex};
use giga721::types::Subaccount;
use sha2::Digest;

#[test]
fn hex_is_lower_case_two_digits_per_byte() {
    assert_eq!(to_hex(&vec![0x00, 0x0f, 0xa5, 0xff]), "000fa5ff");
    assert_eq!(to_hex(&Vec::new()), "");
}

#[test]
fn anonymous_default_account() {
    // The anonymous principal is the single byte 4.
    let id = account_id(&[4u8], None);
    assert_eq!(id.hex, "1c7a48ba6a562aa9eaa2481a9049cdf0433b9738c992d698c31d8abf89cadc79");
}

#[test]
fn account_is_checksum_then_hash() {
    let principal = [1u8, 2, 3];
    let id = account_id(&principal, Some(Subaccount([7u8; 32])));
    let mut data = b"\x0Aaccount-id".to_vec();
    data.extend_from_slice(&principal);
    data.extend_from_slice(&[7u8; 32]);
    let hash = sha2::Sha224::digest(&data).to_vec();
    let mut all = crc32fast::hash(&hash).to_be_bytes().to_vec();
    all.extend_from_slice(&hash);
    assert_eq!(id.hex, to_hex(&all));
    assert_eq!(id.hex.len(), 64);
    assert_ne!(id.hex, account_id(&principal, None).hex);
}
