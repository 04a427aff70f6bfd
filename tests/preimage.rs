use hodlinvoice::preimage::{get_hash, get_preimage_and_hash, is_preimage, payment_hash_of};

const ZERO_PREIMAGE: &str = "0000000000000000000000000000000000000000000000000000000000000000";
const ZERO_HASH: &str = "66687aadf862bd776c8fc18b8e9f8e20089714856ee233b3902a591d0d5f2925";

#[test]
fn preimage_must_be_64_hex_digits() {
    assert!(is_preimage(ZERO_PREIMAGE));
    assert!(is_preimage(&"0123456789ABCDEFabcdef".repeat(3)[..64]));
    assert!(!is_preimage(&ZERO_PREIMAGE[..63]));
    assert!(!is_preimage(&format!("{}0", ZERO_PREIMAGE)));
    assert!(!is_preimage(&format!("{}g", &ZERO_PREIMAGE[..63])));
    assert!(!is_preimage(""));
    assert!(!is_preimage(&format!("{}\n", &ZERO_PREIMAGE[..63])));
}

#[test]
fn hash_of_zero_preimage() {
    let h = get_hash(ZERO_PREIMAGE);
    assert_eq!(h.len(), 32);
    assert_eq!(hex::encode(&h), ZERO_HASH);
    assert_eq!(payment_hash_of(ZERO_PREIMAGE), ZERO_HASH);
}

#[test]
fn hash_ignores_letter_case_of_preimage() {
    let lower = "0123456789abcdef".repeat(4);
    let upper = lower.to_uppercase();
    let expected = "4884fdaafea47c29fea7159d0daddd9c085d6200e1359e85bb81736af6b7c837";
    assert_eq!(payment_hash_of(&lower), expected);
    assert_eq!(payment_hash_of(&upper), expected);
}

#[test]
fn fresh_preimage_matches_its_hash() {
    let (p, h) = get_preimage_and_hash();
    assert!(is_preimage(&p));
    assert_eq!(p, p.to_lowercase());
    assert_eq!(get_hash(&p), h);
    let (q, _) = get_preimage_and_hash();
    assert_ne!(p, q);
}
