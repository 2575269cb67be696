use bubblegum_tx::{derive_tree_config, parse_digest, validate_keypair_nif, validate_pubkey_nif, Address, BubblegumError, KeyPair};
use solana_sdk::signer::Signer;

fn hex(s: &str) -> Vec<u8> {
    (0..s.len()).step_by(2).map(|i| u8::from_str_radix(&s[i..i + 2], 16).unwrap()).collect()
}

// An ed25519 key pair from the published test vectors (RFC 8032, first test).
fn fixture_keypair() -> Vec<u8> {
    let mut bytes = hex("9d61b19deffd5a60ba844af492ec2cc44449c5697b326919703bac031cae7f60");
    bytes.extend(hex("d75a980182b10ab7d54bfed3c964073a0ee172f3daa62325af021a68f707511a"));
    bytes
}

#[test]
fn fixture_keypair_round_trips_to_its_address() {
    let bytes = fixture_keypair();
    let k = KeyPair::from_bytes(&bytes).expect("valid key pair");
    assert_eq!(k.address().bytes.to_vec(), hex("d75a980182b10ab7d54bfed3c964073a0ee172f3daa62325af021a68f707511a"));
    assert!(validate_keypair_nif(bytes));
}

#[test]
fn generated_keypair_address_matches_its_pubkey() {
    let kp = solana_sdk::signer::keypair::Keypair::new();
    let k = KeyPair::from_bytes(&kp.to_bytes()).expect("valid key pair");
    assert_eq!(k.address().bytes, kp.pubkey().to_bytes());
}

#[test]
fn keypair_of_63_or_65_bytes_is_rejected() {
    let bytes = fixture_keypair();
    assert_eq!(KeyPair::from_bytes(&bytes[..63]).err(), Some(BubblegumError::InvalidKeyPair));
    let mut longer = bytes.clone();
    longer.push(0);
    assert_eq!(KeyPair::from_bytes(&longer).err(), Some(BubblegumError::InvalidKeyPair));
    assert!(!validate_keypair_nif(bytes[..63].to_vec()));
    assert!(!validate_keypair_nif(longer));
    assert!(!validate_keypair_nif(Vec::new()));
}

#[test]
fn keypair_with_foreign_public_half_is_rejected() {
    let mut bytes = fixture_keypair();
    let other = solana_sdk::signer::keypair::Keypair::new();
    bytes[32..].copy_from_slice(&other.pubkey().to_bytes());
    assert_eq!(KeyPair::from_bytes(&bytes).err(), Some(BubblegumError::InvalidKeyPair));
}

#[test]
fn address_text_parses() {
    let a = Address::from_text("11111111111111111111111111111111").expect("system program address");
    assert_eq!(a.bytes, [0u8; 32]);
    let kp = solana_sdk::signer::keypair::Keypair::new();
    let b = Address::from_text(&kp.pubkey().to_string()).expect("valid address");
    assert_eq!(b.bytes, kp.pubkey().to_bytes());
    assert!(validate_pubkey_nif("11111111111111111111111111111111"));
}

#[test]
fn malformed_address_text_is_rejected() {
    assert_eq!(Address::from_text("not base58!").err(), Some(BubblegumError::InvalidAddress));
    assert_eq!(Address::from_text("").err(), Some(BubblegumError::InvalidAddress));
    assert_eq!(Address::from_text("1111").err(), Some(BubblegumError::InvalidAddress));
    assert_eq!(Address::from_text(&"2".repeat(45)).err(), Some(BubblegumError::InvalidAddress));
    assert!(!validate_pubkey_nif("0OIl"));
}

#[test]
fn digest_text_decodes_to_32_bytes() {
    let text = bs58::encode([7u8; 32]).into_string();
    assert_eq!(parse_digest(&text), Ok([7u8; 32]));
    let short = bs58::encode([7u8; 31]).into_string();
    assert_eq!(parse_digest(&short), Err(BubblegumError::InvalidAddress));
    assert_eq!(parse_digest("0OIl"), Err(BubblegumError::InvalidAddress));
}

#[test]
fn tree_config_derivation_is_deterministic_and_matches_bubblegum() {
    let tree = Address::from_text(&solana_sdk::signer::keypair::Keypair::new().pubkey().to_string()).unwrap();
    let (a1, bump1) = derive_tree_config(&tree);
    let (a2, bump2) = derive_tree_config(&tree);
    assert_eq!(a1.bytes, a2.bytes);
    assert_eq!(bump1, bump2);
    let (expected, bump) = mpl_bubblegum::accounts::TreeConfig::find_pda(&solana_program::pubkey::Pubkey::new_from_array(tree.bytes));
    assert_eq!(a1.bytes, expected.to_bytes());
    assert_eq!(bump1, bump);
    assert_ne!(a1.bytes, tree.bytes);
}
