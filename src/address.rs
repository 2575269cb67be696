//! Addresses, 32-byte digests and signing key pairs, parsed from their
//! external encodings, and the derived tree-configuration address.
use vstd::prelude::*;

use crate::encode::{key_set, LedgerTransaction};
use crate::error::BubblegumError;
use solana_sdk::signer::Signer;

verus! {

/// A 32-byte account identifier.
#[derive(Clone, Copy, Debug)]
pub struct Address {
    pub bytes: [u8; 32],
}

/// The 32 bytes that an address text names, when it is valid.
pub uninterp spec fn pubkey_from_text(s: Seq<char>) -> Option<Seq<u8>>;

/// The bytes that a base-58 text decodes to, when it is valid base-58.
pub uninterp spec fn base58_decode(s: Seq<char>) -> Option<Seq<u8>>;

/// Whether 64 bytes form an ed25519 key pair: a secret key followed by its
/// own public key.
pub uninterp spec fn keypair_accepted(b: Seq<u8>) -> bool;

/// The program-derived tree-configuration address of a tree, and its bump.
pub uninterp spec fn tree_config_pda(tree: Seq<u8>) -> (Seq<u8>, u8);

/// A 32-byte digest text: base-58 that decodes to exactly 32 bytes.
pub open spec fn digest_from_text(s: Seq<char>) -> Option<Seq<u8>> {
    match base58_decode(s) {
        Some(b) => if b.len() == 32 { Some(b) } else { None },
        None => None,
    }
}

/// Relies on `Pubkey::from_str` of solana-program: a text of at most 44 bytes
/// whose base-58 decoding has exactly 32 bytes; the key's bytes are those.
#[verifier::external_body]
fn parse_pubkey(s: &str) -> (r: Option<[u8; 32]>)
    ensures
        r is Some <==> pubkey_from_text(s@) is Some,
        r matches Some(b) ==> pubkey_from_text(s@) == Some(b@),
        s@.len() > 44 ==> r is None,
{
    <solana_program::pubkey::Pubkey as std::str::FromStr>::from_str(s).ok().map(|k| k.to_bytes())
}

/// Relies on `bs58::decode(..).into_vec()`: the decoded bytes, or an error
/// for a text outside the bitcoin base-58 alphabet.
#[verifier::external_body]
fn decode_base58(s: &str) -> (r: Option<Vec<u8>>)
    ensures
        r is Some <==> base58_decode(s@) is Some,
        r matches Some(v) ==> base58_decode(s@) == Some(v@),
{
    bs58::decode(s).into_vec().ok()
}

// solana-sdk's signing key, carried through verified code as an opaque value.
#[verifier::external_type_specification]
#[verifier::external_body]
pub struct ExKeypair(solana_sdk::signer::keypair::Keypair);

/// Relies on `Keypair::from_bytes` and `Keypair::pubkey` of solana-sdk.
/// `from_bytes` accepts a buffer only when it is 64 bytes long and its upper
/// half is the public key of its lower half (shorter buffers are refused
/// outright, longer ones by the 32-byte public-key check); `pubkey` then
/// returns that upper half.
#[verifier::external_body]
fn keypair_from_bytes(b: &[u8]) -> (r: Option<(solana_sdk::signer::keypair::Keypair, [u8; 32])>)
    ensures
        r is Some <==> keypair_accepted(b@),
        r is Some ==> b@.len() == 64,
        r matches Some((_, public)) ==> public@ == b@.subrange(32, 64),
{
    let k = solana_sdk::signer::keypair::Keypair::from_bytes(b).ok()?;
    let public = k.pubkey().to_bytes();
    Some((k, public))
}

/// Relies on `TreeConfig::find_pda` of mpl-bubblegum: the program address
/// found from the tree's address as the only seed under the bubblegum program,
/// with its bump. (It panics only if none of the 256 bumps gives an address
/// off the curve, which happens with negligible probability.)
#[verifier::external_body]
fn find_tree_config_pda(tree: &[u8; 32]) -> (r: ([u8; 32], u8))
    ensures
        (r.0@, r.1) == tree_config_pda(tree@),
{
    let (k, bump) = mpl_bubblegum::accounts::TreeConfig::find_pda(
        &solana_program::pubkey::Pubkey::new_from_array(*tree),
    );
    (k.to_bytes(), bump)
}

fn array_of(v: &Vec<u8>) -> (r: [u8; 32])
    requires
        v@.len() == 32,
    ensures
        r@ == v@,
{
    let mut r = [0u8; 32];
    let mut i: usize = 0;
    while i < 32
        invariant
            v@.len() == 32,
            0 <= i <= 32,
            r@.len() == 32,
            forall|j: int| 0 <= j < i ==> r@[j] == v@[j],
        decreases 32 - i,
    {
        r[i] = v[i];
        i = i + 1;
    }
    assert(r@ =~= v@);
    r
}

impl Address {
    /// Parses an address from its base-58 text.
    pub fn from_text(s: &str) -> (r: Result<Address, BubblegumError>)
        ensures
            r is Ok <==> pubkey_from_text(s@) is Some,
            r matches Ok(a) ==> pubkey_from_text(s@) == Some(a.bytes@),
            r matches Err(e) ==> e == BubblegumError::InvalidAddress,
    {
        match parse_pubkey(s) {
            Some(bytes) => Ok(Address { bytes }),
            None => Err(BubblegumError::InvalidAddress),
        }
    }

    /// Whether two addresses hold the same bytes.
    pub fn same_as(&self, other: &Address) -> (r: bool)
        ensures
            r == (self.bytes@ == other.bytes@),
    {
        let mut i: usize = 0;
        while i < 32
            invariant
                0 <= i <= 32,
                self.bytes@.len() == 32,
                other.bytes@.len() == 32,
                forall|j: int| 0 <= j < i ==> self.bytes@[j] == other.bytes@[j],
            decreases 32 - i,
        {
            if self.bytes[i] != other.bytes[i] {
                return false;
            }
            i = i + 1;
        }
        assert(self.bytes@ =~= other.bytes@);
        true
    }
}

/// Parses a 32-byte digest from its base-58 text.
pub fn parse_digest(s: &str) -> (r: Result<[u8; 32], BubblegumError>)
    ensures
        r is Ok <==> digest_from_text(s@) is Some,
        r matches Ok(d) ==> digest_from_text(s@) == Some(d@),
        r matches Err(e) ==> e == BubblegumError::InvalidAddress,
{
    match decode_base58(s) {
        Some(v) => {
            if v.len() == 32 {
                Ok(array_of(&v))
            } else {
                Err(BubblegumError::InvalidAddress)
            }
        },
        None => Err(BubblegumError::InvalidAddress),
    }
}

/// Whether `pubkey_str` is a valid address text.
pub fn validate_pubkey_nif(pubkey_str: &str) -> (r: bool)
    ensures
        r == pubkey_from_text(pubkey_str@) is Some,
{
    parse_pubkey(pubkey_str).is_some()
}

/// Whether `keypair_bytes` is valid key-pair material: exactly 64 bytes, a
/// secret key followed by its public key.
pub fn validate_keypair_nif(keypair_bytes: Vec<u8>) -> (r: bool)
    ensures
        r == (keypair_bytes@.len() == 64 && keypair_accepted(keypair_bytes@)),
{
    keypair_bytes.len() == 64 && keypair_from_bytes(keypair_bytes.as_slice()).is_some()
}

/// The tree-configuration (tree authority) address derived from a tree's
/// address, with its bump.
pub fn derive_tree_config(tree: &Address) -> (r: (Address, u8))
    ensures
        (r.0.bytes@, r.1) == tree_config_pda(tree.bytes@),
{
    let (bytes, bump) = find_tree_config_pda(&tree.bytes);
    (Address { bytes }, bump)
}

/// Derivation is deterministic: two addresses with the same bytes derive the
/// same tree-configuration address and bump.
pub proof fn lemma_derivation_deterministic(a: Address, b: Address)
    requires
        a.bytes@ == b.bytes@,
    ensures
        tree_config_pda(a.bytes@) == tree_config_pda(b.bytes@),
{
}

/// A signing key pair: 64 bytes, a secret key followed by its public key.
pub struct KeyPair {
    keypair: solana_sdk::signer::keypair::Keypair,
    bytes: Vec<u8>,
    address: Address,
}

impl KeyPair {
    /// The 64 bytes of the key pair.
    pub closed spec fn key_bytes(&self) -> Seq<u8> {
        self.bytes@
    }

    #[verifier::type_invariant]
    spec fn inv(&self) -> bool {
        &&& self.bytes@.len() == 64
        &&& keypair_accepted(self.bytes@)
        &&& self.address.bytes@ == self.bytes@.subrange(32, 64)
    }

    /// Reads a key pair from its 64-byte form; any other buffer, or one
    /// whose halves do not belong together, is `InvalidKeyPair`.
    pub fn from_bytes(b: &[u8]) -> (r: Result<KeyPair, BubblegumError>)
        ensures
            r is Ok <==> keypair_accepted(b@),
            r matches Ok(k) ==> k.key_bytes() == b@ && b@.len() == 64,
            r matches Err(e) ==> e == BubblegumError::InvalidKeyPair,
    {
        match keypair_from_bytes(b) {
            Some((keypair, public)) => {
                let bytes = vstd::slice::slice_to_vec(b);
                Ok(KeyPair { keypair, bytes, address: Address { bytes: public } })
            },
            None => Err(BubblegumError::InvalidKeyPair),
        }
    }

    /// The key pair's public address: its upper 32 bytes.
    pub fn address(&self) -> (r: Address)
        ensures
            self.key_bytes().len() == 64,
            r.bytes@ == self.key_bytes().subrange(32, 64),
    {
        proof {
            use_type_invariant(self);
        }
        self.address
    }
}

/// Relies on `Transaction::try_partial_sign` of solana-sdk: it adds the
/// key's signature over the message with the given blockhash, and fails
/// exactly when the key is not one of the message's required signers
/// (signing with an ed25519 key does not fail). The key pair's public key is
/// its upper 32 bytes, as read by `keypair_from_bytes`.
#[verifier::external_body]
pub(crate) fn partial_sign(t: &mut LedgerTransaction, key: &KeyPair, blockhash: &[u8; 32]) -> (r: bool)
    ensures
        r == key_set(old(t).required@).contains(key.key_bytes().subrange(32, 64)),
        final(t).required@ == old(t).required@,
{
    let hash = solana_sdk::hash::Hash::new_from_array(*blockhash);
    t.tx.try_partial_sign(&[&key.keypair], hash).is_ok()
}

} // verus!
