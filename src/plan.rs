//! The instruction assembler: the ordered instructions, fee payer and signers
//! of each operation, checked and derived from the caller's raw inputs before
//! any network work.
use vstd::prelude::*;

use crate::address::{
    derive_tree_config, digest_from_text, keypair_accepted, parse_digest, pubkey_from_text,
    tree_config_pda, Address, KeyPair,
};
use crate::error::BubblegumError;
use crate::metadata::{convert_metadata_args, metadata_accepted, metadata_error, metadata_converted, LeafMetadata, MetadataArgsNif};
use crate::valid_depth_size_pairs::{account_size, is_supported, required_account_size};

verus! {

/// The optional fields of a transfer. An absent field stays absent: it is
/// never replaced by zeros.
#[derive(Clone, Copy, Debug)]
pub struct TransferFields {
    pub root: Option<[u8; 32]>,
    pub data_hash: Option<[u8; 32]>,
    pub creator_hash: Option<[u8; 32]>,
    pub nonce: Option<u64>,
    pub index: Option<u32>,
}

/// One instruction of a plan, with the accounts it names and its arguments.
pub enum TreeInstruction {
    /// Allocates `space` bytes at `new_account`, funded with `lamports` by
    /// `payer` and owned by the program `owner`.
    CreateTreeAccount { payer: Address, new_account: Address, lamports: u64, space: u64, owner: Address },
    /// Initialises the tree configuration of `merkle_tree`.
    CreateTreeConfig {
        tree_config: Address,
        merkle_tree: Address,
        payer: Address,
        tree_creator: Address,
        max_depth: u32,
        max_buffer_size: u32,
    },
    /// Mints a leaf into `merkle_tree`.
    MintV1 {
        tree_config: Address,
        leaf_owner: Address,
        leaf_delegate: Address,
        merkle_tree: Address,
        payer: Address,
        tree_creator_or_delegate: Address,
        metadata: LeafMetadata,
    },
    /// Mints a leaf into `merkle_tree` as a member of a collection.
    MintToCollectionV1 {
        tree_config: Address,
        leaf_owner: Address,
        leaf_delegate: Address,
        merkle_tree: Address,
        payer: Address,
        tree_creator_or_delegate: Address,
        collection_authority: Address,
        collection_authority_record_pda: Option<Address>,
        collection_mint: Address,
        collection_metadata: Option<Address>,
        collection_edition: Option<Address>,
        metadata: LeafMetadata,
    },
    /// Moves a leaf from `leaf_owner` to `new_leaf_owner`.
    Transfer {
        tree_config: Address,
        leaf_owner: Address,
        leaf_delegate: Address,
        new_leaf_owner: Address,
        merkle_tree: Address,
        /// Whether the owner and the delegate are marked as signers.
        leaf_owner_signs: bool,
        leaf_delegate_signs: bool,
        fields: TransferFields,
    },
}

/// An assembled transaction before it is signed: its instructions in order,
/// the fee payer, and the key pairs that must sign it.
pub struct TransactionPlan {
    instructions: Vec<TreeInstruction>,
    fee_payer: Address,
    signers: Vec<KeyPair>,
}

impl TransactionPlan {
    /// The plan's instructions, in order.
    pub closed spec fn view_instructions(&self) -> Seq<TreeInstruction> {
        self.instructions@
    }

    /// The account that pays the fee.
    pub closed spec fn view_fee_payer(&self) -> Address {
        self.fee_payer
    }

    /// The key pairs that must sign, in order.
    pub closed spec fn view_signers(&self) -> Seq<KeyPair> {
        self.signers@
    }

    /// A plan comes from one of the assemblers below, so it holds at most two
    /// instructions and two signers.
    #[verifier::type_invariant]
    spec fn inv(&self) -> bool {
        self.instructions@.len() <= 2 && self.signers@.len() <= 2
    }

    /// The plan's instructions, in order.
    pub fn instructions(&self) -> (r: &Vec<TreeInstruction>)
        ensures
            r@ == self.view_instructions(),
            r@.len() <= 2,
    {
        proof {
            use_type_invariant(self);
        }
        &self.instructions
    }

    /// The account that pays the fee.
    pub fn fee_payer(&self) -> (r: Address)
        ensures
            r == self.view_fee_payer(),
    {
        self.fee_payer
    }

    /// The key pairs that must sign, in order.
    pub fn signers(&self) -> (r: &Vec<KeyPair>)
        ensures
            r@ == self.view_signers(),
            r@.len() <= 2,
    {
        proof {
            use_type_invariant(self);
        }
        &self.signers
    }
}

/// The address of the account-compression program, which owns tree accounts.
pub open spec fn compression_program_bytes() -> Seq<u8> {
    seq![
        9u8, 42, 19, 238, 149, 196, 28, 186, 8, 166, 127, 90, 198, 126, 141, 247,
        225, 218, 17, 98, 94, 29, 100, 19, 127, 143, 79, 35, 131, 3, 127, 20,
    ]
}

/// Relies on `SPL_ACCOUNT_COMPRESSION_ID` of mpl-bubblegum, the key written
/// `cmtDvXumGCrqC1Age74AVPhSRVXJMd8PJS91L8KbNCK`, whose 32 bytes these are.
#[verifier::external_body]
fn account_compression_program() -> (r: Address)
    ensures
        r.bytes@ == compression_program_bytes(),
{
    Address { bytes: mpl_bubblegum::programs::SPL_ACCOUNT_COMPRESSION_ID.to_bytes() }
}

/// The public half of 64 key-pair bytes.
pub open spec fn public_half(b: Seq<u8>) -> Seq<u8> {
    b.subrange(32, 64)
}

/// The bytes of the tree-configuration address of a tree.
pub open spec fn tree_config_of(tree: Seq<u8>) -> Seq<u8> {
    tree_config_pda(tree).0
}

/// An optional address text that is absent or parses.
pub open spec fn opt_address_ok(s: Option<&str>) -> bool {
    s matches Some(t) ==> pubkey_from_text(t@) is Some
}

/// An optional digest text that is absent or decodes to 32 bytes.
pub open spec fn opt_digest_ok(s: Option<&str>) -> bool {
    s matches Some(t) ==> digest_from_text(t@) is Some
}

/// `a` is the parsed form of the optional address text `s`.
pub open spec fn opt_address_parsed(a: Option<Address>, s: Option<&str>) -> bool {
    &&& (a is Some <==> s is Some)
    &&& (a matches Some(x) ==> pubkey_from_text(s->0@) == Some(x.bytes@))
}

/// `d` is the decoded form of the optional digest text `s`.
pub open spec fn opt_digest_parsed(d: Option<[u8; 32]>, s: Option<&str>) -> bool {
    &&& (d is Some <==> s is Some)
    &&& (d matches Some(x) ==> digest_from_text(s->0@) == Some(x@))
}

/// The addresses an instruction marks as signers.
pub open spec fn instruction_signers(ix: TreeInstruction) -> Set<Seq<u8>> {
    match ix {
        TreeInstruction::CreateTreeAccount { payer, new_account, .. } => set![payer.bytes@, new_account.bytes@],
        TreeInstruction::CreateTreeConfig { payer, tree_creator, .. } => set![payer.bytes@, tree_creator.bytes@],
        TreeInstruction::MintV1 { payer, tree_creator_or_delegate, .. } => {
            set![payer.bytes@, tree_creator_or_delegate.bytes@]
        },
        TreeInstruction::MintToCollectionV1 { payer, tree_creator_or_delegate, collection_authority, .. } => {
            set![payer.bytes@, tree_creator_or_delegate.bytes@, collection_authority.bytes@]
        },
        TreeInstruction::Transfer { leaf_owner, leaf_delegate, leaf_owner_signs, leaf_delegate_signs, .. } => {
            (if leaf_owner_signs { set![leaf_owner.bytes@] } else { Set::empty() }).union(
                if leaf_delegate_signs { set![leaf_delegate.bytes@] } else { Set::empty() },
            )
        },
    }
}

/// The addresses that instructions mark as signers.
pub open spec fn instructions_signers(ixs: Seq<TreeInstruction>) -> Set<Seq<u8>>
    decreases ixs.len(),
{
    if ixs.len() == 0 {
        Set::empty()
    } else {
        instructions_signers(ixs.drop_last()).union(instruction_signers(ixs.last()))
    }
}

/// The addresses of a plan's signers.
pub open spec fn plan_signer_addresses(p: TransactionPlan) -> Set<Seq<u8>> {
    Set::new(|k: Seq<u8>| exists|i: int| 0 <= i < p.view_signers().len() && public_half(#[trigger] p.view_signers()[i].key_bytes()) == k)
}

/// The plan's signers are exactly the accounts its transaction needs
/// signatures from: the fee payer and every account its instructions mark as
/// a signer.
pub open spec fn signers_exact(p: TransactionPlan) -> bool {
    plan_signer_addresses(p) == set![p.view_fee_payer().bytes@].union(instructions_signers(p.view_instructions()))
}

proof fn lemma_signer_addresses(p: TransactionPlan)
    requires
        1 <= p.view_signers().len() <= 2,
    ensures
        p.view_signers().len() == 1 ==> plan_signer_addresses(p) == set![public_half(p.view_signers()[0].key_bytes())],
        p.view_signers().len() == 2 ==> plan_signer_addresses(p) == set![
            public_half(p.view_signers()[0].key_bytes()),
            public_half(p.view_signers()[1].key_bytes()),
        ],
{
    let ss = p.view_signers();
    if ss.len() == 1 {
        assert(plan_signer_addresses(p) =~= set![public_half(ss[0].key_bytes())]);
    } else {
        assert(plan_signer_addresses(p) =~= set![public_half(ss[0].key_bytes()), public_half(ss[1].key_bytes())]);
    }
}

proof fn lemma_instructions_signers(ixs: Seq<TreeInstruction>)
    requires
        1 <= ixs.len() <= 2,
    ensures
        ixs.len() == 1 ==> instructions_signers(ixs) == instruction_signers(ixs[0]),
        ixs.len() == 2 ==> instructions_signers(ixs) == instruction_signers(ixs[0]).union(instruction_signers(ixs[1])),
{
    let first = ixs.subrange(0, 1);
    assert(first.drop_last() =~= Seq::<TreeInstruction>::empty());
    assert(first.last() == ixs[0]);
    assert(instructions_signers(first.drop_last()) == Set::<Seq<u8>>::empty());
    assert(instructions_signers(first) =~= instruction_signers(ixs[0]));
    if ixs.len() == 1 {
        assert(ixs =~= first);
    } else {
        assert(ixs.drop_last() =~= first);
        assert(ixs.last() == ixs[1]);
    }
}

/// The first failed check of a tree creation: both key pairs, then the
/// configuration.
pub open spec fn create_tree_error(max_depth: u32, max_buffer_size: u32, payer: Seq<u8>, tree: Seq<u8>) -> Option<BubblegumError> {
    if !keypair_accepted(payer) || !keypair_accepted(tree) {
        Some(BubblegumError::InvalidKeyPair)
    } else if !is_supported(max_depth, max_buffer_size) {
        Some(BubblegumError::InvalidConfiguration { max_depth, max_buffer_size })
    } else {
        None
    }
}

/// The plan of a tree creation: allocate the tree account with the size the
/// configuration needs and the given rent, then initialise its configuration;
/// the payer pays, and payer and tree sign.
pub open spec fn create_tree_planned(
    p: TransactionPlan,
    max_depth: u32,
    max_buffer_size: u32,
    payer: Seq<u8>,
    tree: Seq<u8>,
    rent_lamports: u64,
) -> bool {
    &&& p.view_instructions().len() == 2
    &&& p.view_instructions()[0] matches TreeInstruction::CreateTreeAccount { payer: a_payer, new_account, lamports, space, owner }
    &&& owner.bytes@ == compression_program_bytes()
    &&& a_payer.bytes@ == public_half(payer)
    &&& new_account.bytes@ == public_half(tree)
    &&& lamports == rent_lamports
    &&& space == account_size(max_depth as int, max_buffer_size as int)
    &&& p.view_instructions()[1] matches TreeInstruction::CreateTreeConfig {
        tree_config,
        merkle_tree,
        payer: c_payer,
        tree_creator,
        max_depth: d,
        max_buffer_size: b,
    }
    &&& tree_config.bytes@ == tree_config_of(public_half(tree))
    &&& merkle_tree.bytes@ == public_half(tree)
    &&& c_payer.bytes@ == public_half(payer)
    &&& tree_creator.bytes@ == public_half(payer)
    &&& d == max_depth
    &&& b == max_buffer_size
    &&& p.view_fee_payer().bytes@ == public_half(payer)
    &&& p.view_signers().len() == 2
    &&& p.view_signers()[0].key_bytes() == payer
    &&& p.view_signers()[1].key_bytes() == tree
}

/// Two tree creations whose tree key pairs have the same public key name the
/// same tree-configuration address, the one derived from that key, whatever
/// their other inputs.
pub proof fn lemma_create_tree_config_deterministic(
    p1: TransactionPlan,
    d1: u32,
    b1: u32,
    payer1: Seq<u8>,
    tree1: Seq<u8>,
    rent1: u64,
    p2: TransactionPlan,
    d2: u32,
    b2: u32,
    payer2: Seq<u8>,
    tree2: Seq<u8>,
    rent2: u64,
)
    requires
        create_tree_planned(p1, d1, b1, payer1, tree1, rent1),
        create_tree_planned(p2, d2, b2, payer2, tree2, rent2),
        public_half(tree1) == public_half(tree2),
    ensures
        p1.view_instructions()[1] matches TreeInstruction::CreateTreeConfig { tree_config: c1, .. }
            && p2.view_instructions()[1] matches TreeInstruction::CreateTreeConfig { tree_config: c2, .. }
            && c1.bytes@ == c2.bytes@ && c1.bytes@ == tree_config_of(public_half(tree1)),
{
}

/// Assembles the creation of a tree account and its configuration, given the
/// rent-exempt balance for the account's size.
pub fn create_tree_plan(
    max_depth: u32,
    max_buffer_size: u32,
    payer_keypair: &[u8],
    tree_keypair: &[u8],
    rent_lamports: u64,
) -> (r: Result<TransactionPlan, BubblegumError>)
    ensures
        r is Err <==> create_tree_error(max_depth, max_buffer_size, payer_keypair@, tree_keypair@) is Some,
        r matches Err(e) ==> create_tree_error(max_depth, max_buffer_size, payer_keypair@, tree_keypair@) == Some(e),
        r matches Ok(p) ==> create_tree_planned(p, max_depth, max_buffer_size, payer_keypair@, tree_keypair@, rent_lamports),
        r matches Ok(p) ==> signers_exact(p),
{
    let payer = match KeyPair::from_bytes(payer_keypair) {
        Ok(k) => k,
        Err(e) => return Err(e),
    };
    let tree = match KeyPair::from_bytes(tree_keypair) {
        Ok(k) => k,
        Err(e) => return Err(e),
    };
    let space = match required_account_size(max_depth, max_buffer_size) {
        Ok(n) => n,
        Err(e) => return Err(e),
    };
    let payer_address = payer.address();
    let tree_address = tree.address();
    let (tree_config, _bump) = derive_tree_config(&tree_address);
    let mut instructions: Vec<TreeInstruction> = Vec::new();
    instructions.push(
        TreeInstruction::CreateTreeAccount {
            payer: payer_address,
            new_account: tree_address,
            lamports: rent_lamports,
            space,
            owner: account_compression_program(),
        },
    );
    instructions.push(
        TreeInstruction::CreateTreeConfig {
            tree_config,
            merkle_tree: tree_address,
            payer: payer_address,
            tree_creator: payer_address,
            max_depth,
            max_buffer_size,
        },
    );
    let mut signers: Vec<KeyPair> = Vec::new();
    signers.push(payer);
    signers.push(tree);
    let plan = TransactionPlan { instructions, fee_payer: payer_address, signers };
    proof {
        lemma_signer_addresses(plan);
        lemma_instructions_signers(plan.view_instructions());
        assert(plan_signer_addresses(plan) =~= set![plan.view_fee_payer().bytes@].union(
            instructions_signers(plan.view_instructions()),
        ));
    }
    Ok(plan)
}

fn parse_opt_address(s: Option<&str>) -> (r: Result<Option<Address>, BubblegumError>)
    ensures
        r is Ok <==> opt_address_ok(s),
        r matches Ok(a) ==> opt_address_parsed(a, s),
        r matches Err(e) ==> e == BubblegumError::InvalidAddress,
{
    match s {
        Some(t) => match Address::from_text(t) {
            Ok(a) => Ok(Some(a)),
            Err(e) => Err(e),
        },
        None => Ok(None),
    }
}

fn parse_opt_digest(s: Option<&str>) -> (r: Result<Option<[u8; 32]>, BubblegumError>)
    ensures
        r is Ok <==> opt_digest_ok(s),
        r matches Ok(d) ==> opt_digest_parsed(d, s),
        r matches Err(e) ==> e == BubblegumError::InvalidAddress,
{
    match s {
        Some(t) => match parse_digest(t) {
            Ok(d) => Ok(Some(d)),
            Err(e) => Err(e),
        },
        None => Ok(None),
    }
}

/// The first failed check of a mint: the tree and payer key pairs, the leaf
/// owner's address, then the metadata.
pub open spec fn mint_error(tree: Seq<u8>, leaf_owner: Seq<char>, payer: Seq<u8>, metadata: MetadataArgsNif) -> Option<BubblegumError> {
    if !keypair_accepted(tree) || !keypair_accepted(payer) {
        Some(BubblegumError::InvalidKeyPair)
    } else if pubkey_from_text(leaf_owner) is None {
        Some(BubblegumError::InvalidAddress)
    } else if !metadata_accepted(metadata) {
        metadata_error(metadata)
    } else {
        None
    }
}

/// The plan of a mint: one instruction naming the tree's configuration, the
/// leaf owner (who is also the delegate), the tree, and the payer (who is also
/// the tree creator); the payer pays and is the only signer.
pub open spec fn mint_planned(
    p: TransactionPlan,
    tree: Seq<u8>,
    leaf_owner: Seq<char>,
    payer: Seq<u8>,
    metadata: MetadataArgsNif,
) -> bool {
    &&& p.view_instructions().len() == 1
    &&& p.view_instructions()[0] matches TreeInstruction::MintV1 {
        tree_config,
        leaf_owner: owner,
        leaf_delegate,
        merkle_tree,
        payer: m_payer,
        tree_creator_or_delegate,
        metadata: m,
    }
    &&& tree_config.bytes@ == tree_config_of(public_half(tree))
    &&& pubkey_from_text(leaf_owner) == Some(owner.bytes@)
    &&& leaf_delegate.bytes@ == owner.bytes@
    &&& merkle_tree.bytes@ == public_half(tree)
    &&& m_payer.bytes@ == public_half(payer)
    &&& tree_creator_or_delegate.bytes@ == public_half(payer)
    &&& metadata_converted(m, metadata)
    &&& p.view_fee_payer().bytes@ == public_half(payer)
    &&& p.view_signers().len() == 1
    &&& p.view_signers()[0].key_bytes() == payer
}

/// Assembles the mint of a leaf into the tree whose key pair is given.
pub fn mint_plan(
    tree_keypair: &[u8],
    leaf_owner: &str,
    payer_keypair: &[u8],
    metadata_args: &MetadataArgsNif,
) -> (r: Result<TransactionPlan, BubblegumError>)
    ensures
        r is Err <==> mint_error(tree_keypair@, leaf_owner@, payer_keypair@, *metadata_args) is Some,
        r matches Err(e) ==> mint_error(tree_keypair@, leaf_owner@, payer_keypair@, *metadata_args) == Some(e),
        r matches Ok(p) ==> mint_planned(p, tree_keypair@, leaf_owner@, payer_keypair@, *metadata_args),
        r matches Ok(p) ==> signers_exact(p),
{
    let tree = match KeyPair::from_bytes(tree_keypair) {
        Ok(k) => k,
        Err(e) => return Err(e),
    };
    let payer = match KeyPair::from_bytes(payer_keypair) {
        Ok(k) => k,
        Err(e) => return Err(e),
    };
    let owner = match Address::from_text(leaf_owner) {
        Ok(a) => a,
        Err(e) => return Err(e),
    };
    let metadata = match convert_metadata_args(metadata_args) {
        Ok(m) => m,
        Err(e) => return Err(e),
    };
    let tree_address = tree.address();
    let payer_address = payer.address();
    let (tree_config, _bump) = derive_tree_config(&tree_address);
    let mut instructions: Vec<TreeInstruction> = Vec::new();
    instructions.push(
        TreeInstruction::MintV1 {
            tree_config,
            leaf_owner: owner,
            leaf_delegate: owner,
            merkle_tree: tree_address,
            payer: payer_address,
            tree_creator_or_delegate: payer_address,
            metadata,
        },
    );
    let mut signers: Vec<KeyPair> = Vec::new();
    signers.push(payer);
    let plan = TransactionPlan { instructions, fee_payer: payer_address, signers };
    proof {
        lemma_signer_addresses(plan);
        lemma_instructions_signers(plan.view_instructions());
        assert(plan_signer_addresses(plan) =~= set![plan.view_fee_payer().bytes@].union(
            instructions_signers(plan.view_instructions()),
        ));
    }
    Ok(plan)
}

/// The first failed check of a mint into a collection: the tree, payer and
/// collection-authority key pairs; the leaf owner, collection mint, and the
/// optional authority record, collection metadata and edition addresses; then
/// the metadata.
pub open spec fn mint_to_collection_error(
    tree: Seq<u8>,
    leaf_owner: Seq<char>,
    payer: Seq<u8>,
    metadata: MetadataArgsNif,
    collection_mint: Seq<char>,
    collection_authority: Seq<u8>,
    record: Option<&str>,
    collection_metadata: Option<&str>,
    collection_edition: Option<&str>,
) -> Option<BubblegumError> {
    if !keypair_accepted(tree) || !keypair_accepted(payer) || !keypair_accepted(collection_authority) {
        Some(BubblegumError::InvalidKeyPair)
    } else if pubkey_from_text(leaf_owner) is None || pubkey_from_text(collection_mint) is None
        || !opt_address_ok(record) || !opt_address_ok(collection_metadata) || !opt_address_ok(collection_edition) {
        Some(BubblegumError::InvalidAddress)
    } else if !metadata_accepted(metadata) {
        metadata_error(metadata)
    } else {
        None
    }
}

/// The plan of a mint into a collection: one instruction as for a plain mint,
/// also naming the collection authority, mint and the optional addresses; the
/// payer pays and signs, and the collection authority signs too when its
/// address differs from the payer's.
pub open spec fn mint_to_collection_planned(
    p: TransactionPlan,
    tree: Seq<u8>,
    leaf_owner: Seq<char>,
    payer: Seq<u8>,
    metadata: MetadataArgsNif,
    collection_mint: Seq<char>,
    collection_authority: Seq<u8>,
    record: Option<&str>,
    collection_metadata: Option<&str>,
    collection_edition: Option<&str>,
) -> bool {
    &&& p.view_instructions().len() == 1
    &&& p.view_instructions()[0] matches TreeInstruction::MintToCollectionV1 {
        tree_config,
        leaf_owner: owner,
        leaf_delegate,
        merkle_tree,
        payer: m_payer,
        tree_creator_or_delegate,
        collection_authority: authority,
        collection_authority_record_pda: record_pda,
        collection_mint: mint,
        collection_metadata: c_metadata,
        collection_edition: c_edition,
        metadata: m,
    }
    &&& tree_config.bytes@ == tree_config_of(public_half(tree))
    &&& pubkey_from_text(leaf_owner) == Some(owner.bytes@)
    &&& leaf_delegate.bytes@ == owner.bytes@
    &&& merkle_tree.bytes@ == public_half(tree)
    &&& m_payer.bytes@ == public_half(payer)
    &&& tree_creator_or_delegate.bytes@ == public_half(payer)
    &&& authority.bytes@ == public_half(collection_authority)
    &&& opt_address_parsed(record_pda, record)
    &&& pubkey_from_text(collection_mint) == Some(mint.bytes@)
    &&& opt_address_parsed(c_metadata, collection_metadata)
    &&& opt_address_parsed(c_edition, collection_edition)
    &&& metadata_converted(m, metadata)
    &&& p.view_fee_payer().bytes@ == public_half(payer)
    &&& p.view_signers()[0].key_bytes() == payer
    &&& if public_half(collection_authority) == public_half(payer) {
        p.view_signers().len() == 1
    } else {
        p.view_signers().len() == 2 && p.view_signers()[1].key_bytes() == collection_authority
    }
}

/// Assembles the mint of a leaf into a collection.
pub fn mint_to_collection_plan(
    tree_keypair: &[u8],
    leaf_owner: &str,
    payer_keypair: &[u8],
    metadata_args: &MetadataArgsNif,
    collection_mint: &str,
    collection_authority_keypair: &[u8],
    collection_authority_record_pda: Option<&str>,
    collection_metadata: Option<&str>,
    collection_edition: Option<&str>,
) -> (r: Result<TransactionPlan, BubblegumError>)
    ensures
        r is Err <==> mint_to_collection_error(tree_keypair@, leaf_owner@, payer_keypair@, *metadata_args,
            collection_mint@, collection_authority_keypair@, collection_authority_record_pda,
            collection_metadata, collection_edition) is Some,
        r matches Err(e) ==> mint_to_collection_error(tree_keypair@, leaf_owner@, payer_keypair@, *metadata_args,
            collection_mint@, collection_authority_keypair@, collection_authority_record_pda,
            collection_metadata, collection_edition) == Some(e),
        r matches Ok(p) ==> mint_to_collection_planned(p, tree_keypair@, leaf_owner@, payer_keypair@, *metadata_args,
            collection_mint@, collection_authority_keypair@, collection_authority_record_pda,
            collection_metadata, collection_edition),
        r matches Ok(p) ==> signers_exact(p),
{
    let tree = match KeyPair::from_bytes(tree_keypair) {
        Ok(k) => k,
        Err(e) => return Err(e),
    };
    let payer = match KeyPair::from_bytes(payer_keypair) {
        Ok(k) => k,
        Err(e) => return Err(e),
    };
    let authority = match KeyPair::from_bytes(collection_authority_keypair) {
        Ok(k) => k,
        Err(e) => return Err(e),
    };
    let owner = match Address::from_text(leaf_owner) {
        Ok(a) => a,
        Err(e) => return Err(e),
    };
    let mint = match Address::from_text(collection_mint) {
        Ok(a) => a,
        Err(e) => return Err(e),
    };
    let record = match parse_opt_address(collection_authority_record_pda) {
        Ok(a) => a,
        Err(e) => return Err(e),
    };
    let c_metadata = match parse_opt_address(collection_metadata) {
        Ok(a) => a,
        Err(e) => return Err(e),
    };
    let c_edition = match parse_opt_address(collection_edition) {
        Ok(a) => a,
        Err(e) => return Err(e),
    };
    let metadata = match convert_metadata_args(metadata_args) {
        Ok(m) => m,
        Err(e) => return Err(e),
    };
    let tree_address = tree.address();
    let payer_address = payer.address();
    let authority_address = authority.address();
    let (tree_config, _bump) = derive_tree_config(&tree_address);
    let mut instructions: Vec<TreeInstruction> = Vec::new();
    instructions.push(
        TreeInstruction::MintToCollectionV1 {
            tree_config,
            leaf_owner: owner,
            leaf_delegate: owner,
            merkle_tree: tree_address,
            payer: payer_address,
            tree_creator_or_delegate: payer_address,
            collection_authority: authority_address,
            collection_authority_record_pda: record,
            collection_mint: mint,
            collection_metadata: c_metadata,
            collection_edition: c_edition,
            metadata,
        },
    );
    let mut signers: Vec<KeyPair> = Vec::new();
    signers.push(payer);
    if !authority_address.same_as(&payer_address) {
        signers.push(authority);
    }
    let plan = TransactionPlan { instructions, fee_payer: payer_address, signers };
    proof {
        lemma_signer_addresses(plan);
        lemma_instructions_signers(plan.view_instructions());
        assert(plan_signer_addresses(plan) =~= set![plan.view_fee_payer().bytes@].union(
            instructions_signers(plan.view_instructions()),
        ));
    }
    Ok(plan)
}

/// The first failed check of a transfer: the tree and owner key pairs, the new
/// owner's address, the three optional digests, then the asset id.
pub open spec fn transfer_error(
    tree: Seq<u8>,
    leaf_owner: Seq<u8>,
    new_leaf_owner: Seq<char>,
    asset_id: Seq<char>,
    root: Option<&str>,
    data_hash: Option<&str>,
    creator_hash: Option<&str>,
) -> Option<BubblegumError> {
    if !keypair_accepted(tree) || !keypair_accepted(leaf_owner) {
        Some(BubblegumError::InvalidKeyPair)
    } else if pubkey_from_text(new_leaf_owner) is None || !opt_digest_ok(root) || !opt_digest_ok(data_hash)
        || !opt_digest_ok(creator_hash) || pubkey_from_text(asset_id) is None {
        Some(BubblegumError::InvalidAddress)
    } else {
        None
    }
}

/// The plan of a transfer: one instruction naming the tree's configuration,
/// the current owner (who is also the delegate, both signing), the new owner
/// and the tree,
/// carrying exactly the optional fields that were given; the current owner
/// pays and is the only signer.
pub open spec fn transfer_planned(
    p: TransactionPlan,
    tree: Seq<u8>,
    leaf_owner: Seq<u8>,
    new_leaf_owner: Seq<char>,
    root: Option<&str>,
    data_hash: Option<&str>,
    creator_hash: Option<&str>,
    nonce: Option<u64>,
    index: Option<u32>,
) -> bool {
    &&& p.view_instructions().len() == 1
    &&& p.view_instructions()[0] matches TreeInstruction::Transfer {
        tree_config,
        leaf_owner: owner,
        leaf_delegate,
        new_leaf_owner: new_owner,
        merkle_tree,
        leaf_owner_signs,
        leaf_delegate_signs,
        fields,
    }
    &&& leaf_owner_signs
    &&& leaf_delegate_signs
    &&& tree_config.bytes@ == tree_config_of(public_half(tree))
    &&& owner.bytes@ == public_half(leaf_owner)
    &&& leaf_delegate.bytes@ == public_half(leaf_owner)
    &&& pubkey_from_text(new_leaf_owner) == Some(new_owner.bytes@)
    &&& merkle_tree.bytes@ == public_half(tree)
    &&& opt_digest_parsed(fields.root, root)
    &&& opt_digest_parsed(fields.data_hash, data_hash)
    &&& opt_digest_parsed(fields.creator_hash, creator_hash)
    &&& fields.nonce == nonce
    &&& fields.index == index
    &&& p.view_fee_payer().bytes@ == public_half(leaf_owner)
    &&& p.view_signers().len() == 1
    &&& p.view_signers()[0].key_bytes() == leaf_owner
}

/// Assembles the transfer of a leaf to a new owner.
pub fn transfer_plan(
    tree_keypair: &[u8],
    leaf_owner_keypair: &[u8],
    new_leaf_owner: &str,
    asset_id: &str,
    root: Option<&str>,
    data_hash: Option<&str>,
    creator_hash: Option<&str>,
    nonce: Option<u64>,
    index: Option<u32>,
) -> (r: Result<TransactionPlan, BubblegumError>)
    ensures
        r is Err <==> transfer_error(tree_keypair@, leaf_owner_keypair@, new_leaf_owner@, asset_id@, root, data_hash,
            creator_hash) is Some,
        r matches Err(e) ==> transfer_error(tree_keypair@, leaf_owner_keypair@, new_leaf_owner@, asset_id@, root,
            data_hash, creator_hash) == Some(e),
        r matches Ok(p) ==> transfer_planned(p, tree_keypair@, leaf_owner_keypair@, new_leaf_owner@, root, data_hash,
            creator_hash, nonce, index),
        r matches Ok(p) ==> signers_exact(p),
{
    let tree = match KeyPair::from_bytes(tree_keypair) {
        Ok(k) => k,
        Err(e) => return Err(e),
    };
    let owner = match KeyPair::from_bytes(leaf_owner_keypair) {
        Ok(k) => k,
        Err(e) => return Err(e),
    };
    let new_owner = match Address::from_text(new_leaf_owner) {
        Ok(a) => a,
        Err(e) => return Err(e),
    };
    let root = match parse_opt_digest(root) {
        Ok(d) => d,
        Err(e) => return Err(e),
    };
    let data_hash = match parse_opt_digest(data_hash) {
        Ok(d) => d,
        Err(e) => return Err(e),
    };
    let creator_hash = match parse_opt_digest(creator_hash) {
        Ok(d) => d,
        Err(e) => return Err(e),
    };
    match Address::from_text(asset_id) {
        Ok(_) => {},
        Err(e) => return Err(e),
    }
    let tree_address = tree.address();
    let owner_address = owner.address();
    let (tree_config, _bump) = derive_tree_config(&tree_address);
    let fields = TransferFields { root, data_hash, creator_hash, nonce, index };
    let mut instructions: Vec<TreeInstruction> = Vec::new();
    instructions.push(
        TreeInstruction::Transfer {
            tree_config,
            leaf_owner: owner_address,
            leaf_delegate: owner_address,
            new_leaf_owner: new_owner,
            merkle_tree: tree_address,
            leaf_owner_signs: true,
            leaf_delegate_signs: true,
            fields,
        },
    );
    let mut signers: Vec<KeyPair> = Vec::new();
    signers.push(owner);
    let plan = TransactionPlan { instructions, fee_payer: owner_address, signers };
    proof {
        lemma_signer_addresses(plan);
        lemma_instructions_signers(plan.view_instructions());
        assert(plan_signer_addresses(plan) =~= set![plan.view_fee_payer().bytes@].union(
            instructions_signers(plan.view_instructions()),
        ));
    }
    Ok(plan)
}

} // verus!
