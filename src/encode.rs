//! Encoding a transaction plan into ledger instructions, signing it with its
//! signers against a recent blockhash, and serialising it for relay.
use vstd::prelude::*;

use crate::address::{partial_sign, Address};
use crate::error::BubblegumError;
use crate::metadata::{LeafCollection, LeafCreator, LeafMetadata, TokenProgram, TokenStandardNif, UseMethodNif, UsesNif};
use crate::plan::{
    instruction_signers, instructions_signers, plan_signer_addresses, public_half, signers_exact, TransactionPlan,
    TreeInstruction,
};
use mpl_bubblegum::instructions::{
    CreateTreeConfigBuilder, MintToCollectionV1Builder, MintV1Builder, TransferBuilder,
};
use solana_program::instruction::Instruction;
use solana_program::pubkey::Pubkey;
use solana_sdk::transaction::Transaction;
use mpl_bubblegum::types as bg;

verus! {

// The ledger's instruction, key, transaction and metadata types, carried
// through verified code as opaque values.
#[verifier::external_type_specification]
#[verifier::external_body]
pub struct ExInstruction(solana_program::instruction::Instruction);

#[verifier::external_type_specification]
#[verifier::external_body]
pub struct ExTransaction(solana_sdk::transaction::Transaction);

#[verifier::external_type_specification]
#[verifier::external_body]
pub struct ExBgMetadataArgs(mpl_bubblegum::types::MetadataArgs);

#[verifier::external_type_specification]
#[verifier::external_body]
pub struct ExBgCreator(mpl_bubblegum::types::Creator);

#[verifier::external_type_specification]
#[verifier::external_body]
pub struct ExBgCollection(mpl_bubblegum::types::Collection);

#[verifier::external_type_specification]
#[verifier::external_body]
pub struct ExBgTokenStandard(mpl_bubblegum::types::TokenStandard);

#[verifier::external_type_specification]
#[verifier::external_body]
pub struct ExBgUses(mpl_bubblegum::types::Uses);

#[verifier::external_type_specification]
#[verifier::external_body]
pub struct ExBgTokenProgramVersion(mpl_bubblegum::types::TokenProgramVersion);

/// An encoded ledger instruction, with each account it names as a key and a
/// signer flag, in order.
pub struct EncodedInstruction {
    ix: Instruction,
    accounts: Vec<([u8; 32], bool)>,
}

/// The keys that accounts flagged as signers name.
pub open spec fn flagged_signers(accounts: Seq<([u8; 32], bool)>) -> Set<Seq<u8>> {
    Set::new(|k: Seq<u8>| exists|i: int| 0 <= i < accounts.len() && (#[trigger] accounts[i]).1 && accounts[i].0@ == k)
}

impl EncodedInstruction {
    /// The accounts the instruction names, with their signer flags.
    pub closed spec fn view_accounts(&self) -> Seq<([u8; 32], bool)> {
        self.accounts@
    }

    /// The ledger instruction.
    pub fn instruction(&self) -> &Instruction {
        &self.ix
    }
}

/// Relies on `system_instruction::create_account` of solana-program: the
/// system-program instruction that allocates `space` bytes at `new_account`,
/// funded by `payer`, owned by `owner`; payer and new account sign.
#[verifier::external_body]
fn create_account_instruction(payer: &Address, new_account: &Address, lamports: u64, space: u64, owner: &Address) -> (r: EncodedInstruction)
    ensures
        r.view_accounts().len() == 2,
        flagged_signers(r.view_accounts()) == set![payer.bytes@, new_account.bytes@],
{
    let k = |a: &Address| Pubkey::new_from_array(a.bytes);
    let ix = solana_program::system_instruction::create_account(&k(payer), &k(new_account), lamports, space, &k(owner));
    let accounts = ix.accounts.iter().map(|m| (m.pubkey.to_bytes(), m.is_signer)).collect();
    EncodedInstruction { ix, accounts }
}

/// Relies on `CreateTreeConfigBuilder` of mpl-bubblegum, with every account and
/// argument it requires set: seven accounts, of which payer and tree creator
/// sign.
#[verifier::external_body]
fn create_tree_config_instruction(accounts: &[Address; 4], max_depth: u32, max_buffer_size: u32) -> (r: EncodedInstruction)
    ensures
        r.view_accounts().len() == 7,
        flagged_signers(r.view_accounts()) == set![accounts[2].bytes@, accounts[3].bytes@],
{
    let k = |i: usize| Pubkey::new_from_array(accounts[i].bytes);
    let ix = CreateTreeConfigBuilder::new().tree_config(k(0)).merkle_tree(k(1)).payer(k(2)).tree_creator(k(3))
        .max_depth(max_depth).max_buffer_size(max_buffer_size).instruction();
    let metas = ix.accounts.iter().map(|m| (m.pubkey.to_bytes(), m.is_signer)).collect();
    EncodedInstruction { ix, accounts: metas }
}

/// Relies on `MintV1Builder` of mpl-bubblegum, with every account and argument
/// it requires set: nine accounts, of which payer and tree creator (or
/// delegate) sign. The accounts are, in order: tree configuration, leaf
/// owner, leaf delegate, tree, payer and tree creator.
#[verifier::external_body]
fn mint_v1_instruction(accounts: &[Address; 6], metadata: bg::MetadataArgs) -> (r: EncodedInstruction)
    ensures
        r.view_accounts().len() == 9,
        flagged_signers(r.view_accounts()) == set![accounts[4].bytes@, accounts[5].bytes@],
{
    let k = |i: usize| Pubkey::new_from_array(accounts[i].bytes);
    let ix = MintV1Builder::new().tree_config(k(0)).leaf_owner(k(1)).leaf_delegate(k(2)).merkle_tree(k(3)).payer(k(4))
        .tree_creator_or_delegate(k(5)).metadata(metadata).instruction();
    let metas = ix.accounts.iter().map(|m| (m.pubkey.to_bytes(), m.is_signer)).collect();
    EncodedInstruction { ix, accounts: metas }
}

/// Relies on `MintToCollectionV1Builder` of mpl-bubblegum, with every account
/// and argument it requires set (the authority record stays optional):
/// sixteen accounts, of which payer, tree creator and collection authority
/// sign. The accounts are, in order: tree configuration, leaf owner, leaf
/// delegate, tree, payer, tree creator, collection authority, collection
/// mint, collection metadata and collection edition.
#[verifier::external_body]
fn mint_to_collection_instruction(accounts: &[Address; 10], record: Option<Address>, metadata: bg::MetadataArgs) -> (r: EncodedInstruction)
    ensures
        r.view_accounts().len() == 16,
        flagged_signers(r.view_accounts()) == set![accounts[4].bytes@, accounts[5].bytes@, accounts[6].bytes@],
{
    let k = |i: usize| Pubkey::new_from_array(accounts[i].bytes);
    let ix = MintToCollectionV1Builder::new().tree_config(k(0)).leaf_owner(k(1)).leaf_delegate(k(2)).merkle_tree(k(3))
        .payer(k(4)).tree_creator_or_delegate(k(5)).collection_authority(k(6)).collection_authority_record_pda(
        record.map(|a| Pubkey::new_from_array(a.bytes)),
    ).collection_mint(k(7)).collection_metadata(k(8)).collection_edition(k(9)).metadata(metadata).instruction();
    let metas = ix.accounts.iter().map(|m| (m.pubkey.to_bytes(), m.is_signer)).collect();
    EncodedInstruction { ix, accounts: metas }
}

/// Converts a creator to mpl-bubblegum's `Creator`, field by field.
#[verifier::external_body]
fn bubblegum_creator(c: &LeafCreator) -> bg::Creator {
    bg::Creator { address: Pubkey::new_from_array(c.address.bytes), verified: c.verified, share: c.share }
}

/// Converts a collection reference to mpl-bubblegum's `Collection`.
#[verifier::external_body]
fn bubblegum_collection(c: &LeafCollection) -> bg::Collection {
    bg::Collection { verified: c.verified, key: Pubkey::new_from_array(c.key.bytes) }
}

/// Converts a token standard to mpl-bubblegum's, variant by variant.
#[verifier::external_body]
fn bubblegum_token_standard(t: TokenStandardNif) -> bg::TokenStandard {
    match t {
        TokenStandardNif::NonFungible => bg::TokenStandard::NonFungible,
        TokenStandardNif::FungibleAsset => bg::TokenStandard::FungibleAsset,
        TokenStandardNif::Fungible => bg::TokenStandard::Fungible,
        TokenStandardNif::NonFungibleEdition => bg::TokenStandard::NonFungibleEdition,
    }
}

/// Converts a usage limit to mpl-bubblegum's `Uses`, variant by variant.
#[verifier::external_body]
fn bubblegum_uses(u: &UsesNif) -> bg::Uses {
    let use_method = match u.use_method {
        UseMethodNif::Burn => bg::UseMethod::Burn,
        UseMethodNif::Multiple => bg::UseMethod::Multiple,
        UseMethodNif::Single => bg::UseMethod::Single,
    };
    bg::Uses { use_method, remaining: u.remaining, total: u.total }
}

/// Converts a token program to mpl-bubblegum's `TokenProgramVersion`,
/// variant by variant.
#[verifier::external_body]
fn bubblegum_token_program(t: TokenProgram) -> bg::TokenProgramVersion {
    match t {
        TokenProgram::Original => bg::TokenProgramVersion::Original,
        TokenProgram::Token2022 => bg::TokenProgramVersion::Token2022,
    }
}

/// Assembles mpl-bubblegum's `MetadataArgs` from converted parts.
#[verifier::external_body]
fn bubblegum_metadata(
    m: &LeafMetadata,
    token_program_version: bg::TokenProgramVersion,
    token_standard: Option<bg::TokenStandard>,
    collection: Option<bg::Collection>,
    uses: Option<bg::Uses>,
    creators: Vec<bg::Creator>,
) -> bg::MetadataArgs {
    bg::MetadataArgs {
        name: m.name.clone(),
        symbol: m.symbol.clone(),
        uri: m.uri.clone(),
        seller_fee_basis_points: m.seller_fee_basis_points,
        primary_sale_happened: m.primary_sale_happened,
        is_mutable: m.is_mutable,
        edition_nonce: m.edition_nonce,
        token_standard,
        collection,
        uses,
        token_program_version,
        creators,
    }
}

fn to_bubblegum_metadata(m: &LeafMetadata) -> bg::MetadataArgs {
    let mut creators: Vec<bg::Creator> = Vec::new();
    let mut i: usize = 0;
    while i < m.creators.len()
        invariant
            0 <= i <= m.creators@.len(),
        decreases m.creators@.len() - i,
    {
        creators.push(bubblegum_creator(&m.creators[i]));
        i = i + 1;
    }
    let token_standard = match m.token_standard {
        Some(t) => Some(bubblegum_token_standard(t)),
        None => None,
    };
    let collection = match &m.collection {
        Some(c) => Some(bubblegum_collection(c)),
        None => None,
    };
    let uses = match &m.uses {
        Some(u) => Some(bubblegum_uses(u)),
        None => None,
    };
    bubblegum_metadata(m, bubblegum_token_program(m.token_program_version), token_standard, collection, uses, creators)
}

/// Relies on `TransferBuilder` of mpl-bubblegum, with every account and
/// argument it requires set: eight accounts, of which the owner and the
/// delegate sign as their flags say. The accounts are, in order: tree
/// configuration, leaf owner, leaf delegate, new leaf owner and tree.
#[verifier::external_body]
fn transfer_instruction(
    accounts: &[Address; 5],
    signs: [bool; 2],
    root: [u8; 32],
    data_hash: [u8; 32],
    creator_hash: [u8; 32],
    nonce: u64,
    index: u32,
) -> (r: EncodedInstruction)
    ensures
        r.view_accounts().len() == 8,
        flagged_signers(r.view_accounts()) == (if signs[0] { set![accounts[1].bytes@] } else { Set::empty() }).union(
            if signs[1] { set![accounts[2].bytes@] } else { Set::empty() },
        ),
{
    let k = |i: usize| Pubkey::new_from_array(accounts[i].bytes);
    let ix = TransferBuilder::new().tree_config(k(0)).leaf_owner(k(1), signs[0]).leaf_delegate(k(2), signs[1])
        .new_leaf_owner(k(3)).merkle_tree(k(4)).root(root).data_hash(data_hash).creator_hash(creator_hash)
        .nonce(nonce).index(index).instruction();
    let metas = ix.accounts.iter().map(|m| (m.pubkey.to_bytes(), m.is_signer)).collect();
    EncodedInstruction { ix, accounts: metas }
}

/// An instruction carries everything its encoder requires: a transfer all
/// five optional fields, a mint into a collection the collection's metadata
/// and edition addresses.
pub open spec fn instruction_complete(ix: TreeInstruction) -> bool {
    match ix {
        TreeInstruction::Transfer { fields, .. } => {
            &&& fields.root is Some
            &&& fields.data_hash is Some
            &&& fields.creator_hash is Some
            &&& fields.nonce is Some
            &&& fields.index is Some
        },
        TreeInstruction::MintToCollectionV1 { collection_metadata, collection_edition, .. } => {
            collection_metadata is Some && collection_edition is Some
        },
        _ => true,
    }
}

/// Encodes one planned instruction for the ledger; an incomplete one is an
/// `InstructionBuildError`. The encoded instruction flags exactly the
/// planned signers.
pub fn encode_instruction(ix: &TreeInstruction) -> (r: Result<EncodedInstruction, BubblegumError>)
    ensures
        r is Ok <==> instruction_complete(*ix),
        r matches Ok(e) ==> flagged_signers(e.view_accounts()) == instruction_signers(*ix) && e.view_accounts().len()
            <= 16,
        r matches Err(e) ==> e == BubblegumError::InstructionBuildError,
{
    match ix {
        TreeInstruction::CreateTreeAccount { payer, new_account, lamports, space, owner } => {
            Ok(create_account_instruction(payer, new_account, *lamports, *space, owner))
        },
        TreeInstruction::CreateTreeConfig { tree_config, merkle_tree, payer, tree_creator, max_depth, max_buffer_size } => {
            let accounts = [*tree_config, *merkle_tree, *payer, *tree_creator];
            Ok(create_tree_config_instruction(&accounts, *max_depth, *max_buffer_size))
        },
        TreeInstruction::MintV1 {
            tree_config,
            leaf_owner,
            leaf_delegate,
            merkle_tree,
            payer,
            tree_creator_or_delegate,
            metadata,
        } => {
            let accounts = [*tree_config, *leaf_owner, *leaf_delegate, *merkle_tree, *payer, *tree_creator_or_delegate];
            Ok(mint_v1_instruction(&accounts, to_bubblegum_metadata(metadata)))
        },
        TreeInstruction::MintToCollectionV1 {
            tree_config,
            leaf_owner,
            leaf_delegate,
            merkle_tree,
            payer,
            tree_creator_or_delegate,
            collection_authority,
            collection_authority_record_pda,
            collection_mint,
            collection_metadata,
            collection_edition,
            metadata,
        } => {
            let (c_metadata, c_edition) = match (collection_metadata, collection_edition) {
                (Some(m), Some(e)) => (*m, *e),
                _ => return Err(BubblegumError::InstructionBuildError),
            };
            let accounts = [
                *tree_config,
                *leaf_owner,
                *leaf_delegate,
                *merkle_tree,
                *payer,
                *tree_creator_or_delegate,
                *collection_authority,
                *collection_mint,
                c_metadata,
                c_edition,
            ];
            Ok(mint_to_collection_instruction(&accounts, *collection_authority_record_pda, to_bubblegum_metadata(metadata)))
        },
        TreeInstruction::Transfer {
            tree_config,
            leaf_owner,
            leaf_delegate,
            new_leaf_owner,
            merkle_tree,
            leaf_owner_signs,
            leaf_delegate_signs,
            fields,
        } => {
            match (fields.root, fields.data_hash, fields.creator_hash, fields.nonce, fields.index) {
                (Some(root), Some(data_hash), Some(creator_hash), Some(nonce), Some(index)) => {
                    let accounts = [*tree_config, *leaf_owner, *leaf_delegate, *new_leaf_owner, *merkle_tree];
                    let signs = [*leaf_owner_signs, *leaf_delegate_signs];
                    Ok(transfer_instruction(&accounts, signs, root, data_hash, creator_hash, nonce, index))
                },
                _ => Err(BubblegumError::InstructionBuildError),
            }
        },
    }
}

/// The base-58 text of some bytes.
pub uninterp spec fn base58_text(b: Seq<u8>) -> Seq<char>;

/// The keys a list of 32-byte keys holds.
pub open spec fn key_set(keys: Seq<[u8; 32]>) -> Set<Seq<u8>> {
    Set::new(|k: Seq<u8>| exists|i: int| 0 <= i < keys.len() && (#[trigger] keys[i])@ == k)
}

/// The keys that encoded instructions flag as signers.
pub open spec fn encoded_signers(ixs: Seq<EncodedInstruction>) -> Set<Seq<u8>>
    decreases ixs.len(),
{
    if ixs.len() == 0 {
        Set::empty()
    } else {
        encoded_signers(ixs.drop_last()).union(flagged_signers(ixs.last().view_accounts()))
    }
}

/// A ledger transaction being signed, with the keys its message requires
/// signatures from.
pub(crate) struct LedgerTransaction {
    pub(crate) tx: Transaction,
    pub(crate) required: Vec<[u8; 32]>,
}

/// Relies on `Transaction::new_with_payer` of solana-sdk: an unsigned
/// transaction of the instructions, in order, with the given fee payer. Its
/// message requires signatures from the fee payer and from every account an
/// instruction flags as a signer, and from no other key; those keys lead the
/// message's account list. Compiling the message panics only beyond 255
/// signer or 255 read-only accounts, which two instructions of at most 16
/// accounts each cannot reach.
#[verifier::external_body]
fn unsigned_transaction(instructions: &Vec<EncodedInstruction>, fee_payer: &Address) -> (r: LedgerTransaction)
    requires
        instructions@.len() <= 2,
        forall|i: int| 0 <= i < instructions@.len() ==> (#[trigger] instructions@[i]).view_accounts().len() <= 16,
    ensures
        key_set(r.required@) == set![fee_payer.bytes@].union(encoded_signers(instructions@)),
{
    let ixs: Vec<Instruction> = instructions.iter().map(|e| e.ix.clone()).collect();
    let tx = Transaction::new_with_payer(&ixs, Some(&Pubkey::new_from_array(fee_payer.bytes)));
    let n = tx.message.header.num_required_signatures as usize;
    let required = tx.message.account_keys[..n].iter().map(|k| k.to_bytes()).collect();
    LedgerTransaction { tx, required }
}

/// Relies on `bincode::serialize` of the transaction.
#[verifier::external_body]
fn transaction_bytes(tx: &Transaction) -> Option<Vec<u8>> {
    bincode::serialize(tx).ok()
}

/// Relies on `bs58::encode(..).into_string()`: the base-58 text of the bytes.
#[verifier::external_body]
fn encode_base58(b: &Vec<u8>) -> (r: String)
    ensures
        r@ == base58_text(b@),
{
    bs58::encode(b).into_string()
}

/// Every instruction of a plan is complete.
pub open spec fn plan_complete(plan: TransactionPlan) -> bool {
    forall|i: int| 0 <= i < plan.view_instructions().len() ==> instruction_complete(#[trigger] plan.view_instructions()[i])
}

fn contains_key(addresses: &Vec<Address>, key: &[u8; 32]) -> (r: bool)
    ensures
        r == exists|i: int| 0 <= i < addresses@.len() && (#[trigger] addresses@[i]).bytes@ == key@,
{
    let wanted = Address { bytes: *key };
    let mut i: usize = 0;
    while i < addresses.len()
        invariant
            0 <= i <= addresses@.len(),
            wanted.bytes@ == key@,
            forall|j: int| 0 <= j < i ==> (#[trigger] addresses@[j]).bytes@ != key@,
        decreases addresses@.len() - i,
    {
        if addresses[i].same_as(&wanted) {
            return true;
        }
        i = i + 1;
    }
    false
}

/// A transaction encoded from a plan and signed, with a record of what it
/// was built from: the fee payer, the blockhash, the signers' addresses in
/// signing order, and the number of instructions.
pub struct SignedTransaction {
    tx: Transaction,
    fee_payer: Address,
    recent_blockhash: [u8; 32],
    signers: Vec<Address>,
    instruction_count: usize,
}

impl SignedTransaction {
    pub closed spec fn view_fee_payer(&self) -> Address {
        self.fee_payer
    }

    pub closed spec fn view_recent_blockhash(&self) -> Seq<u8> {
        self.recent_blockhash@
    }

    pub closed spec fn view_signers(&self) -> Seq<Address> {
        self.signers@
    }

    pub closed spec fn view_instruction_count(&self) -> nat {
        self.instruction_count as nat
    }

    /// The account that pays the fee.
    pub fn fee_payer(&self) -> (r: Address)
        ensures
            r == self.view_fee_payer(),
    {
        self.fee_payer
    }

    /// The blockhash the transaction was signed against.
    pub fn recent_blockhash(&self) -> (r: [u8; 32])
        ensures
            r@ == self.view_recent_blockhash(),
    {
        self.recent_blockhash
    }

    /// The signers' addresses, in signing order.
    pub fn signers(&self) -> (r: &Vec<Address>)
        ensures
            r@ == self.view_signers(),
    {
        &self.signers
    }

    /// The signed ledger transaction, for submission.
    pub fn transaction(&self) -> &Transaction {
        &self.tx
    }
}

/// `t` was built from `plan` against `recent_blockhash`.
pub open spec fn built_from(t: SignedTransaction, plan: TransactionPlan, recent_blockhash: Seq<u8>) -> bool {
    &&& t.view_fee_payer().bytes@ == plan.view_fee_payer().bytes@
    &&& t.view_recent_blockhash() == recent_blockhash
    &&& t.view_instruction_count() == plan.view_instructions().len()
    &&& t.view_signers().len() == plan.view_signers().len()
    &&& forall|i: int| 0 <= i < t.view_signers().len() ==>
        (#[trigger] t.view_signers()[i]).bytes@ == public_half(plan.view_signers()[i].key_bytes())
}

proof fn lemma_encoded_signers_step(
    encoded: Seq<EncodedInstruction>,
    e: EncodedInstruction,
    planned: Seq<TreeInstruction>,
    i: int,
)
    requires
        0 <= i < planned.len(),
        encoded_signers(encoded) == instructions_signers(planned.take(i)),
        flagged_signers(e.view_accounts()) == instruction_signers(planned[i]),
    ensures
        encoded_signers(encoded.push(e)) == instructions_signers(planned.take(i + 1)),
{
    assert(encoded.push(e).drop_last() =~= encoded);
    assert(planned.take(i + 1).drop_last() =~= planned.take(i));
    assert(planned.take(i + 1).last() == planned[i]);
}

/// Encodes a plan's instructions and signs the transaction with the plan's
/// signers, in order, against `recent_blockhash`. An incomplete instruction,
/// a signer the message does not require, or a required signature that no
/// signer gave is an `InstructionBuildError`. A complete plan whose signers
/// are exactly the accounts its transaction needs is always signed.
pub fn build_transaction(plan: &TransactionPlan, recent_blockhash: &[u8; 32]) -> (r: Result<SignedTransaction, BubblegumError>)
    ensures
        r is Ok ==> plan_complete(*plan),
        !plan_complete(*plan) ==> r is Err,
        plan_complete(*plan) && signers_exact(*plan) ==> r is Ok,
        r matches Err(e) ==> e == BubblegumError::InstructionBuildError,
        r matches Ok(t) ==> built_from(t, *plan, recent_blockhash@),
{
    let planned = plan.instructions();
    let mut encoded: Vec<EncodedInstruction> = Vec::new();
    let mut i: usize = 0;
    proof {
        assert(planned@.take(0) =~= Seq::<TreeInstruction>::empty());
    }
    while i < planned.len()
        invariant
            planned@ == plan.view_instructions(),
            planned@.len() <= 2,
            0 <= i <= planned@.len(),
            encoded@.len() == i,
            forall|j: int| 0 <= j < i ==> instruction_complete(#[trigger] planned@[j]),
            forall|j: int| 0 <= j < i ==> (#[trigger] encoded@[j]).view_accounts().len() <= 16,
            encoded_signers(encoded@) == instructions_signers(planned@.take(i as int)),
        decreases planned@.len() - i,
    {
        match encode_instruction(&planned[i]) {
            Ok(e) => {
                proof {
                    lemma_encoded_signers_step(encoded@, e, planned@, i as int);
                }
                encoded.push(e);
            },
            Err(e) => return Err(e),
        }
        i = i + 1;
    }
    proof {
        assert(planned@.take(planned@.len() as int) =~= planned@);
    }
    let fee_payer = plan.fee_payer();
    let mut lt = unsigned_transaction(&encoded, &fee_payer);
    let ghost required = lt.required@;
    assert(key_set(required) == set![fee_payer.bytes@].union(instructions_signers(plan.view_instructions())));
    let keys = plan.signers();
    let mut all_accepted = true;
    let mut signers: Vec<Address> = Vec::new();
    let mut k: usize = 0;
    while k < keys.len()
        invariant
            keys@ == plan.view_signers(),
            lt.required@ == required,
            key_set(required) == set![fee_payer.bytes@].union(instructions_signers(plan.view_instructions())),
            fee_payer == plan.view_fee_payer(),
            0 <= k <= keys@.len(),
            signers@.len() == k,
            forall|j: int| 0 <= j < k ==> (#[trigger] signers@[j]).bytes@ == public_half(keys@[j].key_bytes()),
            signers_exact(*plan) ==> all_accepted,
        decreases keys@.len() - k,
    {
        let address = keys[k].address();
        proof {
            if signers_exact(*plan) {
                assert(plan_signer_addresses(*plan).contains(public_half(keys@[k as int].key_bytes())));
            }
        }
        let accepted = partial_sign(&mut lt, &keys[k], recent_blockhash);
        all_accepted = all_accepted && accepted;
        signers.push(address);
        k = k + 1;
    }
    if !all_accepted {
        return Err(BubblegumError::InstructionBuildError);
    }
    let mut j: usize = 0;
    while j < lt.required.len()
        invariant
            lt.required@ == required,
            key_set(required) == set![fee_payer.bytes@].union(instructions_signers(plan.view_instructions())),
            fee_payer == plan.view_fee_payer(),
            keys@ == plan.view_signers(),
            signers@.len() == keys@.len(),
            forall|m: int| 0 <= m < signers@.len() ==> (#[trigger] signers@[m]).bytes@ == public_half(keys@[m].key_bytes()),
            0 <= j <= required.len(),
        decreases required.len() - j,
    {
        let found = contains_key(&signers, &lt.required[j]);
        proof {
            if signers_exact(*plan) {
                assert(key_set(required).contains(required[j as int]@));
                let m = choose|m: int| 0 <= m < keys@.len() && public_half(#[trigger] keys@[m].key_bytes()) == required[j as int]@;
                assert(signers@[m].bytes@ == required[j as int]@);
            }
        }
        if !found {
            return Err(BubblegumError::InstructionBuildError);
        }
        j = j + 1;
    }
    Ok(SignedTransaction {
        tx: lt.tx,
        fee_payer,
        recent_blockhash: *recent_blockhash,
        signers,
        instruction_count: encoded.len(),
    })
}

/// The base-58 text of a transaction's wire bytes.
pub fn transaction_text(wire: &Vec<u8>) -> (r: String)
    ensures
        r@ == base58_text(wire@),
{
    encode_base58(wire)
}

/// The transaction's wire form as base-58 text, for relay by another party;
/// whether it can be encoded is the serialiser's answer, and a refusal gives
/// `SerializationError`.
pub fn encode_transaction(t: &SignedTransaction) -> (r: Result<String, BubblegumError>)
    ensures
        r matches Ok(s) ==> exists|wire: Seq<u8>| s@ == base58_text(wire),
        r matches Err(e) ==> e == BubblegumError::SerializationError,
{
    match transaction_bytes(t.transaction()) {
        Some(bytes) => Ok(transaction_text(&bytes)),
        None => Err(BubblegumError::SerializationError),
    }
}

} // verus!
