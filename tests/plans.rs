use bubblegum_tx::{
    build_transaction, create_tree_plan, derive_tree_config, encode_instruction, encode_transaction, mint_plan,
    mint_to_collection_plan, required_account_size, transfer_plan, Address, BubblegumError, MetadataArgsNif,
    TreeInstruction,
};
use solana_sdk::signer::keypair::Keypair;
use solana_sdk::signer::Signer;

fn new_keypair() -> (Vec<u8>, [u8; 32]) {
    let k = Keypair::new();
    (k.to_bytes().to_vec(), k.pubkey().to_bytes())
}

fn new_address() -> String {
    Keypair::new().pubkey().to_string()
}

fn metadata() -> MetadataArgsNif {
    MetadataArgsNif {
        name: "Leaf".to_string(),
        symbol: "LEAF".to_string(),
        uri: "https://example.com/leaf.json".to_string(),
        seller_fee_basis_points: 0,
        primary_sale_happened: false,
        is_mutable: true,
        edition_nonce: None,
        token_standard: None,
        collection: None,
        uses: None,
        creators: Vec::new(),
    }
}

fn digest_text(b: u8) -> String {
    bs58::encode([b; 32]).into_string()
}

#[test]
fn create_tree_14_64_emits_account_and_config() {
    let (payer, payer_pk) = new_keypair();
    let (tree, tree_pk) = new_keypair();
    let plan = create_tree_plan(14, 64, &payer, &tree, 1_000_000).expect("plan");
    assert_eq!(plan.instructions().len(), 2);
    match &plan.instructions()[0] {
        TreeInstruction::CreateTreeAccount { payer, new_account, lamports, space, owner } => {
            assert_eq!(owner.bytes, mpl_bubblegum::programs::SPL_ACCOUNT_COMPRESSION_ID.to_bytes());
            assert_eq!(payer.bytes, payer_pk);
            assert_eq!(new_account.bytes, tree_pk);
            assert_eq!(*lamports, 1_000_000);
            assert_eq!(Ok(*space), required_account_size(14, 64));
            assert_eq!(*space, 31800);
        },
        _ => panic!("first instruction should create the tree account"),
    }
    let (config, _) = derive_tree_config(&Address { bytes: tree_pk });
    match &plan.instructions()[1] {
        TreeInstruction::CreateTreeConfig { tree_config, merkle_tree, payer, tree_creator, max_depth, max_buffer_size } => {
            assert_eq!(tree_config.bytes, config.bytes);
            assert_eq!(merkle_tree.bytes, tree_pk);
            assert_eq!(payer.bytes, payer_pk);
            assert_eq!(tree_creator.bytes, payer_pk);
            assert_eq!(*max_depth, 14);
            assert_eq!(*max_buffer_size, 64);
        },
        _ => panic!("second instruction should initialise the tree config"),
    }
    assert_eq!(plan.fee_payer().bytes, payer_pk);
    let signers: Vec<[u8; 32]> = plan.signers().iter().map(|k| k.address().bytes).collect();
    assert_eq!(signers, vec![payer_pk, tree_pk]);
}

#[test]
fn create_tree_transaction_is_signed_by_payer_and_tree() {
    let (payer, payer_pk) = new_keypair();
    let (tree, tree_pk) = new_keypair();
    let plan = create_tree_plan(14, 64, &payer, &tree, 1_000_000).expect("plan");
    let signed = build_transaction(&plan, &[9u8; 32]).ok().expect("signed");
    assert_eq!(signed.fee_payer().bytes, payer_pk);
    assert_eq!(signed.recent_blockhash(), [9u8; 32]);
    let signer_addresses: Vec<[u8; 32]> = signed.signers().iter().map(|a| a.bytes).collect();
    assert_eq!(signer_addresses, vec![payer_pk, tree_pk]);
    let tx = signed.transaction();
    assert!(tx.is_signed());
    assert!(tx.verify().is_ok());
    let keys = &tx.message.account_keys;
    assert_eq!(keys[0].to_bytes(), payer_pk);
    assert_eq!(tx.message.header.num_required_signatures, 2);
    assert!(keys[..2].iter().any(|k| k.to_bytes() == tree_pk));
    assert_eq!(tx.message.instructions.len(), 2);
    assert_eq!(tx.message.recent_blockhash.to_bytes(), [9u8; 32]);
}

#[test]
fn create_tree_4_8_is_invalid_configuration() {
    let (payer, _) = new_keypair();
    let (tree, _) = new_keypair();
    assert_eq!(
        create_tree_plan(4, 8, &payer, &tree, 0).err(),
        Some(BubblegumError::InvalidConfiguration { max_depth: 4, max_buffer_size: 8 })
    );
    assert!(required_account_size(4, 8).is_err());
}

#[test]
fn create_tree_bad_keypair_comes_first() {
    let (payer, _) = new_keypair();
    assert_eq!(create_tree_plan(4, 8, &payer, &payer[..63], 0).err(), Some(BubblegumError::InvalidKeyPair));
}

#[test]
fn mint_names_owner_as_delegate_and_payer_signs() {
    let (tree, tree_pk) = new_keypair();
    let (payer, payer_pk) = new_keypair();
    let owner = new_address();
    let plan = mint_plan(&tree, &owner, &payer, &metadata()).expect("plan");
    assert_eq!(plan.instructions().len(), 1);
    match &plan.instructions()[0] {
        TreeInstruction::MintV1 { leaf_owner, leaf_delegate, merkle_tree, payer, tree_creator_or_delegate, .. } => {
            assert_eq!(leaf_owner.bytes.to_vec(), bs58::decode(&owner).into_vec().unwrap());
            assert_eq!(leaf_delegate.bytes, leaf_owner.bytes);
            assert_eq!(merkle_tree.bytes, tree_pk);
            assert_eq!(payer.bytes, payer_pk);
            assert_eq!(tree_creator_or_delegate.bytes, payer_pk);
        },
        _ => panic!("expected a mint"),
    }
    assert_eq!(plan.signers().len(), 1);
    let signed = build_transaction(&plan, &[1u8; 32]).ok().expect("signed");
    let tx = signed.transaction();
    assert!(tx.verify().is_ok());
}

#[test]
fn mint_errors_follow_check_order() {
    let (tree, _) = new_keypair();
    let (payer, _) = new_keypair();
    let mut bad_meta = metadata();
    bad_meta.creators.push(bubblegum_tx::CreatorNif { address: new_address(), verified: false, share: 99 });
    assert_eq!(mint_plan(&tree, "bad", &payer, &bad_meta).err(), Some(BubblegumError::InvalidAddress));
    assert_eq!(mint_plan(&tree, &new_address(), &payer, &bad_meta).err(), Some(BubblegumError::InvalidMetadata { problem: bubblegum_tx::MetadataProblem::ShareTotal }));
    assert_eq!(mint_plan(&[0u8; 10], "bad", &payer, &bad_meta).err(), Some(BubblegumError::InvalidKeyPair));
}

#[test]
fn mint_to_collection_adds_authority_signer_only_when_distinct() {
    let (tree, _) = new_keypair();
    let (payer, payer_pk) = new_keypair();
    let (authority, authority_pk) = new_keypair();
    let owner = new_address();
    let mint = new_address();
    let meta = new_address();
    let edition = new_address();
    let plan = mint_to_collection_plan(&tree, &owner, &payer, &metadata(), &mint, &authority, None, Some(&meta), Some(&edition))
        .expect("plan");
    let signers: Vec<[u8; 32]> = plan.signers().iter().map(|k| k.address().bytes).collect();
    assert_eq!(signers, vec![payer_pk, authority_pk]);
    let signed = build_transaction(&plan, &[2u8; 32]).ok().expect("signed");
    let tx = signed.transaction();
    assert!(tx.verify().is_ok());
    let same = mint_to_collection_plan(&tree, &owner, &payer, &metadata(), &mint, &payer, None, Some(&meta), Some(&edition))
        .expect("plan");
    assert_eq!(same.signers().len(), 1);
}

#[test]
fn mint_to_collection_without_collection_accounts_cannot_be_encoded() {
    let (tree, _) = new_keypair();
    let (payer, _) = new_keypair();
    let plan = mint_to_collection_plan(&tree, &new_address(), &payer, &metadata(), &new_address(), &payer, None, None, None)
        .expect("plan");
    assert_eq!(encode_instruction(&plan.instructions()[0]).err(), Some(BubblegumError::InstructionBuildError));
    assert_eq!(build_transaction(&plan, &[0u8; 32]).err(), Some(BubblegumError::InstructionBuildError));
    let (payer2, _) = new_keypair();
    let plan2 = mint_plan(&tree, &new_address(), &payer2, &metadata()).expect("plan");
    assert!(build_transaction(&plan2, &[0u8; 32]).is_ok());
}

#[test]
fn transfer_with_nonce_and_index_only_keeps_hashes_absent() {
    let (tree, tree_pk) = new_keypair();
    let (owner, owner_pk) = new_keypair();
    let new_owner = new_address();
    let plan = transfer_plan(&tree, &owner, &new_owner, &new_address(), None, None, None, Some(5), Some(7)).expect("plan");
    match &plan.instructions()[0] {
        TreeInstruction::Transfer { leaf_owner, leaf_delegate, merkle_tree, leaf_owner_signs, leaf_delegate_signs, fields, .. } => {
            assert!(*leaf_owner_signs && *leaf_delegate_signs);
            assert_eq!(leaf_owner.bytes, owner_pk);
            assert_eq!(leaf_delegate.bytes, owner_pk);
            assert_eq!(merkle_tree.bytes, tree_pk);
            assert_eq!(fields.nonce, Some(5));
            assert_eq!(fields.index, Some(7));
            assert_eq!(fields.root, None);
            assert_eq!(fields.data_hash, None);
            assert_eq!(fields.creator_hash, None);
        },
        _ => panic!("expected a transfer"),
    }
    assert_eq!(plan.fee_payer().bytes, owner_pk);
    assert_eq!(encode_instruction(&plan.instructions()[0]).err(), Some(BubblegumError::InstructionBuildError));
}

#[test]
fn complete_transfer_is_encoded_and_signed_by_owner() {
    let (tree, _) = new_keypair();
    let (owner, owner_pk) = new_keypair();
    let plan = transfer_plan(
        &tree,
        &owner,
        &new_address(),
        &new_address(),
        Some(&digest_text(1)),
        Some(&digest_text(2)),
        Some(&digest_text(3)),
        Some(5),
        Some(7),
    )
    .expect("plan");
    match &plan.instructions()[0] {
        TreeInstruction::Transfer { fields, .. } => {
            assert_eq!(fields.root, Some([1u8; 32]));
            assert_eq!(fields.data_hash, Some([2u8; 32]));
            assert_eq!(fields.creator_hash, Some([3u8; 32]));
        },
        _ => panic!("expected a transfer"),
    }
    let encoded = encode_instruction(&plan.instructions()[0]).ok().expect("encoded");
    let ix = encoded.instruction();
    assert_eq!(ix.program_id, mpl_bubblegum::ID);
    assert_eq!(&ix.data[8..40], &[1u8; 32]);
    assert_eq!(ix.data.len(), 8 + 96 + 8 + 4);
    let signed = build_transaction(&plan, &[4u8; 32]).ok().expect("signed");
    let tx = signed.transaction();
    assert_eq!(tx.message.account_keys[0].to_bytes(), owner_pk);
    assert!(tx.verify().is_ok());
}

#[test]
fn transfer_with_bad_digest_is_invalid_address() {
    let (tree, _) = new_keypair();
    let (owner, _) = new_keypair();
    let short = bs58::encode([1u8; 31]).into_string();
    assert_eq!(
        transfer_plan(&tree, &owner, &new_address(), &new_address(), Some(&short), None, None, None, None).err(),
        Some(BubblegumError::InvalidAddress)
    );
    assert_eq!(
        transfer_plan(&tree, &owner, &new_address(), "bad asset", None, None, None, None, None).err(),
        Some(BubblegumError::InvalidAddress)
    );
}

#[test]
fn encoded_transaction_decodes_back() {
    let (payer, _) = new_keypair();
    let (tree, _) = new_keypair();
    let plan = create_tree_plan(3, 8, &payer, &tree, 42).expect("plan");
    let signed = build_transaction(&plan, &[5u8; 32]).ok().expect("signed");
    let tx = signed.transaction();
    let text = encode_transaction(&signed).expect("encoded");
    let bytes = bs58::decode(&text).into_vec().unwrap();
    assert_eq!(bytes, bincode::serialize(tx).unwrap());
    let back: solana_sdk::transaction::Transaction = bincode::deserialize(&bytes).unwrap();
    assert_eq!(&back, tx);
    assert_eq!(bubblegum_tx::transaction_text(&bytes), text);
}

#[test]
fn transaction_text_is_base58() {
    assert_eq!(bubblegum_tx::transaction_text(&vec![0, 0, 1]), "112");
    assert_eq!(bubblegum_tx::transaction_text(&Vec::new()), "");
}
