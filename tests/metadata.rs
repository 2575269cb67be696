use bubblegum_tx::{
    convert_metadata_args, BubblegumError, MetadataProblem, CollectionNif, CreatorNif, MetadataArgsNif, TokenStandardNif, UseMethodNif,
    UsesNif,
};
use solana_sdk::signer::Signer;

fn new_address() -> String {
    solana_sdk::signer::keypair::Keypair::new().pubkey().to_string()
}

fn creator(share: u8) -> CreatorNif {
    CreatorNif { address: new_address(), verified: false, share }
}

fn metadata(creators: Vec<CreatorNif>) -> MetadataArgsNif {
    MetadataArgsNif {
        name: "Leaf".to_string(),
        symbol: "LEAF".to_string(),
        uri: "https://example.com/leaf.json".to_string(),
        seller_fee_basis_points: 500,
        primary_sale_happened: false,
        is_mutable: true,
        edition_nonce: Some(3),
        token_standard: Some(TokenStandardNif::NonFungible),
        collection: None,
        uses: Some(UsesNif { use_method: UseMethodNif::Multiple, remaining: 4, total: 10 }),
        creators,
    }
}

#[test]
fn shares_summing_to_100_are_accepted() {
    let args = metadata(vec![creator(60), creator(40)]);
    let m = convert_metadata_args(&args).expect("accepted");
    assert_eq!(m.creators.len(), 2);
    assert_eq!(m.creators[0].share, 60);
    assert_eq!(m.creators[1].share, 40);
    let expected = bs58::decode(&args.creators[0].address).into_vec().unwrap();
    assert_eq!(m.creators[0].address.bytes.to_vec(), expected);
}

#[test]
fn shares_summing_to_99_are_rejected() {
    let args = metadata(vec![creator(60), creator(39)]);
    assert_eq!(convert_metadata_args(&args).err(), Some(BubblegumError::InvalidMetadata { problem: MetadataProblem::ShareTotal }));
}

#[test]
fn shares_summing_to_101_are_rejected() {
    let args = metadata(vec![creator(60), creator(41)]);
    assert_eq!(convert_metadata_args(&args).err(), Some(BubblegumError::InvalidMetadata { problem: MetadataProblem::ShareTotal }));
}

#[test]
fn shares_over_255_in_total_are_rejected() {
    let args = metadata(vec![creator(200), creator(200), creator(100)]);
    assert_eq!(convert_metadata_args(&args).err(), Some(BubblegumError::InvalidMetadata { problem: MetadataProblem::ShareTotal }));
}

#[test]
fn empty_creator_list_is_accepted() {
    let m = convert_metadata_args(&metadata(Vec::new())).expect("accepted");
    assert!(m.creators.is_empty());
}

#[test]
fn invalid_creator_address_is_rejected() {
    let mut bad = creator(100);
    bad.address = "not an address".to_string();
    assert_eq!(
        convert_metadata_args(&metadata(vec![bad])).err(),
        Some(BubblegumError::InvalidMetadata { problem: MetadataProblem::CreatorAddress { index: 0 } })
    );
    let mut second = creator(50);
    second.address = "0OIl".to_string();
    let mut third = creator(50);
    third.address = "also bad".to_string();
    assert_eq!(
        convert_metadata_args(&metadata(vec![creator(0), second, third])).err(),
        Some(BubblegumError::InvalidMetadata { problem: MetadataProblem::CreatorAddress { index: 1 } })
    );
}

#[test]
fn invalid_collection_key_is_rejected() {
    let mut args = metadata(vec![creator(100)]);
    args.collection = Some(CollectionNif { verified: true, key: "xyz".to_string() });
    assert_eq!(
        convert_metadata_args(&args).err(),
        Some(BubblegumError::InvalidMetadata { problem: MetadataProblem::CollectionKey })
    );
}

#[test]
fn fields_are_carried_over() {
    let mut args = metadata(vec![creator(100)]);
    let key = new_address();
    args.collection = Some(CollectionNif { verified: true, key: key.clone() });
    let m = convert_metadata_args(&args).expect("accepted");
    assert_eq!(m.name, "Leaf");
    assert_eq!(m.token_program_version, bubblegum_tx::TokenProgram::Original);
    assert_eq!(m.symbol, "LEAF");
    assert_eq!(m.uri, "https://example.com/leaf.json");
    assert_eq!(m.seller_fee_basis_points, 500);
    assert!(!m.primary_sale_happened);
    assert!(m.is_mutable);
    assert_eq!(m.edition_nonce, Some(3));
    assert_eq!(m.token_standard, Some(TokenStandardNif::NonFungible));
    assert_eq!(m.uses, Some(UsesNif { use_method: UseMethodNif::Multiple, remaining: 4, total: 10 }));
    let c = m.collection.expect("collection kept");
    assert!(c.verified);
    assert_eq!(c.key.bytes.to_vec(), bs58::decode(&key).into_vec().unwrap());
}
