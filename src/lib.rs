//! Client-side assembly of compressed-NFT transactions: the supported tree
//! configurations and their account sizes, address and key parsing, metadata
//! validation, the ordered instruction sets for creating a tree, minting a
//! leaf and transferring a leaf, and their encoding, signing and
//! serialisation.
pub mod address;
pub mod encode;
pub mod error;
pub mod metadata;
pub mod plan;
pub mod valid_depth_size_pairs;

pub use address::{derive_tree_config, parse_digest, validate_keypair_nif, validate_pubkey_nif, Address, KeyPair};
pub use encode::{build_transaction, encode_instruction, encode_transaction, transaction_text, EncodedInstruction, SignedTransaction};
pub use error::{BubblegumError, MetadataProblem};
pub use metadata::{
    convert_metadata_args, CollectionNif, CreatorNif, LeafCollection, LeafCreator, LeafMetadata, MetadataArgsNif, TokenProgram,
    TokenStandardNif, UseMethodNif, UsesNif,
};
pub use plan::{create_tree_plan, mint_plan, mint_to_collection_plan, transfer_plan, TransactionPlan, TransferFields, TreeInstruction};
pub use valid_depth_size_pairs::{get_valid_pairs_string, is_valid_pair, required_account_size, valid_depth_size_pairs};
