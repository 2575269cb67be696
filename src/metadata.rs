//! Leaf metadata as a host supplies it, with addresses as text, and its
//! validated form with parsed addresses.
use vstd::prelude::*;

use crate::address::{pubkey_from_text, Address};
use crate::error::{BubblegumError, MetadataProblem};

verus! {

/// A creator as supplied: address text, verification flag and royalty share.
pub struct CreatorNif {
    pub address: String,
    pub verified: bool,
    pub share: u8,
}

/// A collection reference as supplied.
pub struct CollectionNif {
    pub verified: bool,
    pub key: String,
}

/// The token standard tag of a leaf.
#[derive(Clone, Copy, Debug, PartialEq, Eq)]
pub enum TokenStandardNif {
    NonFungible,
    FungibleAsset,
    Fungible,
    NonFungibleEdition,
}

/// A usage-limit descriptor.
#[derive(Clone, Copy, Debug, PartialEq, Eq)]
pub struct UsesNif {
    pub use_method: UseMethodNif,
    pub remaining: u64,
    pub total: u64,
}

/// How a use is consumed.
#[derive(Clone, Copy, Debug, PartialEq, Eq)]
pub enum UseMethodNif {
    Burn,
    Multiple,
    Single,
}

/// The token program a leaf's metadata targets.
#[derive(Clone, Copy, Debug, PartialEq, Eq)]
pub enum TokenProgram {
    Original,
    Token2022,
}

/// Leaf metadata as supplied by the host.
pub struct MetadataArgsNif {
    pub name: String,
    pub symbol: String,
    pub uri: String,
    pub seller_fee_basis_points: u16,
    pub primary_sale_happened: bool,
    pub is_mutable: bool,
    pub edition_nonce: Option<u8>,
    pub token_standard: Option<TokenStandardNif>,
    pub collection: Option<CollectionNif>,
    pub uses: Option<UsesNif>,
    pub creators: Vec<CreatorNif>,
}

/// A creator with a parsed address.
#[derive(Clone, Copy, Debug)]
pub struct LeafCreator {
    pub address: Address,
    pub verified: bool,
    pub share: u8,
}

/// A collection reference with a parsed key.
#[derive(Clone, Copy, Debug)]
pub struct LeafCollection {
    pub verified: bool,
    pub key: Address,
}

/// Validated leaf metadata.
pub struct LeafMetadata {
    pub token_program_version: TokenProgram,
    pub name: String,
    pub symbol: String,
    pub uri: String,
    pub seller_fee_basis_points: u16,
    pub primary_sale_happened: bool,
    pub is_mutable: bool,
    pub edition_nonce: Option<u8>,
    pub token_standard: Option<TokenStandardNif>,
    pub collection: Option<LeafCollection>,
    pub uses: Option<UsesNif>,
    pub creators: Vec<LeafCreator>,
}

/// The sum of the creators' shares.
pub open spec fn share_sum(cs: Seq<CreatorNif>) -> nat
    decreases cs.len(),
{
    if cs.len() == 0 {
        0
    } else {
        share_sum(cs.drop_last()) + cs.last().share as nat
    }
}

/// Every creator address parses.
pub open spec fn creators_parse(cs: Seq<CreatorNif>) -> bool {
    forall|i: int| 0 <= i < cs.len() ==> (#[trigger] pubkey_from_text(cs[i].address@)) is Some
}

/// Metadata is accepted when every creator address parses, the shares of a
/// non-empty creator list sum to exactly 100, and a collection key, if any,
/// parses.
pub open spec fn metadata_accepted(args: MetadataArgsNif) -> bool {
    &&& creators_parse(args.creators@)
    &&& (args.creators@.len() == 0 || share_sum(args.creators@) == 100)
    &&& (args.collection matches Some(c) ==> pubkey_from_text(c.key@) is Some)
}

/// The position of the first creator whose address does not parse (the
/// list's length when all parse).
pub open spec fn first_unparsed(cs: Seq<CreatorNif>) -> nat
    decreases cs.len(),
{
    if cs.len() == 0 {
        0
    } else if pubkey_from_text(cs[0].address@) is None {
        0
    } else {
        1 + first_unparsed(cs.drop_first())
    }
}

/// The first reason to refuse metadata: a creator address that does not
/// parse, then a share total other than 100 for a non-empty creator list,
/// then a collection key that does not parse.
pub open spec fn metadata_error(args: MetadataArgsNif) -> Option<BubblegumError> {
    if !creators_parse(args.creators@) {
        Some(BubblegumError::InvalidMetadata {
            problem: MetadataProblem::CreatorAddress { index: first_unparsed(args.creators@) as u64 },
        })
    } else if !(args.creators@.len() == 0 || share_sum(args.creators@) == 100) {
        Some(BubblegumError::InvalidMetadata { problem: MetadataProblem::ShareTotal })
    } else if !(args.collection matches Some(c) ==> pubkey_from_text(c.key@) is Some) {
        Some(BubblegumError::InvalidMetadata { problem: MetadataProblem::CollectionKey })
    } else {
        None
    }
}

proof fn lemma_first_unparsed(cs: Seq<CreatorNif>, i: int)
    requires
        0 <= i < cs.len(),
        pubkey_from_text(cs[i].address@) is None,
        forall|j: int| 0 <= j < i ==> (#[trigger] pubkey_from_text(cs[j].address@)) is Some,
    ensures
        first_unparsed(cs) == i,
    decreases i,
{
    if i > 0 {
        let rest = cs.drop_first();
        assert forall|j: int| 0 <= j < i - 1 implies (#[trigger] pubkey_from_text(rest[j].address@)) is Some by {
            assert(rest[j] == cs[j + 1]);
        }
        assert(rest[i - 1] == cs[i]);
        lemma_first_unparsed(rest, i - 1);
        assert(pubkey_from_text(cs[0].address@) is Some);
    }
}

/// `c` is `n` with its address parsed.
pub open spec fn creator_converted(c: LeafCreator, n: CreatorNif) -> bool {
    &&& pubkey_from_text(n.address@) == Some(c.address.bytes@)
    &&& c.verified == n.verified
    &&& c.share == n.share
}

/// `m` holds what `args` holds, with every address parsed, for the original
/// token program.
pub open spec fn metadata_converted(m: LeafMetadata, args: MetadataArgsNif) -> bool {
    &&& m.name@ == args.name@
    &&& m.symbol@ == args.symbol@
    &&& m.uri@ == args.uri@
    &&& m.seller_fee_basis_points == args.seller_fee_basis_points
    &&& m.primary_sale_happened == args.primary_sale_happened
    &&& m.is_mutable == args.is_mutable
    &&& m.edition_nonce == args.edition_nonce
    &&& m.token_standard == args.token_standard
    &&& m.uses == args.uses
    &&& m.token_program_version == TokenProgram::Original
    &&& (m.collection is Some <==> args.collection is Some)
    &&& (m.collection matches Some(c) ==> {
        &&& c.verified == args.collection->0.verified
        &&& pubkey_from_text(args.collection->0.key@) == Some(c.key.bytes@)
    })
    &&& m.creators@.len() == args.creators@.len()
    &&& forall|i: int| 0 <= i < m.creators@.len() ==> creator_converted(#[trigger] m.creators@[i], args.creators@[i])
}

proof fn lemma_share_sum_grows(cs: Seq<CreatorNif>, i: int)
    requires
        0 <= i < cs.len(),
    ensures
        share_sum(cs.subrange(0, i + 1)) == share_sum(cs.subrange(0, i)) + cs[i].share as nat,
{
    assert(cs.subrange(0, i + 1).drop_last() =~= cs.subrange(0, i));
}

/// Validates host metadata and parses its addresses. A creator address or
/// collection key that does not parse, or creator shares that do not sum to
/// exactly 100 when there are creators, give `InvalidMetadata` with the
/// first such problem.
pub fn convert_metadata_args(args: &MetadataArgsNif) -> (r: Result<LeafMetadata, BubblegumError>)
    ensures
        r is Ok <==> metadata_accepted(*args),
        metadata_accepted(*args) <==> metadata_error(*args) is None,
        r matches Ok(m) ==> metadata_converted(m, *args),
        r matches Err(e) ==> metadata_error(*args) == Some(e),
{
    let mut creators: Vec<LeafCreator> = Vec::new();
    let mut total: u64 = 0;
    let mut i: usize = 0;
    while i < args.creators.len()
        invariant
            0 <= i <= args.creators@.len(),
            creators@.len() == i,
            forall|j: int| 0 <= j < i ==> creator_converted(#[trigger] creators@[j], args.creators@[j]),
            forall|j: int| 0 <= j < i ==> (#[trigger] pubkey_from_text(args.creators@[j].address@)) is Some,
            share_sum(args.creators@.subrange(0, i as int)) <= 100 ==> total == share_sum(args.creators@.subrange(0, i as int)),
            share_sum(args.creators@.subrange(0, i as int)) > 100 ==> total > 100,
            total <= 355,
        decreases args.creators@.len() - i,
    {
        let c = &args.creators[i];
        let address = match Address::from_text(c.address.as_str()) {
            Ok(a) => a,
            Err(_) => {
                assert(!creators_parse(args.creators@));
                proof {
                    lemma_first_unparsed(args.creators@, i as int);
                }
                let index = i as u64;
                return Err(BubblegumError::InvalidMetadata { problem: MetadataProblem::CreatorAddress { index } });
            },
        };
        proof {
            lemma_share_sum_grows(args.creators@, i as int);
        }
        if total <= 100 {
            total = total + c.share as u64;
        }
        creators.push(LeafCreator { address, verified: c.verified, share: c.share });
        i = i + 1;
    }
    assert(args.creators@.subrange(0, i as int) =~= args.creators@);
    assert(creators_parse(args.creators@)) by {
        assert forall|j: int| 0 <= j < args.creators@.len() implies (#[trigger] pubkey_from_text(args.creators@[j].address@)) is Some by {
            assert(creator_converted(creators@[j], args.creators@[j]));
        }
    }
    if creators.len() > 0 && total != 100 {
        return Err(BubblegumError::InvalidMetadata { problem: MetadataProblem::ShareTotal });
    }
    let collection = match &args.collection {
        Some(c) => match Address::from_text(c.key.as_str()) {
            Ok(key) => Some(LeafCollection { verified: c.verified, key }),
            Err(_) => {
                return Err(BubblegumError::InvalidMetadata { problem: MetadataProblem::CollectionKey });
            },
        },
        None => None,
    };
    Ok(LeafMetadata {
        token_program_version: TokenProgram::Original,
        name: args.name.clone(),
        symbol: args.symbol.clone(),
        uri: args.uri.clone(),
        seller_fee_basis_points: args.seller_fee_basis_points,
        primary_sale_happened: args.primary_sale_happened,
        is_mutable: args.is_mutable,
        edition_nonce: args.edition_nonce,
        token_standard: args.token_standard,
        collection,
        uses: args.uses,
        creators,
    })
}

/// Where every address in the metadata parses, it is accepted exactly when
/// the creator list is empty or its shares sum to 100; so shares summing to 99
/// or 101 are refused.
pub proof fn lemma_share_rule(args: MetadataArgsNif)
    requires
        creators_parse(args.creators@),
        args.collection matches Some(c) ==> pubkey_from_text(c.key@) is Some,
    ensures
        metadata_accepted(args) <==> (args.creators@.len() == 0 || share_sum(args.creators@) == 100),
        args.creators@.len() == 0 ==> metadata_accepted(args),
        share_sum(args.creators@) == 99 || share_sum(args.creators@) == 101 ==> !metadata_accepted(args),
{
}

} // verus!
