use vstd::prelude::*;
use vstd::utf8::encode_utf8;

use crate::address::Address;
use crate::error::MetaIdError;

verus! {

/// The longest metadata URI, in bytes, that a record holds.
pub const MAX_URI_LEN: usize = 200;

/// The length in bytes of the UTF-8 encoding of `s`.
pub open spec fn byte_len(s: Seq<char>) -> nat {
    encode_utf8(s).len()
}

/// What validation says of a URI: empty is invalid, over the limit is too long.
pub open spec fn uri_check(uri: Seq<char>) -> Result<(), MetaIdError> {
    if byte_len(uri) == 0 {
        Err(MetaIdError::InvalidMetadataUri)
    } else if byte_len(uri) > MAX_URI_LEN {
        Err(MetaIdError::MetadataUriTooLong)
    } else {
        Ok(())
    }
}

/// Checks a metadata URI: it must be non-empty and at most `MAX_URI_LEN` bytes.
pub fn validate_metadata_uri(uri: &str) -> (r: Result<(), MetaIdError>)
    ensures
        r == uri_check(uri@),
{
    let n = uri.as_bytes().len();
    if n == 0 {
        Err(MetaIdError::InvalidMetadataUri)
    } else if n > MAX_URI_LEN {
        Err(MetaIdError::MetadataUriTooLong)
    } else {
        Ok(())
    }
}


/// The identity record stored for one owner.
#[derive(Clone, Debug)]
pub struct MetaIdData {
    /// The wallet that minted it.
    pub owner: Address,
    /// Where the off-chain metadata lives.
    pub metadata_uri: String,
    /// Chain time, in seconds, at creation.
    pub created_at: i64,
    /// The token mint that goes with this record.
    pub mint: Address,
    /// The bump under which the record's slot was derived.
    pub bump: u8,
}

impl MetaIdData {
    /// Bytes allocated for a record: discriminator, owner, URI length prefix
    /// and the longest URI, timestamp, mint, bump.
    pub const LEN: usize = 8 + 32 + 4 + 200 + 8 + 32 + 1;

    /// Bytes that this record takes once serialised.
    pub open spec fn encoded_len(&self) -> nat {
        8 + 32 + 4 + byte_len(self.metadata_uri@) + 8 + 32 + 1
    }

    /// A record whose URI passed validation.
    pub open spec fn wf(&self) -> bool {
        uri_check(self.metadata_uri@) is Ok
    }

    /// A record built from its parts.
    pub fn new(owner: Address, metadata_uri: String, created_at: i64, mint: Address, bump: u8) -> (r: Self)
        ensures
            r.owner == owner,
            r.metadata_uri == metadata_uri,
            r.created_at == created_at,
            r.mint == mint,
            r.bump == bump,
    {
        MetaIdData { owner, metadata_uri, created_at, mint, bump }
    }
}

/// A well-formed record fits in the space allocated for it.
pub proof fn lemma_record_fits(d: MetaIdData)
    requires
        d.wf(),
    ensures
        d.encoded_len() <= MetaIdData::LEN,
{
}

/// Units minted into the owner's account: one, since the token is unique.
pub const MINT_AMOUNT: u64 = 1;

/// The master edition's cap on further prints: none.
pub const EDITION_MAX_SUPPLY: u64 = 0;

/// Decimals of an identity token's mint.
pub const MINT_DECIMALS: u8 = 0;

/// Display name given to every identity token.
pub const TOKEN_NAME: &'static str = "Synelar MetaID";

/// Ticker symbol given to every identity token.
pub const TOKEN_SYMBOL: &'static str = "METAID";

/// A creator entry of the display metadata.
#[derive(Clone, Copy, Debug)]
pub struct Creator {
    pub address: Address,
    pub verified: bool,
    pub share: u8,
}

/// The display metadata handed to the metadata program for a new token:
/// no collection and no uses are ever set.
#[derive(Clone, Debug)]
pub struct MetadataArgs {
    pub name: String,
    pub symbol: String,
    pub uri: String,
    pub seller_fee_basis_points: u16,
    pub creators: Vec<Creator>,
}

impl MetadataArgs {
    /// The display metadata of `owner`'s token with URI `uri`.
    pub open spec fn is_for(&self, owner: Address, uri: Seq<char>) -> bool {
        &&& self.name@ == TOKEN_NAME@
        &&& self.symbol@ == TOKEN_SYMBOL@
        &&& self.uri@ == uri
        &&& self.seller_fee_basis_points == 0
        &&& self.creators@.len() == 1
        &&& self.creators@[0].address == owner
        &&& !self.creators@[0].verified
        &&& self.creators@[0].share == 100
    }

    /// The display metadata of `owner`'s token: fixed name and symbol, the
    /// given URI, no royalty, the owner as sole unverified creator with the
    /// whole share.
    pub fn for_owner(owner: Address, uri: String) -> (r: Self)
        ensures
            r.is_for(owner, uri@),
    {
        let mut creators: Vec<Creator> = Vec::new();
        creators.push(Creator { address: owner, verified: false, share: 100 });
        MetadataArgs {
            name: TOKEN_NAME.to_string(),
            symbol: TOKEN_SYMBOL.to_string(),
            uri,
            seller_fee_basis_points: 0,
            creators,
        }
    }
}

} // verus!
