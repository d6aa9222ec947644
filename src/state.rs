use vstd::prelude::*;

use crate::address::Address;
use crate::error::ErrorCode;

verus! {

/// Bytes reserved in the collection record for the collection name.
pub const MAX_NAME_LEN: usize = 50;

/// Bytes reserved in the collection record for the collection symbol.
pub const MAX_SYMBOL_LEN: usize = 10;

/// Length of a text in bytes, as it is encoded in UTF-8.
pub open spec fn byte_len(s: Seq<char>) -> nat {
    vstd::utf8::encode_utf8(s).len()
}

/// Whether a name and a symbol fit the bytes reserved for them.
pub open spec fn fits_budget(name: Seq<char>, symbol: Seq<char>) -> bool {
    byte_len(name) <= MAX_NAME_LEN && byte_len(symbol) <= MAX_SYMBOL_LEN
}

/// The collection record: configuration fixed at creation and the number of
/// tokens minted so far.
pub struct ProgramData {
    pub authority: Address,
    pub trusted_forwarder: Address,
    pub name: String,
    pub symbol: String,
    pub token_counter: u64,
}

pub struct CollectionView {
    pub authority: Seq<u8>,
    pub trusted_forwarder: Seq<u8>,
    pub name: Seq<char>,
    pub symbol: Seq<char>,
    pub token_counter: u64,
}

impl View for ProgramData {
    type V = CollectionView;

    open spec fn view(&self) -> CollectionView {
        CollectionView {
            authority: self.authority@,
            trusted_forwarder: self.trusted_forwarder@,
            name: self.name@,
            symbol: self.symbol@,
            token_counter: self.token_counter,
        }
    }
}

/// The record a successful creation writes.
pub open spec fn fresh_collection(
    authority: Seq<u8>,
    trusted_forwarder: Seq<u8>,
    name: Seq<char>,
    symbol: Seq<char>,
) -> CollectionView {
    CollectionView { authority, trusted_forwarder, name, symbol, token_counter: 0 }
}

/// The counter after one more mint, or the overflow that forbids it.
pub open spec fn advance_counter(counter: u64) -> Result<u64, ErrorCode> {
    if counter == u64::MAX {
        Err(ErrorCode::ArithmeticOverflow)
    } else {
        Ok((counter + 1) as u64)
    }
}

/// Length in bytes of a string.
pub fn text_byte_len(s: &String) -> (r: usize)
    ensures
        r == byte_len(s@),
{
    s.as_str().as_bytes().len()
}

impl ProgramData {
    pub open spec fn wf(&self) -> bool {
        fits_budget(self.name@, self.symbol@)
    }

    /// A fresh record with a zero counter, or `InputTooLarge` where the name
    /// or the symbol exceeds its budget. Nothing is truncated.
    pub fn new(authority: Address, trusted_forwarder: Address, name: String, symbol: String) -> (r: Result<ProgramData, ErrorCode>)
        ensures
            match r {
                Ok(d) => fits_budget(name@, symbol@) && d.wf()
                    && d@ == fresh_collection(authority@, trusted_forwarder@, name@, symbol@),
                Err(e) => !fits_budget(name@, symbol@) && e == ErrorCode::InputTooLarge,
            },
    {
        if text_byte_len(&name) > MAX_NAME_LEN || text_byte_len(&symbol) > MAX_SYMBOL_LEN {
            return Err(ErrorCode::InputTooLarge);
        }
        Ok(ProgramData { authority, trusted_forwarder, name, symbol, token_counter: 0 })
    }

    /// The counter value the next mint records; overflow is an error, never a
    /// wrap.
    pub fn next_counter(&self) -> (r: Result<u64, ErrorCode>)
        ensures
            r == advance_counter(self.token_counter),
    {
        match self.token_counter.checked_add(1) {
            Some(n) => Ok(n),
            None => Err(ErrorCode::ArithmeticOverflow),
        }
    }
}

/// One creator entry of a token's descriptive record.
#[derive(Clone, Copy, Debug)]
pub struct Creator {
    pub address: Address,
    pub verified: bool,
    pub share: u8,
}

impl View for Creator {
    type V = (Seq<u8>, bool, u8);

    open spec fn view(&self) -> (Seq<u8>, bool, u8) {
        (self.address@, self.verified, self.share)
    }
}

/// The descriptive record registered for a token.
pub struct MetadataRecord {
    pub name: String,
    pub symbol: String,
    pub uri: String,
    pub seller_fee_basis_points: u16,
    pub creators: Vec<Creator>,
    pub update_authority: Address,
    pub is_mutable: bool,
}

pub struct MetadataView {
    pub name: Seq<char>,
    pub symbol: Seq<char>,
    pub uri: Seq<char>,
    pub seller_fee_basis_points: u16,
    pub creators: Seq<(Seq<u8>, bool, u8)>,
    pub update_authority: Seq<u8>,
    pub is_mutable: bool,
}

impl View for MetadataRecord {
    type V = MetadataView;

    open spec fn view(&self) -> MetadataView {
        MetadataView {
            name: self.name@,
            symbol: self.symbol@,
            uri: self.uri@,
            seller_fee_basis_points: self.seller_fee_basis_points,
            creators: self.creators@.map_values(|c: Creator| c@),
            update_authority: self.update_authority@,
            is_mutable: self.is_mutable,
        }
    }
}

/// The record for a new token of `collection`: the collection's name and
/// symbol, the given URI, no royalty, the sender as sole unverified creator
/// with the whole share, and a mutable record under `update_authority`.
pub open spec fn token_metadata(
    collection: CollectionView,
    sender: Seq<u8>,
    update_authority: Seq<u8>,
    uri: Seq<char>,
) -> MetadataView {
    MetadataView {
        name: collection.name,
        symbol: collection.symbol,
        uri,
        seller_fee_basis_points: 0,
        creators: seq![(sender, false, 100u8)],
        update_authority,
        is_mutable: true,
    }
}

/// Builds the descriptive record of a new token of `collection`.
pub fn metadata_for(collection: &ProgramData, sender: &Address, update_authority: &Address, uri: String) -> (r: MetadataRecord)
    ensures
        r@ == token_metadata(collection@, sender@, update_authority@, uri@),
{
    let mut creators: Vec<Creator> = Vec::new();
    creators.push(Creator { address: *sender, verified: false, share: 100 });
    let r = MetadataRecord {
        name: collection.name.clone(),
        symbol: collection.symbol.clone(),
        uri,
        seller_fee_basis_points: 0,
        creators,
        update_authority: *update_authority,
        is_mutable: true,
    };
    assert(r@.creators =~= seq![(sender@, false, 100u8)]);
    r
}

} // verus!
