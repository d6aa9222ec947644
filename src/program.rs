use vstd::prelude::*;

use crate::address::Address;
use crate::error::ErrorCode;
use crate::pda::{
    check_derived, derivation_check, program_address, mint_authority_seed_vec, mint_authority_seeds,
    program_data_seed_vec, program_data_seeds,
};
use crate::state::{
    advance_counter, fits_budget, fresh_collection, metadata_for, token_metadata, CollectionView,
    MetadataRecord, MetadataView, ProgramData,
};

verus! {

/// Accounts declared by a call to `initialize`.
#[derive(Clone, Copy, Debug)]
pub struct Initialize {
    /// The administrative authority; the runtime has verified its signature.
    pub authority: Address,
    /// The relay designated to submit mint calls on behalf of end users.
    pub trusted_forwarder: Address,
    /// Where the collection record is to be created.
    pub program_data: Address,
}

/// Accounts declared by a call to `mint_nft`.
#[derive(Clone, Copy, Debug)]
pub struct MintNFT {
    /// The submitting signer, who pays and becomes the record's update authority.
    pub signer: Address,
    /// The forwarder the caller claims to be relayed by.
    pub trusted_forwarder: Address,
    /// The collection record.
    pub program_data: Address,
    /// The new token, created by this call.
    pub mint: Address,
    /// The owner of the holding account that receives the single unit.
    pub recipient: Address,
    /// The derived authority that signs issuance and registration.
    pub mint_authority: Address,
}

/// A single-unit token created by this program, the holding account that
/// received its unit, and its registered descriptive record.
pub struct MintedToken {
    pub mint: Address,
    pub decimals: u8,
    pub mint_authority: Address,
    pub mint_authority_bump: u8,
    pub holder: Address,
    pub amount: u64,
    pub metadata: MetadataRecord,
}

pub struct TokenView {
    pub mint: Seq<u8>,
    pub decimals: u8,
    pub mint_authority: Seq<u8>,
    pub mint_authority_bump: u8,
    pub holder: Seq<u8>,
    pub amount: u64,
    pub metadata: MetadataView,
}

impl View for MintedToken {
    type V = TokenView;

    open spec fn view(&self) -> TokenView {
        TokenView {
            mint: self.mint@,
            decimals: self.decimals,
            mint_authority: self.mint_authority@,
            mint_authority_bump: self.mint_authority_bump,
            holder: self.holder@,
            amount: self.amount,
            metadata: self.metadata@,
        }
    }
}

/// The persistent state of one deployment: the collection record, once
/// created, and every token minted through it, in order.
pub struct Ledger {
    pub program_id: Address,
    pub program_data: Option<ProgramData>,
    pub tokens: Vec<MintedToken>,
}

pub struct LedgerView {
    pub program_id: Seq<u8>,
    pub program_data: Option<CollectionView>,
    pub tokens: Seq<TokenView>,
}

impl View for Ledger {
    type V = LedgerView;

    open spec fn view(&self) -> LedgerView {
        LedgerView {
            program_id: self.program_id@,
            program_data: match self.program_data {
                Some(d) => Some(d@),
                None => None,
            },
            tokens: self.tokens@.map_values(|t: MintedToken| t@),
        }
    }
}

pub open spec fn is_minted(tokens: Seq<TokenView>, mint: Seq<u8>) -> bool {
    exists|i: int| 0 <= i < tokens.len() && #[trigger] tokens[i].mint == mint
}

pub open spec fn distinct_mints(tokens: Seq<TokenView>) -> bool {
    forall|i: int, j: int|
        0 <= i < tokens.len() && 0 <= j < tokens.len() && i != j
            ==> #[trigger] tokens[i].mint != #[trigger] tokens[j].mint
}

/// Every token's signing authority is the address derived from that token's
/// own address, under the recorded bump.
pub open spec fn authorities_derived(l: LedgerView) -> bool {
    forall|i: int|
        0 <= i < l.tokens.len() ==> program_address(mint_authority_seeds(#[trigger] l.tokens[i].mint), l.program_id)
            == Some((l.tokens[i].mint_authority, l.tokens[i].mint_authority_bump))
}

/// A deployment's state is consistent: no token appears twice, every token's
/// authority is derived from it, and the collection record respects its byte
/// budgets.
pub open spec fn ledger_wf(l: LedgerView) -> bool {
    &&& distinct_mints(l.tokens)
    &&& authorities_derived(l)
    &&& match l.program_data {
        Some(c) => fits_budget(c.name, c.symbol),
        None => true,
    }
}

/// The outcome of `initialize`: budgets are checked first, then the record's
/// address, then that no record exists yet.
pub open spec fn initialize_step(l: LedgerView, ctx: Initialize, name: Seq<char>, symbol: Seq<char>) -> Result<LedgerView, ErrorCode> {
    if !fits_budget(name, symbol) {
        Err(ErrorCode::InputTooLarge)
    } else if derivation_check(program_data_seeds(), l.program_id, ctx.program_data@) is Err {
        Err(ErrorCode::AuthorityMismatch)
    } else if l.program_data is Some {
        Err(ErrorCode::PreconditionViolation)
    } else {
        Ok(LedgerView {
            program_id: l.program_id,
            program_data: Some(fresh_collection(ctx.authority@, ctx.trusted_forwarder@, name, symbol)),
            tokens: l.tokens,
        })
    }
}

/// The token a successful `mint_nft` creates: zero decimals, one unit held by
/// the recipient, and metadata crediting the signer.
pub open spec fn new_token(collection: CollectionView, ctx: MintNFT, bump: u8, uri: Seq<char>) -> TokenView {
    TokenView {
        mint: ctx.mint@,
        decimals: 0,
        mint_authority: ctx.mint_authority@,
        mint_authority_bump: bump,
        holder: ctx.recipient@,
        amount: 1,
        metadata: token_metadata(collection, ctx.signer@, ctx.signer@, uri),
    }
}

/// The outcome of `mint_nft`. It needs the collection record at its derived
/// address, a token address not used before, the authority derived from that
/// token's address, and a counter that can advance; the record and the new
/// token are then written together, or nothing is written.
pub open spec fn mint_step(l: LedgerView, ctx: MintNFT, uri: Seq<char>) -> Result<LedgerView, ErrorCode> {
    match l.program_data {
        None => Err(ErrorCode::PreconditionViolation),
        Some(c) => if derivation_check(program_data_seeds(), l.program_id, ctx.program_data@) is Err {
            Err(ErrorCode::AuthorityMismatch)
        } else if is_minted(l.tokens, ctx.mint@) {
            Err(ErrorCode::PreconditionViolation)
        } else {
            match derivation_check(mint_authority_seeds(ctx.mint@), l.program_id, ctx.mint_authority@) {
                Err(e) => Err(e),
                Ok(bump) => match advance_counter(c.token_counter) {
                    Err(e) => Err(e),
                    Ok(n) => Ok(LedgerView {
                        program_id: l.program_id,
                        program_data: Some(CollectionView { token_counter: n, ..c }),
                        tokens: l.tokens.push(new_token(c, ctx, bump, uri)),
                    }),
                },
            }
        },
    }
}

/// The identity credited as creator of a token. A call relayed by the trusted
/// forwarder would carry its original sender inside the relayed payload; that
/// payload is not decoded, so relayed and direct calls alike credit the
/// transaction signer.
pub fn effective_sender(ctx: &MintNFT) -> (r: Address)
    ensures
        r@ == ctx.signer@,
{
    ctx.signer
}

impl Ledger {
    /// A deployment of `program_id` with no collection record and no tokens.
    pub fn new(program_id: Address) -> (r: Ledger)
        ensures
            r@ == (LedgerView { program_id: program_id@, program_data: None, tokens: Seq::empty() }),
            ledger_wf(r@),
    {
        let r = Ledger { program_id, program_data: None, tokens: Vec::new() };
        assert(r@.tokens =~= Seq::<TokenView>::empty());
        r
    }

    /// Whether a token with address `mint` was already minted here.
    pub fn holds_token(&self, mint: &Address) -> (r: bool)
        ensures
            r == is_minted(self@.tokens, mint@),
    {
        let mut i: usize = 0;
        while i < self.tokens.len()
            invariant
                i <= self.tokens.len(),
                forall|j: int| 0 <= j < i ==> self@.tokens[j].mint != mint@,
            decreases self.tokens.len() - i,
        {
            if self.tokens[i].mint.same_as(mint) {
                assert(self@.tokens[i as int].mint == mint@);
                return true;
            }
            i = i + 1;
        }
        false
    }
}

/// Creates the collection record with a zero counter. Fails with
/// `InputTooLarge` when the name or symbol exceeds its budget,
/// `AuthorityMismatch` when the declared record address is not the derived
/// one, and `PreconditionViolation` when the record already exists; a failed
/// call leaves the deployment unchanged.
pub fn initialize(ledger: &mut Ledger, ctx: &Initialize, name: String, symbol: String) -> (r: Result<(), ErrorCode>)
    ensures
        match initialize_step(old(ledger)@, *ctx, name@, symbol@) {
            Ok(l) => r is Ok && final(ledger)@ == l,
            Err(e) => r == Err::<(), ErrorCode>(e) && final(ledger)@ == old(ledger)@,
        },
        ledger_wf(old(ledger)@) ==> ledger_wf(final(ledger)@),
{
    let data = match ProgramData::new(ctx.authority, ctx.trusted_forwarder, name, symbol) {
        Ok(d) => d,
        Err(e) => return Err(e),
    };
    let seeds = program_data_seed_vec();
    if let Err(e) = check_derived(&ctx.program_data, &seeds, &ledger.program_id) {
        return Err(e);
    }
    if ledger.program_data.is_some() {
        return Err(ErrorCode::PreconditionViolation);
    }
    ledger.program_data = Some(data);
    Ok(())
}

/// Mints one new token: advances the counter by one, issues the single unit
/// to the recipient's holding account and registers the token's descriptive
/// record, all or nothing. The errors and the order in which they are checked
/// are those of `mint_step`.
pub fn mint_nft(ledger: &mut Ledger, ctx: &MintNFT, token_uri: String) -> (r: Result<(), ErrorCode>)
    ensures
        match mint_step(old(ledger)@, *ctx, token_uri@) {
            Ok(l) => r is Ok && final(ledger)@ == l,
            Err(e) => r == Err::<(), ErrorCode>(e) && final(ledger)@ == old(ledger)@,
        },
        ledger_wf(old(ledger)@) ==> ledger_wf(final(ledger)@),
{
    let collection = match &ledger.program_data {
        Some(c) => c,
        None => return Err(ErrorCode::PreconditionViolation),
    };
    let seeds = program_data_seed_vec();
    if let Err(e) = check_derived(&ctx.program_data, &seeds, &ledger.program_id) {
        return Err(e);
    }
    if ledger.holds_token(&ctx.mint) {
        return Err(ErrorCode::PreconditionViolation);
    }
    let authority_seeds = mint_authority_seed_vec(&ctx.mint);
    let bump = match check_derived(&ctx.mint_authority, &authority_seeds, &ledger.program_id) {
        Ok(b) => b,
        Err(e) => return Err(e),
    };
    let next = match collection.next_counter() {
        Ok(n) => n,
        Err(e) => return Err(e),
    };
    let sender = effective_sender(ctx);
    let metadata = metadata_for(collection, &sender, &ctx.signer, token_uri);
    let token = MintedToken {
        mint: ctx.mint,
        decimals: 0,
        mint_authority: ctx.mint_authority,
        mint_authority_bump: bump,
        holder: ctx.recipient,
        amount: 1,
        metadata,
    };
    if let Some(c) = &mut ledger.program_data {
        c.token_counter = next;
    }
    ledger.tokens.push(token);
    assert(final(ledger)@.tokens =~= old(ledger)@.tokens.push(new_token(old(ledger)@.program_data->Some_0, *ctx, bump, token_uri@)));
    Ok(())
}

} // verus!
