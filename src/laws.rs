//! Properties of the deployment as a whole, over sequences of calls.

use vstd::prelude::*;

use crate::error::ErrorCode;
use crate::pda::{derivation_check, mint_authority_seeds, program_address, program_data_seeds};
use crate::program::{
    distinct_mints, initialize_step, ledger_wf, mint_step, Initialize, LedgerView, MintNFT,
};
use crate::state::{byte_len, fresh_collection, MAX_NAME_LEN, MAX_SYMBOL_LEN};

verus! {

/// Once the collection record exists, a second creation with valid inputs
/// fails with `PreconditionViolation`; the record keeps the first call's
/// values.
pub proof fn initialize_only_once(
    l: LedgerView,
    first: Initialize,
    name: Seq<char>,
    symbol: Seq<char>,
    second: Initialize,
    name2: Seq<char>,
    symbol2: Seq<char>,
)
    requires
        initialize_step(l, first, name, symbol) is Ok,
        byte_len(name2) <= MAX_NAME_LEN,
        byte_len(symbol2) <= MAX_SYMBOL_LEN,
        derivation_check(program_data_seeds(), l.program_id, second.program_data@) is Ok,
    ensures
        ({
            let l1 = initialize_step(l, first, name, symbol)->Ok_0;
            &&& l1.program_data == Some(fresh_collection(first.authority@, first.trusted_forwarder@, name, symbol))
            &&& initialize_step(l1, second, name2, symbol2) == Err::<LedgerView, ErrorCode>(ErrorCode::PreconditionViolation)
        }),
{
}

/// A name or symbol longer than its reserved budget is refused with
/// `InputTooLarge`, whatever the state of the deployment.
pub proof fn oversized_text_rejected(l: LedgerView, ctx: Initialize, name: Seq<char>, symbol: Seq<char>)
    requires
        byte_len(name) > MAX_NAME_LEN || byte_len(symbol) > MAX_SYMBOL_LEN,
    ensures
        initialize_step(l, ctx, name, symbol) == Err::<LedgerView, ErrorCode>(ErrorCode::InputTooLarge),
{
}

/// The state after running the mint calls `calls` in order, or the first
/// error.
pub open spec fn mint_all(l: LedgerView, calls: Seq<(MintNFT, Seq<char>)>) -> Result<LedgerView, ErrorCode>
    decreases calls.len(),
{
    if calls.len() == 0 {
        Ok(l)
    } else {
        match mint_all(l, calls.drop_last()) {
            Ok(m) => mint_step(m, calls.last().0, calls.last().1),
            Err(e) => Err(e),
        }
    }
}

/// After N successful mints the counter has advanced by exactly N and N new
/// tokens exist, pairwise distinct and in call order; the tokens that existed
/// before are untouched. From a fresh record the counter equals N.
pub proof fn counter_counts_mints(l: LedgerView, calls: Seq<(MintNFT, Seq<char>)>)
    requires
        ledger_wf(l),
        l.program_data is Some,
        mint_all(l, calls) is Ok,
    ensures
        ({
            let m = mint_all(l, calls)->Ok_0;
            &&& m.program_data is Some
            &&& m.program_data->Some_0.token_counter == l.program_data->Some_0.token_counter + calls.len()
            &&& m.tokens.len() == l.tokens.len() + calls.len()
            &&& m.tokens.subrange(0, l.tokens.len() as int) == l.tokens
            &&& forall|i: int| 0 <= i < calls.len() ==> #[trigger] m.tokens[l.tokens.len() + i].mint == calls[i].0.mint@
            &&& distinct_mints(m.tokens)
            &&& ledger_wf(m)
        }),
    decreases calls.len(),
{
    if calls.len() > 0 {
        let prefix = calls.drop_last();
        counter_counts_mints(l, prefix);
        let p = mint_all(l, prefix)->Ok_0;
        let m = mint_all(l, calls)->Ok_0;
        minted_unit_held_by_recipient(p, calls.last().0, calls.last().1);
        assert(m.tokens.subrange(0, l.tokens.len() as int) =~= l.tokens) by {
            assert(m.tokens.subrange(0, p.tokens.len() as int) == p.tokens);
            assert(p.tokens.subrange(0, l.tokens.len() as int) == l.tokens);
        }
        assert forall|i: int| 0 <= i < calls.len() implies #[trigger] m.tokens[l.tokens.len() + i].mint
            == calls[i].0.mint@ by {
            if i < prefix.len() {
                assert(prefix[i] == calls[i]);
                assert(m.tokens[l.tokens.len() + i] == p.tokens[l.tokens.len() + i]);
            }
        }
    } else {
        assert(l.tokens.subrange(0, l.tokens.len() as int) =~= l.tokens);
    }
}

/// A successful mint appends exactly one token: its one unit is held by the
/// declared recipient, no other record carries that token, and every earlier
/// token is left as it was.
pub proof fn minted_unit_held_by_recipient(l: LedgerView, ctx: MintNFT, uri: Seq<char>)
    requires
        ledger_wf(l),
        mint_step(l, ctx, uri) is Ok,
    ensures
        ({
            let m = mint_step(l, ctx, uri)->Ok_0;
            let k = l.tokens.len() as int;
            &&& m.tokens.len() == k + 1
            &&& m.tokens[k].mint == ctx.mint@
            &&& m.tokens[k].holder == ctx.recipient@
            &&& m.tokens[k].amount == 1
            &&& m.tokens[k].decimals == 0
            &&& forall|j: int| 0 <= j < m.tokens.len() && #[trigger] m.tokens[j].mint == ctx.mint@ ==> j == k
            &&& m.tokens.subrange(0, k) == l.tokens
            &&& m.program_data is Some
            &&& m.program_data->Some_0.token_counter == l.program_data->Some_0.token_counter + 1
            &&& ledger_wf(m)
        }),
{
    let m = mint_step(l, ctx, uri)->Ok_0;
    let k = l.tokens.len() as int;
    assert(m.tokens.subrange(0, k) =~= l.tokens);
    assert forall|j: int| 0 <= j < m.tokens.len() && #[trigger] m.tokens[j].mint == ctx.mint@ implies j == k by {
        if j < k {
            assert(l.tokens[j].mint == ctx.mint@);
        }
    }
}

/// A token address that was minted once cannot be minted again.
pub proof fn reused_mint_rejected(l: LedgerView, first: MintNFT, uri: Seq<char>, second: MintNFT, uri2: Seq<char>)
    requires
        ledger_wf(l),
        mint_step(l, first, uri) is Ok,
        second.mint@ == first.mint@,
    ensures
        mint_step(mint_step(l, first, uri)->Ok_0, second, uri2) is Err,
        derivation_check(program_data_seeds(), l.program_id, second.program_data@) is Ok
            ==> mint_step(mint_step(l, first, uri)->Ok_0, second, uri2)
                == Err::<LedgerView, ErrorCode>(ErrorCode::PreconditionViolation),
{
    let m = mint_step(l, first, uri)->Ok_0;
    assert(m.tokens[l.tokens.len() as int].mint == second.mint@);
}

/// The signing authority of a token is a function of the token's address:
/// the same address always yields the same authority and bump, and distinct
/// addresses are derived from distinct seeds.
pub proof fn mint_authority_derivation(mint1: Seq<u8>, mint2: Seq<u8>, program_id: Seq<u8>)
    ensures
        mint1 == mint2 ==> program_address(mint_authority_seeds(mint1), program_id)
            == program_address(mint_authority_seeds(mint2), program_id),
        mint1 != mint2 ==> mint_authority_seeds(mint1) != mint_authority_seeds(mint2),
{
    if mint1 != mint2 {
        assert(mint_authority_seeds(mint1)[1] != mint_authority_seeds(mint2)[1]);
    }
}

} // verus!
