use trustify_anchor::address::Address;
use trustify_anchor::error::ErrorCode;
use trustify_anchor::pda::{
    check_derived, find_mint_authority_address, find_program_data_address,
    mint_authority_seed_vec, program_data_seed_vec,
};
use trustify_anchor::program::{effective_sender, initialize, mint_nft, Initialize, Ledger, MintNFT};
use trustify_anchor::state::{metadata_for, text_byte_len, ProgramData};

fn key(b: u8) -> Address {
    Address::new_from_array([b; 32])
}

fn program_id() -> Address {
    key(7)
}

fn init_ctx(admin: Address, forwarder: Address) -> Initialize {
    let (program_data, _) = find_program_data_address(&program_id()).unwrap();
    Initialize { authority: admin, trusted_forwarder: forwarder, program_data }
}

fn mint_ctx(signer: Address, forwarder: Address, mint: Address, recipient: Address) -> MintNFT {
    let (program_data, _) = find_program_data_address(&program_id()).unwrap();
    let (mint_authority, _) = find_mint_authority_address(&mint, &program_id()).unwrap();
    MintNFT { signer, trusted_forwarder: forwarder, program_data, mint, recipient, mint_authority }
}

fn initialized() -> Ledger {
    let mut ledger = Ledger::new(program_id());
    let ctx = init_ctx(key(1), key(2));
    initialize(&mut ledger, &ctx, "Widgets".to_string(), "WDG".to_string()).unwrap();
    ledger
}

fn counter(ledger: &Ledger) -> u64 {
    ledger.program_data.as_ref().unwrap().token_counter
}

#[test]
fn widgets_scenario() {
    let (a, f, s, r) = (key(1), key(2), key(3), key(4));
    let mut ledger = Ledger::new(program_id());
    assert_eq!(initialize(&mut ledger, &init_ctx(a, f), "Widgets".to_string(), "WDG".to_string()), Ok(()));
    let data = ledger.program_data.as_ref().unwrap();
    assert_eq!(data.token_counter, 0);
    assert_eq!(data.authority.bytes, a.bytes);
    assert_eq!(data.trusted_forwarder.bytes, f.bytes);

    let mint = key(10);
    let ctx = mint_ctx(s, f, mint, r);
    assert_eq!(mint_nft(&mut ledger, &ctx, "ipfs://abc".to_string()), Ok(()));
    assert_eq!(counter(&ledger), 1);
    assert_eq!(ledger.tokens.len(), 1);
    let token = &ledger.tokens[0];
    assert_eq!(token.mint.bytes, mint.bytes);
    assert_eq!(token.holder.bytes, r.bytes);
    assert_eq!(token.amount, 1);
    assert_eq!(token.decimals, 0);
    assert_eq!(token.mint_authority.bytes, ctx.mint_authority.bytes);
    assert_eq!(token.metadata.name, "Widgets");
    assert_eq!(token.metadata.symbol, "WDG");
    assert_eq!(token.metadata.uri, "ipfs://abc");
    assert_eq!(token.metadata.seller_fee_basis_points, 0);
    assert_eq!(token.metadata.creators.len(), 1);
    assert_eq!(token.metadata.creators[0].address.bytes, s.bytes);
    assert_eq!(token.metadata.creators[0].share, 100);
    assert!(!token.metadata.creators[0].verified);
    assert_eq!(token.metadata.update_authority.bytes, s.bytes);
    assert!(token.metadata.is_mutable);
}

#[test]
fn second_initialize_fails_and_keeps_first_values() {
    let mut ledger = initialized();
    let again = init_ctx(key(5), key(6));
    assert_eq!(
        initialize(&mut ledger, &again, "Other".to_string(), "OTH".to_string()),
        Err(ErrorCode::PreconditionViolation)
    );
    let data = ledger.program_data.as_ref().unwrap();
    assert_eq!(data.name, "Widgets");
    assert_eq!(data.symbol, "WDG");
    assert_eq!(data.authority.bytes, key(1).bytes);
    assert_eq!(data.trusted_forwarder.bytes, key(2).bytes);
    assert_eq!(data.token_counter, 0);
}

#[test]
fn oversized_name_is_rejected() {
    let mut ledger = Ledger::new(program_id());
    let name = "n".repeat(51);
    assert_eq!(
        initialize(&mut ledger, &init_ctx(key(1), key(2)), name, "WDG".to_string()),
        Err(ErrorCode::InputTooLarge)
    );
    assert!(ledger.program_data.is_none());
}

#[test]
fn oversized_symbol_is_rejected() {
    let mut ledger = Ledger::new(program_id());
    let symbol = "S".repeat(11);
    assert_eq!(
        initialize(&mut ledger, &init_ctx(key(1), key(2)), "Widgets".to_string(), symbol),
        Err(ErrorCode::InputTooLarge)
    );
    assert!(ledger.program_data.is_none());
}

#[test]
fn budget_counts_bytes_not_characters() {
    let mut ledger = Ledger::new(program_id());
    // 26 characters, 52 bytes.
    let name = "\u{e9}".repeat(26);
    assert_eq!(
        initialize(&mut ledger, &init_ctx(key(1), key(2)), name, "WDG".to_string()),
        Err(ErrorCode::InputTooLarge)
    );
    assert!(ledger.program_data.is_none());
}

#[test]
fn budgets_at_their_limit_are_accepted() {
    let mut ledger = Ledger::new(program_id());
    let name = "n".repeat(50);
    let symbol = "S".repeat(10);
    assert_eq!(initialize(&mut ledger, &init_ctx(key(1), key(2)), name.clone(), symbol.clone()), Ok(()));
    let data = ledger.program_data.as_ref().unwrap();
    assert_eq!(data.name, name);
    assert_eq!(data.symbol, symbol);
}

#[test]
fn initialize_at_wrong_address_is_refused() {
    let mut ledger = Ledger::new(program_id());
    let ctx = Initialize { authority: key(1), trusted_forwarder: key(2), program_data: key(9) };
    assert_eq!(
        initialize(&mut ledger, &ctx, "Widgets".to_string(), "WDG".to_string()),
        Err(ErrorCode::AuthorityMismatch)
    );
    assert!(ledger.program_data.is_none());
}

#[test]
fn counter_equals_number_of_mints() {
    let mut ledger = initialized();
    for i in 0..5u8 {
        let ctx = mint_ctx(key(3), key(2), key(20 + i), key(4));
        assert_eq!(mint_nft(&mut ledger, &ctx, format!("ipfs://{}", i)), Ok(()));
    }
    assert_eq!(counter(&ledger), 5);
    assert_eq!(ledger.tokens.len(), 5);
    for i in 0..5 {
        for j in 0..5 {
            if i != j {
                assert_ne!(ledger.tokens[i].mint.bytes, ledger.tokens[j].mint.bytes);
            }
        }
        assert_eq!(ledger.tokens[i].metadata.uri, format!("ipfs://{}", i));
    }
}

#[test]
fn mint_at_counter_max_overflows() {
    let mut ledger = initialized();
    ledger.program_data.as_mut().unwrap().token_counter = u64::MAX;
    let ctx = mint_ctx(key(3), key(2), key(10), key(4));
    assert_eq!(mint_nft(&mut ledger, &ctx, "ipfs://abc".to_string()), Err(ErrorCode::ArithmeticOverflow));
    assert_eq!(counter(&ledger), u64::MAX);
    assert!(ledger.tokens.is_empty());
}

#[test]
fn reusing_a_token_address_fails() {
    let mut ledger = initialized();
    let ctx = mint_ctx(key(3), key(2), key(10), key(4));
    assert_eq!(mint_nft(&mut ledger, &ctx, "ipfs://abc".to_string()), Ok(()));
    let other = mint_ctx(key(5), key(2), key(10), key(6));
    assert_eq!(mint_nft(&mut ledger, &other, "ipfs://def".to_string()), Err(ErrorCode::PreconditionViolation));
    assert_eq!(counter(&ledger), 1);
    assert_eq!(ledger.tokens.len(), 1);
    assert_eq!(ledger.tokens[0].holder.bytes, key(4).bytes);
    assert_eq!(ledger.tokens[0].amount, 1);
}

#[test]
fn mint_before_initialize_fails() {
    let mut ledger = Ledger::new(program_id());
    let ctx = mint_ctx(key(3), key(2), key(10), key(4));
    assert_eq!(mint_nft(&mut ledger, &ctx, "ipfs://abc".to_string()), Err(ErrorCode::PreconditionViolation));
    assert!(ledger.tokens.is_empty());
}

#[test]
fn mint_with_foreign_authority_is_refused() {
    let mut ledger = initialized();
    let mut ctx = mint_ctx(key(3), key(2), key(10), key(4));
    // The authority derived for another token does not sign for this one.
    ctx.mint_authority = find_mint_authority_address(&key(11), &program_id()).unwrap().0;
    assert_eq!(mint_nft(&mut ledger, &ctx, "ipfs://abc".to_string()), Err(ErrorCode::AuthorityMismatch));
    assert_eq!(counter(&ledger), 0);
    assert!(ledger.tokens.is_empty());
}

#[test]
fn mint_with_wrong_collection_address_is_refused() {
    let mut ledger = initialized();
    let mut ctx = mint_ctx(key(3), key(2), key(10), key(4));
    ctx.program_data = key(9);
    assert_eq!(mint_nft(&mut ledger, &ctx, "ipfs://abc".to_string()), Err(ErrorCode::AuthorityMismatch));
    assert_eq!(counter(&ledger), 0);
}

#[test]
fn relayed_and_direct_mints_credit_the_signer() {
    let mut ledger = initialized();
    let relayed = mint_ctx(key(3), key(2), key(10), key(4));
    let direct = mint_ctx(key(3), key(8), key(11), key(4));
    assert_eq!(effective_sender(&relayed).bytes, key(3).bytes);
    assert_eq!(effective_sender(&direct).bytes, key(3).bytes);
    assert_eq!(mint_nft(&mut ledger, &relayed, "a".to_string()), Ok(()));
    assert_eq!(mint_nft(&mut ledger, &direct, "b".to_string()), Ok(()));
    assert_eq!(ledger.tokens[0].metadata.creators[0].address.bytes, key(3).bytes);
    assert_eq!(ledger.tokens[1].metadata.creators[0].address.bytes, key(3).bytes);
}

#[test]
fn mint_authority_is_deterministic_and_distinct() {
    let a1 = find_mint_authority_address(&key(10), &program_id()).unwrap();
    let a2 = find_mint_authority_address(&key(10), &program_id()).unwrap();
    let b = find_mint_authority_address(&key(11), &program_id()).unwrap();
    assert_eq!(a1.0.bytes, a2.0.bytes);
    assert_eq!(a1.1, a2.1);
    assert_ne!(a1.0.bytes, b.0.bytes);
    assert_ne!(a1.0.bytes, key(10).bytes);
}

#[test]
fn derived_addresses_are_not_their_inputs() {
    let (data, bump) = find_program_data_address(&program_id()).unwrap();
    assert_ne!(data.bytes, program_id().bytes);
    assert_eq!(check_derived(&data, &program_data_seed_vec(), &program_id()), Ok(bump));
    assert_eq!(
        check_derived(&program_id(), &program_data_seed_vec(), &program_id()),
        Err(ErrorCode::AuthorityMismatch)
    );
    let (collection_under_other_id, _) = find_program_data_address(&key(8)).unwrap();
    assert_ne!(data.bytes, collection_under_other_id.bytes);
}

#[test]
fn seeds_carry_labels_and_token_address() {
    assert_eq!(program_data_seed_vec(), vec![b"program_data".to_vec()]);
    assert_eq!(mint_authority_seed_vec(&key(10)), vec![b"mint_authority".to_vec(), vec![10u8; 32]]);
}

#[test]
fn counter_advances_by_one() {
    let data = ProgramData::new(key(1), key(2), "W".to_string(), "W".to_string()).unwrap();
    assert_eq!(data.token_counter, 0);
    assert_eq!(data.next_counter(), Ok(1));
    let full = ProgramData { token_counter: u64::MAX - 1, ..data };
    assert_eq!(full.next_counter(), Ok(u64::MAX));
}

#[test]
fn text_length_is_counted_in_bytes() {
    assert_eq!(text_byte_len(&"WDG".to_string()), 3);
    assert_eq!(text_byte_len(&"\u{e9}t\u{e9}".to_string()), 5);
    assert_eq!(text_byte_len(&String::new()), 0);
}

#[test]
fn metadata_copies_collection_text() {
    let data = ProgramData::new(key(1), key(2), "Widgets".to_string(), "WDG".to_string()).unwrap();
    let record = metadata_for(&data, &key(3), &key(5), "ipfs://x".to_string());
    assert_eq!(record.name, "Widgets");
    assert_eq!(record.symbol, "WDG");
    assert_eq!(record.uri, "ipfs://x");
    assert_eq!(record.creators[0].address.bytes, key(3).bytes);
    assert_eq!(record.update_authority.bytes, key(5).bytes);
}
