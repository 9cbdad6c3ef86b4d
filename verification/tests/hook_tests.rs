use anchor_lang::prelude::Pubkey;
use spl_tlv_account_resolution::account::ExtraAccountMeta;
use spl_tlv_account_resolution::seeds::Seed as OutsideSeed;
use spl_transfer_hook_interface::instruction::TransferHookInstruction;
use transfer_hook::address::Address;
use transfer_hook::config::{
    check_config_address, initialize_hook_config, initialize_hook_config_at,
    update_winner_wallet, ConfigSlot,
    HookConfig, InitializeHookConfig, UpdateWinnerWallet,
};
use transfer_hook::error::HookError;
use transfer_hook::fallback::{
    collect_accounts, decode, dispatch, fallback, instruction_amount, AccountData, AccountRecord,
    HookInstruction,
};
use transfer_hook::hook::{
    check_accounts, fee_for, move_fee, run_hook, transfer_hook, ConfigAccount, Mint,
    TokenAccount, TransferHook,
};
use transfer_hook::pda::{
    config_address, config_address_with_bump, extra_account_metas_label_bytes,
    hook_config_label_bytes, meta_list_address, winner_token_label_bytes,
};
use transfer_hook::resolution::{
    derive_extra_accounts, initialize_extra_account_meta_list,
    initialize_extra_account_meta_list_at, publish, InitializeExtraAccountMetaList, MetaListSlot,
};

fn addr(n: u8) -> Address {
    Address::new([n; 32])
}

fn program() -> Address {
    addr(200)
}

fn key(a: &Address) -> Pubkey {
    Pubkey::new_from_array(a.to_bytes())
}

fn config_pda() -> (Address, u8) {
    let (k, bump) = Pubkey::find_program_address(&[b"hook-config"], &key(&program()));
    (Address::new(k.to_bytes()), bump)
}

fn list_pda(mint: &Address) -> (Address, u8) {
    let (k, bump) = Pubkey::find_program_address(
        &[b"extra-account-metas", &mint.to_bytes()],
        &key(&program()),
    );
    (Address::new(k.to_bytes()), bump)
}

fn token(address: u8, mint: u8, authority: u8, amount: u64) -> TokenAccount {
    TokenAccount {
        address: addr(address),
        mint: addr(mint),
        authority: addr(authority),
        amount,
        frozen: false,
    }
}

/// Source 1, mint 2, destination 3, owner 4, winner 7: an invocation that the
/// hook accepts.
fn valid_ctx(source_amount: u64, winner_amount: u64) -> TransferHook {
    let (config_address, bump) = config_pda();
    TransferHook {
        source_token: token(1, 2, 4, source_amount),
        mint: Mint { address: addr(2), decimals: 6 },
        destination_token: token(3, 2, 5, 0),
        owner: addr(4),
        extra_account_meta_list: list_pda(&addr(2)).0,
        hook_config: ConfigAccount {
            address: config_address,
            config: HookConfig { authority: addr(9), winner_wallet: addr(7), bump },
        },
        winner_token_account: token(7, 2, 8, winner_amount),
        token_program: addr(10),
    }
}

fn raw_accounts(ctx: &TransferHook) -> Vec<AccountRecord> {
    let tok = |t: &TokenAccount| AccountRecord {
        address: t.address,
        data: AccountData::Token {
            mint: t.mint,
            authority: t.authority,
            amount: t.amount,
            frozen: t.frozen,
        },
    };
    vec![
        tok(&ctx.source_token),
        AccountRecord {
            address: ctx.mint.address,
            data: AccountData::Mint { decimals: ctx.mint.decimals },
        },
        tok(&ctx.destination_token),
        AccountRecord { address: ctx.owner, data: AccountData::Other },
        AccountRecord { address: ctx.extra_account_meta_list, data: AccountData::Other },
        AccountRecord {
            address: ctx.hook_config.address,
            data: AccountData::Config { config: ctx.hook_config.config },
        },
        tok(&ctx.winner_token_account),
        AccountRecord { address: ctx.token_program, data: AccountData::Other },
    ]
}

fn execute_payload(amount: u64) -> Vec<u8> {
    TransferHookInstruction::Execute { amount }.pack()
}

#[test]
fn address_same_compares_bytes() {
    let mut bytes = [3u8; 32];
    assert!(addr(3).same(&Address::new(bytes)));
    bytes[31] = 4;
    assert!(!addr(3).same(&Address::new(bytes)));
    assert_eq!(Address::new(bytes).to_vec(), bytes.to_vec());
    assert_eq!(Address::new(bytes).to_bytes(), bytes);
}

#[test]
fn labels_are_the_documented_strings() {
    assert_eq!(hook_config_label_bytes(), b"hook-config".to_vec());
    assert_eq!(winner_token_label_bytes(), b"winner-token".to_vec());
    assert_eq!(extra_account_metas_label_bytes(), b"extra-account-metas".to_vec());
}

#[test]
fn derived_addresses_match_the_host() {
    assert_eq!(config_address(&program()), Some(config_pda()));
    let (address, bump) = config_pda();
    assert_eq!(config_address_with_bump(&program(), bump), Some(address));
    assert_eq!(meta_list_address(&program(), &addr(2)), Some(list_pda(&addr(2))));
    assert_ne!(meta_list_address(&program(), &addr(3)), Some(list_pda(&addr(2))));
    assert_ne!(config_address(&addr(201)), Some(config_pda()));
}

#[test]
fn stored_bump_must_be_the_derived_one() {
    let (address, bump) = config_pda();
    let other = config_address_with_bump(&program(), bump.wrapping_sub(1));
    assert_ne!(other, Some(address));
}

#[test]
fn fee_is_a_hundredth_rounded_down() {
    assert_eq!(fee_for(0), 0);
    assert_eq!(fee_for(99), 0);
    assert_eq!(fee_for(100), 1);
    assert_eq!(fee_for(199), 1);
    assert_eq!(fee_for(250), 2);
    assert_eq!(fee_for(1_000_000), 10_000);
    assert_eq!(fee_for(u64::MAX), 184_467_440_737_095_516);
}

#[test]
fn small_transfer_moves_no_fee() {
    for amount in [0u64, 1, 50, 99] {
        let mut ctx = valid_ctx(500, 20);
        let before = ctx;
        assert_eq!(transfer_hook(&program(), &mut ctx, amount), Ok(0));
        assert_eq!(ctx, before);
    }
}

#[test]
fn small_transfer_passes_with_empty_source() {
    let mut ctx = valid_ctx(0, 0);
    assert_eq!(transfer_hook(&program(), &mut ctx, 99), Ok(0));
}

#[test]
fn fee_moves_from_source_to_winner() {
    let mut ctx = valid_ctx(5_000, 20);
    assert_eq!(transfer_hook(&program(), &mut ctx, 1_234), Ok(12));
    assert_eq!(ctx.source_token.amount, 4_988);
    assert_eq!(ctx.winner_token_account.amount, 32);
    assert_eq!(ctx.destination_token.amount, 0);
    let mut at_threshold = valid_ctx(1, 0);
    assert_eq!(transfer_hook(&program(), &mut at_threshold, 100), Ok(1));
    assert_eq!(at_threshold.source_token.amount, 0);
    assert_eq!(at_threshold.winner_token_account.amount, 1);
}

#[test]
fn transfer_ctx_names_the_fee_accounts() {
    let ctx = valid_ctx(5_000, 20);
    let cpi = ctx.transfer_ctx();
    assert_eq!(cpi.from, addr(1));
    assert_eq!(cpi.mint, addr(2));
    assert_eq!(cpi.to, addr(7));
    assert_eq!(cpi.authority, addr(4));
}

#[test]
fn wrong_winner_is_rejected_without_movement() {
    let mut ctx = valid_ctx(5_000, 20);
    ctx.winner_token_account.address = addr(11);
    let before = ctx;
    assert_eq!(transfer_hook(&program(), &mut ctx, 1_000), Err(HookError::ConstraintViolation));
    assert_eq!(ctx, before);
}

#[test]
fn each_constraint_is_checked() {
    let accepted = valid_ctx(5_000, 20);
    let list = Some(list_pda(&addr(2)));
    let config = Some(config_pda().0);
    assert_eq!(check_accounts(&accepted, &list, &config), Ok(()));

    let mut ctx = accepted;
    ctx.source_token.mint = addr(12);
    assert_eq!(check_accounts(&ctx, &list, &config), Err(HookError::ConstraintViolation));
    let mut ctx = accepted;
    ctx.destination_token.mint = addr(12);
    assert_eq!(check_accounts(&ctx, &list, &config), Err(HookError::ConstraintViolation));
    let mut ctx = accepted;
    ctx.owner = addr(12);
    assert_eq!(check_accounts(&ctx, &list, &config), Err(HookError::ConstraintViolation));
    let mut ctx = accepted;
    ctx.extra_account_meta_list = addr(12);
    assert_eq!(check_accounts(&ctx, &list, &config), Err(HookError::ConstraintViolation));
    let mut ctx = accepted;
    ctx.hook_config.address = addr(12);
    assert_eq!(check_accounts(&ctx, &list, &config), Err(HookError::ConstraintViolation));
    let mut ctx = accepted;
    ctx.winner_token_account.mint = addr(12);
    assert_eq!(check_accounts(&ctx, &list, &config), Err(HookError::ConstraintViolation));
    assert_eq!(check_accounts(&accepted, &None, &config), Err(HookError::ConstraintViolation));
    assert_eq!(check_accounts(&accepted, &list, &None), Err(HookError::ConstraintViolation));
}

#[test]
fn wrong_stored_bump_is_rejected() {
    let mut ctx = valid_ctx(5_000, 20);
    ctx.hook_config.config.bump = ctx.hook_config.config.bump.wrapping_sub(1);
    assert_eq!(transfer_hook(&program(), &mut ctx, 1_000), Err(HookError::ConstraintViolation));
}

#[test]
fn failed_movement_fails_the_hook() {
    let mut poor = valid_ctx(9, 20);
    let before = poor;
    assert_eq!(transfer_hook(&program(), &mut poor, 1_000), Err(HookError::TransferFailure));
    assert_eq!(poor, before);

    let mut frozen = valid_ctx(5_000, 20);
    frozen.source_token.frozen = true;
    assert_eq!(transfer_hook(&program(), &mut frozen, 1_000), Err(HookError::TransferFailure));
    let mut frozen = valid_ctx(5_000, 20);
    frozen.winner_token_account.frozen = true;
    assert_eq!(transfer_hook(&program(), &mut frozen, 1_000), Err(HookError::TransferFailure));

    let mut full = valid_ctx(5_000, u64::MAX - 5);
    assert_eq!(transfer_hook(&program(), &mut full, 1_000), Err(HookError::TransferFailure));
    assert_eq!(full.winner_token_account.amount, u64::MAX - 5);
}

#[test]
fn movement_to_the_same_account_keeps_the_balance() {
    let mut ctx = valid_ctx(5_000, 5_000);
    ctx.winner_token_account = ctx.source_token;
    assert_eq!(move_fee(&mut ctx, 10), Ok(()));
    assert_eq!(ctx.source_token.amount, 5_000);
    assert_eq!(ctx.winner_token_account.amount, 5_000);
}

#[test]
fn run_hook_takes_the_derivations_as_given() {
    let mut ctx = valid_ctx(5_000, 20);
    ctx.extra_account_meta_list = addr(40);
    ctx.hook_config.address = addr(41);
    let r = run_hook(&mut ctx, &Some((addr(40), 255)), &Some(addr(41)), 300);
    assert_eq!(r, Ok(3));
    assert_eq!(ctx.source_token.amount, 4_997);
    assert_eq!(ctx.winner_token_account.amount, 23);
}

#[test]
fn initialize_creates_the_record_once() {
    let (address, bump) = config_pda();
    let mut ctx = InitializeHookConfig {
        hook_config: ConfigSlot { address, record: None },
        payer: addr(30),
    };
    assert_eq!(initialize_hook_config(&program(), &mut ctx, addr(9), addr(7)), Ok(()));
    let record = HookConfig { authority: addr(9), winner_wallet: addr(7), bump };
    assert_eq!(ctx.hook_config.record, Some(record));
    assert_eq!(ctx.payer, addr(30));

    assert_eq!(
        initialize_hook_config(&program(), &mut ctx, addr(31), addr(32)),
        Err(HookError::AlreadyInitialized)
    );
    assert_eq!(ctx.hook_config.record, Some(record));
}

#[test]
fn initialize_rejects_another_address() {
    let mut ctx = InitializeHookConfig {
        hook_config: ConfigSlot { address: addr(33), record: None },
        payer: addr(30),
    };
    assert_eq!(
        initialize_hook_config(&program(), &mut ctx, addr(9), addr(7)),
        Err(HookError::ConstraintViolation)
    );
    assert_eq!(ctx.hook_config.record, None);
    assert_eq!(
        initialize_hook_config_at(&mut ctx, &None, addr(9), addr(7)),
        Err(HookError::ConstraintViolation)
    );
    assert_eq!(initialize_hook_config_at(&mut ctx, &Some((addr(33), 254)), addr(9), addr(7)), Ok(()));
    assert_eq!(ctx.hook_config.record.map(|r| r.bump), Some(254));
}

#[test]
fn record_length_is_fixed() {
    assert_eq!(HookConfig::LEN, 73);
}

#[test]
fn update_winner_needs_the_authority() {
    let config = HookConfig { authority: addr(9), winner_wallet: addr(7), bump: 250 };
    let mut stranger = UpdateWinnerWallet { hook_config: config, authority: addr(8) };
    assert_eq!(update_winner_wallet(&mut stranger, addr(50)), Err(HookError::Unauthorized));
    assert_eq!(stranger.hook_config, config);

    let mut owner = UpdateWinnerWallet { hook_config: config, authority: addr(9) };
    assert_eq!(update_winner_wallet(&mut owner, addr(50)), Ok(addr(7)));
    assert_eq!(
        owner.hook_config,
        HookConfig { authority: addr(9), winner_wallet: addr(50), bump: 250 }
    );
}

#[test]
fn updated_winner_receives_the_fee() {
    let mut ctx = valid_ctx(5_000, 20);
    let mut update =
        UpdateWinnerWallet { hook_config: ctx.hook_config.config, authority: addr(9) };
    assert_eq!(update_winner_wallet(&mut update, addr(60)), Ok(addr(7)));
    ctx.hook_config.config = update.hook_config;

    let mut to_old = ctx;
    assert_eq!(
        transfer_hook(&program(), &mut to_old, 1_000),
        Err(HookError::ConstraintViolation)
    );
    assert_eq!(to_old.winner_token_account.amount, 20);

    let mut to_new = ctx;
    to_new.winner_token_account = token(60, 2, 8, 0);
    assert_eq!(transfer_hook(&program(), &mut to_new, 1_000), Ok(10));
    assert_eq!(to_new.winner_token_account.amount, 10);
}

fn expected_config_meta() -> [u8; 32] {
    let mut bytes = [0u8; 32];
    bytes[0] = 1;
    bytes[1] = 11;
    bytes[2..13].copy_from_slice(b"hook-config");
    bytes
}

fn expected_winner_meta() -> [u8; 32] {
    let mut bytes = [0u8; 32];
    bytes[0] = 1;
    bytes[1] = 12;
    bytes[2..14].copy_from_slice(b"winner-token");
    bytes[14] = 3;
    bytes[15] = 2;
    bytes
}

#[test]
fn extra_accounts_are_the_two_descriptors() {
    let metas = derive_extra_accounts(&addr(2));
    assert_eq!(metas.len(), 2);
    assert_eq!(metas[0].discriminator, 1);
    assert_eq!(metas[0].address_config, expected_config_meta());
    assert!(!metas[0].is_signer);
    assert!(metas[0].is_writable);
    assert_eq!(metas[1].discriminator, 1);
    assert_eq!(metas[1].address_config, expected_winner_meta());
    assert!(!metas[1].is_signer);
    assert!(metas[1].is_writable);
}

#[test]
fn extra_accounts_match_the_resolution_crate() {
    let metas = derive_extra_accounts(&addr(2));
    let first = ExtraAccountMeta::new_with_seeds(
        &[OutsideSeed::Literal { bytes: b"hook-config".to_vec() }],
        false,
        true,
    )
    .unwrap();
    let second = ExtraAccountMeta::new_with_seeds(
        &[
            OutsideSeed::Literal { bytes: b"winner-token".to_vec() },
            OutsideSeed::AccountKey { index: 2 },
        ],
        false,
        true,
    )
    .unwrap();
    assert_eq!(metas[0].address_config, first.address_config);
    assert_eq!(metas[1].address_config, second.address_config);
    assert_eq!(metas[1].discriminator, second.discriminator);
}

#[test]
fn derivation_is_deterministic() {
    assert_eq!(derive_extra_accounts(&addr(2)), derive_extra_accounts(&addr(2)));
    assert_eq!(derive_extra_accounts(&addr(2)), derive_extra_accounts(&addr(3)));
}

fn expected_list_bytes() -> Vec<u8> {
    let mut bytes = vec![105u8, 37, 101, 197, 75, 251, 102, 26];
    bytes.extend_from_slice(&74u32.to_le_bytes());
    bytes.extend_from_slice(&2u32.to_le_bytes());
    bytes.push(1);
    bytes.extend_from_slice(&expected_config_meta());
    bytes.extend_from_slice(&[0, 1]);
    bytes.push(1);
    bytes.extend_from_slice(&expected_winner_meta());
    bytes.extend_from_slice(&[0, 1]);
    bytes
}

fn list_ctx() -> InitializeExtraAccountMetaList {
    let (config_address, bump) = config_pda();
    InitializeExtraAccountMetaList {
        payer: addr(30),
        extra_account_meta_list: MetaListSlot { address: list_pda(&addr(2)).0, data: None },
        mint: Mint { address: addr(2), decimals: 6 },
        hook_config: ConfigAccount {
            address: config_address,
            config: HookConfig { authority: addr(9), winner_wallet: addr(7), bump },
        },
    }
}

#[test]
fn list_is_published_once_with_exact_size() {
    let mut ctx = list_ctx();
    assert_eq!(initialize_extra_account_meta_list(&program(), &mut ctx), Ok(()));
    let data = ctx.extra_account_meta_list.data.clone().unwrap();
    assert_eq!(data.len(), 86);
    assert_eq!(data, expected_list_bytes());

    let before = ctx.clone();
    assert_eq!(
        initialize_extra_account_meta_list(&program(), &mut ctx),
        Err(HookError::AlreadyPublished)
    );
    assert_eq!(ctx, before);
}

#[test]
fn list_is_published_only_at_its_address() {
    let mut ctx = list_ctx();
    ctx.extra_account_meta_list.address = list_pda(&addr(3)).0;
    assert_eq!(
        initialize_extra_account_meta_list(&program(), &mut ctx),
        Err(HookError::ConstraintViolation)
    );
    assert_eq!(ctx.extra_account_meta_list.data, None);

    let mut ctx = list_ctx();
    ctx.hook_config.address = addr(70);
    assert_eq!(
        initialize_extra_account_meta_list(&program(), &mut ctx),
        Err(HookError::ConstraintViolation)
    );
    let list = Some(list_pda(&addr(2)));
    assert_eq!(
        initialize_extra_account_meta_list_at(&mut ctx, &list, &Some((addr(70), 1))),
        Ok(())
    );
}

#[test]
fn publish_sizes_the_storage_to_the_list() {
    let mut slot = MetaListSlot { address: addr(80), data: None };
    let none = Vec::new();
    assert_eq!(publish(&mut slot, &Some((addr(80), 255)), &none), Ok(()));
    let mut expected = vec![105u8, 37, 101, 197, 75, 251, 102, 26];
    expected.extend_from_slice(&[4, 0, 0, 0, 0, 0, 0, 0]);
    assert_eq!(slot.data, Some(expected));
    assert_eq!(
        publish(&mut slot, &Some((addr(80), 255)), &none),
        Err(HookError::AlreadyPublished)
    );
    assert_eq!(
        publish(&mut slot, &Some((addr(81), 255)), &none),
        Err(HookError::ConstraintViolation)
    );
    assert_eq!(publish(&mut slot, &None, &none), Err(HookError::ConstraintViolation));
}

#[test]
fn decode_reads_execute_only() {
    assert_eq!(decode(&execute_payload(0)), Ok(0));
    assert_eq!(decode(&execute_payload(1_234)), Ok(1_234));
    assert_eq!(decode(&execute_payload(u64::MAX)), Ok(u64::MAX));
    let mut bytes = vec![105u8, 37, 101, 197, 75, 251, 102, 26];
    bytes.extend_from_slice(&[1, 2, 0, 0, 0, 0, 0, 0]);
    assert_eq!(decode(&bytes), Ok(513));
    bytes.push(9);
    assert_eq!(decode(&bytes), Ok(513));
    assert_eq!(decode(&bytes[..15]), Err(HookError::UnknownInstruction));
    assert_eq!(decode(&bytes[..8]), Err(HookError::UnknownInstruction));
    assert_eq!(decode(&[]), Err(HookError::UnknownInstruction));
    let mut other = bytes.clone();
    other[0] = 106;
    assert_eq!(decode(&other), Err(HookError::UnknownInstruction));
    let initialize =
        TransferHookInstruction::InitializeExtraAccountMetaList { extra_account_metas: vec![] };
    assert_eq!(decode(&initialize.pack()), Err(HookError::UnknownInstruction));
}

#[test]
fn only_execute_has_an_amount() {
    assert_eq!(instruction_amount(Some(HookInstruction::Execute { amount: 7 })), Ok(7));
    assert_eq!(
        instruction_amount(Some(HookInstruction::InitializeExtraAccountMetaList)),
        Err(HookError::UnknownInstruction)
    );
    assert_eq!(
        instruction_amount(Some(HookInstruction::UpdateExtraAccountMetaList)),
        Err(HookError::UnknownInstruction)
    );
    assert_eq!(instruction_amount(None), Err(HookError::UnknownInstruction));
}

#[test]
fn accounts_are_taken_by_position() {
    let ctx = valid_ctx(5_000, 20);
    let accounts = raw_accounts(&ctx);
    assert_eq!(collect_accounts(&accounts), Ok(ctx));
    assert_eq!(collect_accounts(&accounts[..7].to_vec()), Err(HookError::MissingAccount));
    assert_eq!(collect_accounts(&Vec::new()), Err(HookError::MissingAccount));

    let mut swapped = accounts.clone();
    swapped.swap(0, 1);
    assert_eq!(collect_accounts(&swapped), Err(HookError::ConstraintViolation));
    let mut no_config = accounts.clone();
    no_config[5].data = AccountData::Other;
    assert_eq!(collect_accounts(&no_config), Err(HookError::ConstraintViolation));
    // the first failure from the left decides
    assert_eq!(collect_accounts(&swapped[..3].to_vec()), Err(HookError::ConstraintViolation));
    let mut longer = accounts.clone();
    longer.push(AccountRecord { address: addr(90), data: AccountData::Other });
    assert_eq!(collect_accounts(&longer), Ok(ctx));
}

#[test]
fn fallback_runs_the_hook() {
    let ctx = valid_ctx(5_000, 20);
    let accounts = raw_accounts(&ctx);
    let (after, fee) = fallback(&program(), &accounts, &execute_payload(1_234)).unwrap();
    assert_eq!(fee, 12);
    assert_eq!(after.source_token.amount, 4_988);
    assert_eq!(after.winner_token_account.amount, 32);
    assert_eq!(accounts, raw_accounts(&ctx));

    let (after, fee) = fallback(&program(), &accounts, &execute_payload(99)).unwrap();
    assert_eq!(fee, 0);
    assert_eq!(after, ctx);
}

#[test]
fn fallback_rejects_unknown_instruction() {
    let ctx = valid_ctx(5_000, 20);
    let accounts = raw_accounts(&ctx);
    let mut payload = execute_payload(1_234);
    payload[0] ^= 0xff;
    assert_eq!(fallback(&program(), &accounts, &payload), Err(HookError::UnknownInstruction));
    assert_eq!(fallback(&program(), &Vec::new(), &payload), Err(HookError::UnknownInstruction));
    assert_eq!(dispatch(&accounts, &[7u8]), Err(HookError::UnknownInstruction));
    assert_eq!(accounts, raw_accounts(&ctx));
}

#[test]
fn fallback_validates_like_the_typed_entry() {
    let mut ctx = valid_ctx(5_000, 20);
    ctx.winner_token_account.address = addr(11);
    let accounts = raw_accounts(&ctx);
    assert_eq!(
        fallback(&program(), &accounts, &execute_payload(1_234)),
        Err(HookError::ConstraintViolation)
    );
    let short = raw_accounts(&valid_ctx(5_000, 20))[..6].to_vec();
    assert_eq!(
        fallback(&program(), &short, &execute_payload(1_234)),
        Err(HookError::MissingAccount)
    );
    assert_eq!(dispatch(&raw_accounts(&ctx), &execute_payload(5)), Ok((ctx, 5)));
}

#[test]
fn created_record_passes_the_hook() {
    let (address, _) = config_pda();
    let mut init = InitializeHookConfig {
        hook_config: ConfigSlot { address, record: None },
        payer: addr(30),
    };
    assert_eq!(initialize_hook_config(&program(), &mut init, addr(9), addr(7)), Ok(()));
    let record = init.hook_config.record.unwrap();
    assert_eq!(config_address_with_bump(&program(), record.bump), Some(address));

    let mut ctx = valid_ctx(5_000, 20);
    ctx.hook_config = ConfigAccount { address: init.hook_config.address, config: record };
    assert_eq!(transfer_hook(&program(), &mut ctx, 700), Ok(7));
    assert_eq!(ctx.winner_token_account.amount, 27);
}

#[test]
fn record_is_stored_as_two_addresses_and_a_bump() {
    let config = HookConfig { authority: addr(9), winner_wallet: addr(7), bump: 250 };
    let mut expected = vec![9u8; 32];
    expected.extend_from_slice(&[7u8; 32]);
    expected.push(250);
    assert_eq!(config.encode(), expected);
    assert_eq!(HookConfig::decode(&expected), Some(config));
    expected.push(1);
    assert_eq!(HookConfig::decode(&expected), Some(config));
    assert_eq!(HookConfig::decode(&expected[..64]), None);
    assert_eq!(HookConfig::decode(&[]), None);
    assert_eq!(Address::from_slice(&expected, 31).to_bytes()[0], 9);
    assert_eq!(Address::from_slice(&expected, 31).to_bytes()[1], 7);
}

#[test]
fn record_must_lie_at_its_derived_address() {
    let (address, bump) = config_pda();
    let config = HookConfig { authority: addr(9), winner_wallet: addr(7), bump };
    assert_eq!(check_config_address(&program(), &address, &config), Ok(()));
    assert_eq!(
        check_config_address(&program(), &addr(1), &config),
        Err(HookError::ConstraintViolation)
    );
    let other = HookConfig { bump: bump.wrapping_sub(1), ..config };
    assert_eq!(
        check_config_address(&program(), &address, &other),
        Err(HookError::ConstraintViolation)
    );
}
