use crate::address::Address;
use crate::config::HookConfig;
use crate::error::HookError;
use crate::hook::{
    hook_outcome, hook_state, transfer_hook, ConfigAccount, Mint, TokenAccount, TransferHook,
};
use crate::pda::{config_seeds_with_bump, found_program_address, meta_list_seeds, program_address};
use crate::resolution::execute_discriminator;
use spl_transfer_hook_interface::instruction::TransferHookInstruction;
use vstd::prelude::*;

verus! {

/// What an account of the raw list holds, as far as the hook reads it.
#[derive(Clone, Copy, Debug, PartialEq, Eq)]
pub enum AccountData {
    Token { mint: Address, authority: Address, amount: u64, frozen: bool },
    Mint { decimals: u8 },
    Config { config: HookConfig },
    Other,
}

/// One account of the raw list.
#[derive(Clone, Copy, Debug, PartialEq, Eq)]
pub struct AccountRecord {
    pub address: Address,
    pub data: AccountData,
}

/// An instruction of the hook's interface. The hook carries out `Execute`
/// alone.
#[derive(Clone, Copy, Debug, PartialEq, Eq)]
pub enum HookInstruction {
    Execute { amount: u64 },
    InitializeExtraAccountMetaList,
    UpdateExtraAccountMetaList,
}

/// Eight bytes as a number, lowest byte first.
pub open spec fn le_u64(b: Seq<u8>) -> int {
    b[0] + b[1] * 256 + b[2] * 65536 + b[3] * 16777216 + b[4] * 4294967296 + b[5] * 1099511627776
        + b[6] * 281474976710656 + b[7] * 72057594037927936
}

/// The amount of an `Execute` instruction: the payload must start with the
/// tag of `Execute`, and the eight bytes after it are the amount.
pub open spec fn execute_amount(data: Seq<u8>) -> Option<u64> {
    if data.len() >= 16 && data.subrange(0, 8) == execute_discriminator() {
        Some(le_u64(data.subrange(8, 16)) as u64)
    } else {
        None
    }
}

/// Calls `TransferHookInstruction::unpack`. The contract claims that a
/// payload of at least 16 bytes that starts with the tag of `Execute` is
/// `Execute` with the amount read from the next eight bytes, lowest first,
/// and that no other payload is `Execute`; an error of the call is `None`.
#[verifier::external_body]
pub(crate) fn unpack_instruction(data: &[u8]) -> (r: Option<HookInstruction>)
    ensures
        execute_amount(data@) is Some ==> r == Some(
            HookInstruction::Execute { amount: execute_amount(data@).unwrap() },
        ),
        execute_amount(data@) is None ==> !(r matches Some(HookInstruction::Execute { .. })),
{
    match TransferHookInstruction::unpack(data) {
        Ok(TransferHookInstruction::Execute { amount }) => Some(
            HookInstruction::Execute { amount },
        ),
        Ok(TransferHookInstruction::InitializeExtraAccountMetaList { .. }) => Some(
            HookInstruction::InitializeExtraAccountMetaList,
        ),
        Ok(TransferHookInstruction::UpdateExtraAccountMetaList { .. }) => Some(
            HookInstruction::UpdateExtraAccountMetaList,
        ),
        Err(_) => None,
    }
}

/// The amount that a decoded instruction asks the hook to run with: only
/// `Execute` is known.
pub fn instruction_amount(instruction: Option<HookInstruction>) -> (r: Result<u64, HookError>)
    ensures
        r == match instruction {
            Some(HookInstruction::Execute { amount }) => Ok::<u64, HookError>(amount),
            _ => Err::<u64, HookError>(HookError::UnknownInstruction),
        },
{
    match instruction {
        Some(HookInstruction::Execute { amount }) => Ok(amount),
        _ => Err(HookError::UnknownInstruction),
    }
}

/// What decoding a raw payload returns.
pub open spec fn decoded(data: Seq<u8>) -> Result<u64, HookError> {
    match execute_amount(data) {
        Some(amount) => Ok(amount),
        None => Err(HookError::UnknownInstruction),
    }
}

/// Decodes a raw payload: the amount of an `Execute` instruction, or
/// `UnknownInstruction`.
pub fn decode(data: &[u8]) -> (r: Result<u64, HookError>)
    ensures
        r == decoded(data@),
{
    instruction_amount(unpack_instruction(data))
}

/// The token account at a position of the raw list.
pub open spec fn token_at(accounts: Seq<AccountRecord>, i: int) -> Result<TokenAccount, HookError> {
    if i >= accounts.len() {
        Err(HookError::MissingAccount)
    } else {
        match accounts[i].data {
            AccountData::Token { mint, authority, amount, frozen } => Ok(
                TokenAccount { address: accounts[i].address, mint, authority, amount, frozen },
            ),
            _ => Err(HookError::ConstraintViolation),
        }
    }
}

/// The mint at a position of the raw list.
pub open spec fn mint_at(accounts: Seq<AccountRecord>, i: int) -> Result<Mint, HookError> {
    if i >= accounts.len() {
        Err(HookError::MissingAccount)
    } else {
        match accounts[i].data {
            AccountData::Mint { decimals } => Ok(Mint { address: accounts[i].address, decimals }),
            _ => Err(HookError::ConstraintViolation),
        }
    }
}

/// The configuration record at a position of the raw list.
pub open spec fn config_at(accounts: Seq<AccountRecord>, i: int) -> Result<
    ConfigAccount,
    HookError,
> {
    if i >= accounts.len() {
        Err(HookError::MissingAccount)
    } else {
        match accounts[i].data {
            AccountData::Config { config } => Ok(
                ConfigAccount { address: accounts[i].address, config },
            ),
            _ => Err(HookError::ConstraintViolation),
        }
    }
}

/// The address of the account at a position of the raw list, whatever it
/// holds.
pub open spec fn address_at(accounts: Seq<AccountRecord>, i: int) -> Result<Address, HookError> {
    if i >= accounts.len() {
        Err(HookError::MissingAccount)
    } else {
        Ok(accounts[i].address)
    }
}

/// The typed accounts of an invocation, taken from the raw list from left to
/// right: source, mint, destination, owner, list of extra accounts,
/// configuration record, winner's token account, token program. The first
/// position that is missing or holds the wrong kind of account gives the
/// error.
pub open spec fn collected(accounts: Seq<AccountRecord>) -> Result<TransferHook, HookError> {
    if token_at(accounts, 0) is Err {
        Err(token_at(accounts, 0)->Err_0)
    } else if mint_at(accounts, 1) is Err {
        Err(mint_at(accounts, 1)->Err_0)
    } else if token_at(accounts, 2) is Err {
        Err(token_at(accounts, 2)->Err_0)
    } else if address_at(accounts, 3) is Err {
        Err(address_at(accounts, 3)->Err_0)
    } else if address_at(accounts, 4) is Err {
        Err(address_at(accounts, 4)->Err_0)
    } else if config_at(accounts, 5) is Err {
        Err(config_at(accounts, 5)->Err_0)
    } else if token_at(accounts, 6) is Err {
        Err(token_at(accounts, 6)->Err_0)
    } else if address_at(accounts, 7) is Err {
        Err(address_at(accounts, 7)->Err_0)
    } else {
        Ok(
            TransferHook {
                source_token: token_at(accounts, 0)->Ok_0,
                mint: mint_at(accounts, 1)->Ok_0,
                destination_token: token_at(accounts, 2)->Ok_0,
                owner: address_at(accounts, 3)->Ok_0,
                extra_account_meta_list: address_at(accounts, 4)->Ok_0,
                hook_config: config_at(accounts, 5)->Ok_0,
                winner_token_account: token_at(accounts, 6)->Ok_0,
                token_program: address_at(accounts, 7)->Ok_0,
            },
        )
    }
}

/// Reads the token account at a position of the raw list.
pub fn token_account_at(accounts: &Vec<AccountRecord>, i: usize) -> (r: Result<
    TokenAccount,
    HookError,
>)
    ensures
        r == token_at(accounts@, i as int),
{
    if i >= accounts.len() {
        return Err(HookError::MissingAccount);
    }
    match accounts[i].data {
        AccountData::Token { mint, authority, amount, frozen } => Ok(
            TokenAccount { address: accounts[i].address, mint, authority, amount, frozen },
        ),
        _ => Err(HookError::ConstraintViolation),
    }
}

/// Reads the mint at a position of the raw list.
pub fn mint_account_at(accounts: &Vec<AccountRecord>, i: usize) -> (r: Result<Mint, HookError>)
    ensures
        r == mint_at(accounts@, i as int),
{
    if i >= accounts.len() {
        return Err(HookError::MissingAccount);
    }
    match accounts[i].data {
        AccountData::Mint { decimals } => Ok(Mint { address: accounts[i].address, decimals }),
        _ => Err(HookError::ConstraintViolation),
    }
}

/// Reads the configuration record at a position of the raw list.
pub fn config_account_at(accounts: &Vec<AccountRecord>, i: usize) -> (r: Result<
    ConfigAccount,
    HookError,
>)
    ensures
        r == config_at(accounts@, i as int),
{
    if i >= accounts.len() {
        return Err(HookError::MissingAccount);
    }
    match accounts[i].data {
        AccountData::Config { config } => Ok(
            ConfigAccount { address: accounts[i].address, config },
        ),
        _ => Err(HookError::ConstraintViolation),
    }
}

/// Reads the address of the account at a position of the raw list.
pub fn account_address_at(accounts: &Vec<AccountRecord>, i: usize) -> (r: Result<
    Address,
    HookError,
>)
    ensures
        r == address_at(accounts@, i as int),
{
    if i >= accounts.len() {
        return Err(HookError::MissingAccount);
    }
    Ok(accounts[i].address)
}

/// Builds the typed accounts of an invocation from the raw list, taking the
/// accounts from left to right.
pub fn collect_accounts(accounts: &Vec<AccountRecord>) -> (r: Result<TransferHook, HookError>)
    ensures
        r == collected(accounts@),
        accounts@.len() >= 8 ==> !(r matches Err(HookError::MissingAccount)),
{
    let source_token = token_account_at(accounts, 0)?;
    let mint = mint_account_at(accounts, 1)?;
    let destination_token = token_account_at(accounts, 2)?;
    let owner = account_address_at(accounts, 3)?;
    let extra_account_meta_list = account_address_at(accounts, 4)?;
    let hook_config = config_account_at(accounts, 5)?;
    let winner_token_account = token_account_at(accounts, 6)?;
    let token_program = account_address_at(accounts, 7)?;
    Ok(
        TransferHook {
            source_token,
            mint,
            destination_token,
            owner,
            extra_account_meta_list,
            hook_config,
            winner_token_account,
            token_program,
        },
    )
}

/// What decoding the payload and then building the accounts returns: the
/// typed accounts and the amount to run the hook with.
pub open spec fn dispatched(accounts: Seq<AccountRecord>, data: Seq<u8>) -> Result<
    (TransferHook, u64),
    HookError,
> {
    match decoded(data) {
        Err(e) => Err(e),
        Ok(amount) => match collected(accounts) {
            Err(e) => Err(e),
            Ok(ctx) => Ok((ctx, amount)),
        },
    }
}

/// Decodes the payload, then builds the typed accounts from the raw list. A
/// payload that is not `Execute` fails with `UnknownInstruction` before any
/// account is looked at.
pub fn dispatch(accounts: &Vec<AccountRecord>, data: &[u8]) -> (r: Result<
    (TransferHook, u64),
    HookError,
>)
    ensures
        r == dispatched(accounts@, data@),
        execute_amount(data@) is None ==> r == Err::<(TransferHook, u64), HookError>(
            HookError::UnknownInstruction,
        ),
{
    let amount = decode(data)?;
    let ctx = collect_accounts(accounts)?;
    Ok((ctx, amount))
}

/// What the raw entry returns for accounts and an amount that were
/// dispatched: the accounts after the hook ran, and the fee that moved.
pub open spec fn fallback_outcome(program: Seq<u8>, ctx: TransferHook, amount: u64) -> Result<
    (TransferHook, u64),
    HookError,
> {
    let meta_list = found_program_address(meta_list_seeds(ctx.mint.address@), program);
    let config = program_address(config_seeds_with_bump(ctx.hook_config.config.bump), program);
    match hook_outcome(ctx, meta_list, config, amount) {
        Ok(fee) => Ok((hook_state(ctx, meta_list, config, amount), fee)),
        Err(e) => Err(e),
    }
}

/// The raw entry of the hook: decodes the payload, builds the typed accounts
/// from the raw list, and runs the hook on them as the typed entry does.
/// Returns the accounts after the hook ran and the fee that moved. The raw
/// list is only read: on an error nothing has changed.
pub fn fallback(program_id: &Address, accounts: &Vec<AccountRecord>, data: &[u8]) -> (r: Result<
    (TransferHook, u64),
    HookError,
>)
    ensures
        execute_amount(data@) is None ==> r == Err::<(TransferHook, u64), HookError>(
            HookError::UnknownInstruction,
        ),
        r == match dispatched(accounts@, data@) {
            Err(e) => Err::<(TransferHook, u64), HookError>(e),
            Ok((ctx, amount)) => fallback_outcome(program_id@, ctx, amount),
        },
{
    let (ctx, amount) = dispatch(accounts, data)?;
    let mut ctx = ctx;
    let fee = transfer_hook(program_id, &mut ctx, amount)?;
    Ok((ctx, fee))
}

} // verus!
