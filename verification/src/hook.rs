use crate::address::Address;
use crate::config::HookConfig;
use crate::error::HookError;
use crate::pda::{
    address_view, config_address_with_bump, config_seeds_with_bump, found_program_address,
    found_view, meta_list_address, meta_list_seeds, program_address,
};
use vstd::prelude::*;

verus! {

/// A token account as the hook reads it.
#[derive(Clone, Copy, Debug, PartialEq, Eq)]
pub struct TokenAccount {
    pub address: Address,
    pub mint: Address,
    /// The registered authority over the balance.
    pub authority: Address,
    pub amount: u64,
    pub frozen: bool,
}

/// A mint as the hook reads it.
#[derive(Clone, Copy, Debug, PartialEq, Eq)]
pub struct Mint {
    pub address: Address,
    pub decimals: u8,
}

/// The configuration record together with the address it was read from.
#[derive(Clone, Copy, Debug, PartialEq, Eq)]
pub struct ConfigAccount {
    pub address: Address,
    pub config: HookConfig,
}

/// The accounts of one invocation of the hook, in the order in which the
/// caller supplies them.
#[derive(Clone, Copy, Debug, PartialEq, Eq)]
pub struct TransferHook {
    pub source_token: TokenAccount,
    pub mint: Mint,
    pub destination_token: TokenAccount,
    /// The owner of the source account, or its delegate.
    pub owner: Address,
    /// The address of the published list of extra accounts.
    pub extra_account_meta_list: Address,
    pub hook_config: ConfigAccount,
    pub winner_token_account: TokenAccount,
    pub token_program: Address,
}

/// The accounts of the token movement that pays the fee.
#[derive(Clone, Copy, Debug, PartialEq, Eq)]
pub struct TransferChecked {
    pub from: Address,
    pub mint: Address,
    pub to: Address,
    pub authority: Address,
}

impl TransferHook {
    /// The accounts of the fee's movement: from the source to the winner's
    /// account, authorised by the owner.
    pub fn transfer_ctx(&self) -> (r: TransferChecked)
        ensures
            r.from == self.source_token.address,
            r.mint == self.mint.address,
            r.to == self.winner_token_account.address,
            r.authority == self.owner,
    {
        TransferChecked {
            from: self.source_token.address,
            mint: self.mint.address,
            to: self.winner_token_account.address,
            authority: self.owner,
        }
    }
}

/// The fee of a transfer: one hundredth of the amount, rounded down.
pub open spec fn fee_of(amount: u64) -> u64 {
    amount / 100
}

/// Computes the fee of a transfer of `amount`: nothing below 100 units.
pub fn fee_for(amount: u64) -> (fee: u64)
    ensures
        fee == fee_of(amount),
        fee * 100 <= amount < fee * 100 + 100,
        amount < 100 <==> fee == 0,
{
    amount / 100
}

/// What the hook demands of the accounts, given the canonical derivation of
/// the list of extra accounts of the mint and the derivation of the
/// configuration record for its stored bump byte.
pub open spec fn accounts_accepted(
    ctx: TransferHook,
    meta_list: Option<(Seq<u8>, u8)>,
    config: Option<Seq<u8>>,
) -> bool {
    &&& ctx.source_token.mint@ == ctx.mint.address@
    &&& ctx.destination_token.mint@ == ctx.mint.address@
    &&& ctx.source_token.authority@ == ctx.owner@
    &&& meta_list is Some
    &&& meta_list.unwrap().0 == ctx.extra_account_meta_list@
    &&& config == Some(ctx.hook_config.address@)
    &&& ctx.winner_token_account.mint@ == ctx.mint.address@
    &&& ctx.winner_token_account.address@ == ctx.hook_config.config.winner_wallet@
}

/// Checks the accounts of an invocation: the mint of the token accounts, the
/// authority of the source, the two derived addresses, and that the winner's
/// account is the one that the configuration names.
pub fn check_accounts(
    ctx: &TransferHook,
    meta_list: &Option<(Address, u8)>,
    config: &Option<Address>,
) -> (r: Result<(), HookError>)
    ensures
        r is Ok <==> accounts_accepted(*ctx, found_view(*meta_list), address_view(*config)),
        r is Err ==> r == Err::<(), HookError>(HookError::ConstraintViolation),
{
    if !ctx.source_token.mint.same(&ctx.mint.address) {
        return Err(HookError::ConstraintViolation);
    }
    if !ctx.destination_token.mint.same(&ctx.mint.address) {
        return Err(HookError::ConstraintViolation);
    }
    if !ctx.source_token.authority.same(&ctx.owner) {
        return Err(HookError::ConstraintViolation);
    }
    match meta_list {
        Some((address, _)) => {
            if !address.same(&ctx.extra_account_meta_list) {
                return Err(HookError::ConstraintViolation);
            }
        },
        None => {
            return Err(HookError::ConstraintViolation);
        },
    }
    match config {
        Some(address) => {
            if !address.same(&ctx.hook_config.address) {
                return Err(HookError::ConstraintViolation);
            }
        },
        None => {
            return Err(HookError::ConstraintViolation);
        },
    }
    if !ctx.winner_token_account.mint.same(&ctx.mint.address) {
        return Err(HookError::ConstraintViolation);
    }
    if !ctx.winner_token_account.address.same(&ctx.hook_config.config.winner_wallet) {
        return Err(HookError::ConstraintViolation);
    }
    Ok(())
}

/// Whether the source and the winner's account are one and the same account.
pub open spec fn pays_itself(ctx: TransferHook) -> bool {
    ctx.source_token.address@ == ctx.winner_token_account.address@
}

/// Whether `fee` units can move from the source to the winner's account:
/// neither is frozen, the source holds them, and the winner's balance stays
/// within range.
pub open spec fn movable(ctx: TransferHook, fee: u64) -> bool {
    &&& !ctx.source_token.frozen
    &&& !ctx.winner_token_account.frozen
    &&& ctx.source_token.amount >= fee
    &&& pays_itself(ctx) || ctx.winner_token_account.amount + fee <= u64::MAX
}

/// The accounts after `fee` units have moved. A movement from an account to
/// itself leaves its balance as it is.
pub open spec fn after_movement(ctx: TransferHook, fee: u64) -> TransferHook {
    if pays_itself(ctx) {
        ctx
    } else {
        TransferHook {
            source_token: TokenAccount {
                amount: (ctx.source_token.amount - fee) as u64,
                ..ctx.source_token
            },
            winner_token_account: TokenAccount {
                amount: (ctx.winner_token_account.amount + fee) as u64,
                ..ctx.winner_token_account
            },
            ..ctx
        }
    }
}

/// What an invocation returns: the fee that moved.
pub open spec fn hook_outcome(
    ctx: TransferHook,
    meta_list: Option<(Seq<u8>, u8)>,
    config: Option<Seq<u8>>,
    amount: u64,
) -> Result<u64, HookError> {
    if !accounts_accepted(ctx, meta_list, config) {
        Err(HookError::ConstraintViolation)
    } else if fee_of(amount) == 0 {
        Ok(0u64)
    } else if movable(ctx, fee_of(amount)) {
        Ok(fee_of(amount))
    } else {
        Err(HookError::TransferFailure)
    }
}

/// The accounts after an invocation: changed only where a fee moved.
pub open spec fn hook_state(
    ctx: TransferHook,
    meta_list: Option<(Seq<u8>, u8)>,
    config: Option<Seq<u8>>,
    amount: u64,
) -> TransferHook {
    if hook_outcome(ctx, meta_list, config, amount) is Ok && fee_of(amount) > 0 {
        after_movement(ctx, fee_of(amount))
    } else {
        ctx
    }
}

/// Moves `fee` units from the source to the winner's account, or fails with
/// `TransferFailure` and moves nothing.
pub fn move_fee(ctx: &mut TransferHook, fee: u64) -> (r: Result<(), HookError>)
    ensures
        movable(*old(ctx), fee) ==> r is Ok && *final(ctx) == after_movement(*old(ctx), fee),
        !movable(*old(ctx), fee) ==> r == Err::<(), HookError>(HookError::TransferFailure)
            && *final(ctx) == *old(ctx),
{
    if ctx.source_token.frozen || ctx.winner_token_account.frozen {
        return Err(HookError::TransferFailure);
    }
    if ctx.source_token.amount < fee {
        return Err(HookError::TransferFailure);
    }
    if ctx.source_token.address.same(&ctx.winner_token_account.address) {
        return Ok(());
    }
    if ctx.winner_token_account.amount > u64::MAX - fee {
        return Err(HookError::TransferFailure);
    }
    ctx.source_token.amount = ctx.source_token.amount - fee;
    ctx.winner_token_account.amount = ctx.winner_token_account.amount + fee;
    Ok(())
}

/// One invocation of the hook, given the two derivations: validates the
/// accounts, computes the fee and moves it. On any error the accounts are as
/// they were.
pub fn run_hook(
    ctx: &mut TransferHook,
    meta_list: &Option<(Address, u8)>,
    config: &Option<Address>,
    amount: u64,
) -> (r: Result<u64, HookError>)
    ensures
        r == hook_outcome(*old(ctx), found_view(*meta_list), address_view(*config), amount),
        *final(ctx) == hook_state(
            *old(ctx),
            found_view(*meta_list),
            address_view(*config),
            amount,
        ),
        r is Err ==> *final(ctx) == *old(ctx),
{
    match check_accounts(ctx, meta_list, config) {
        Ok(()) => {},
        Err(e) => {
            return Err(e);
        },
    }
    let fee = fee_for(amount);
    if fee == 0 {
        return Ok(0);
    }
    match move_fee(ctx, fee) {
        Ok(()) => Ok(fee),
        Err(e) => Err(e),
    }
}

/// One invocation of the hook for a transfer of `amount`: derives the address
/// of the mint's list of extra accounts and that of the configuration record,
/// then validates, computes the fee and moves it.
pub fn transfer_hook(program_id: &Address, ctx: &mut TransferHook, amount: u64) -> (r: Result<
    u64,
    HookError,
>)
    ensures
        r == hook_outcome(
            *old(ctx),
            found_program_address(meta_list_seeds(old(ctx).mint.address@), program_id@),
            program_address(
                config_seeds_with_bump(old(ctx).hook_config.config.bump),
                program_id@,
            ),
            amount,
        ),
        *final(ctx) == hook_state(
            *old(ctx),
            found_program_address(meta_list_seeds(old(ctx).mint.address@), program_id@),
            program_address(
                config_seeds_with_bump(old(ctx).hook_config.config.bump),
                program_id@,
            ),
            amount,
        ),
        r is Err ==> *final(ctx) == *old(ctx),
        old(ctx).winner_token_account.address@ != old(ctx).hook_config.config.winner_wallet@
            ==> r == Err::<u64, HookError>(HookError::ConstraintViolation),
{
    let meta_list = meta_list_address(program_id, &ctx.mint.address);
    let config = config_address_with_bump(program_id, ctx.hook_config.config.bump);
    run_hook(ctx, &meta_list, &config, amount)
}

/// A transfer of fewer than 100 units passes the hook without a fee: where
/// the accounts are accepted the hook succeeds, reports a fee of zero and
/// leaves every balance as it is.
pub proof fn lemma_small_transfer_pays_nothing(
    ctx: TransferHook,
    meta_list: Option<(Seq<u8>, u8)>,
    config: Option<Seq<u8>>,
    amount: u64,
)
    requires
        accounts_accepted(ctx, meta_list, config),
        amount < 100,
    ensures
        hook_outcome(ctx, meta_list, config, amount) == Ok::<u64, HookError>(0u64),
        hook_state(ctx, meta_list, config, amount) == ctx,
{
}

/// A transfer of 100 units or more pays exactly a hundredth of the amount,
/// rounded down. Where the accounts are accepted and the fee can move, the
/// hook succeeds and reports that fee; the source's balance falls by it and
/// the winner's balance rises by it, unless the two are one account, whose
/// balance then stays. Where the fee cannot move, the hook fails with
/// `TransferFailure` and every balance is as it was.
pub proof fn lemma_fee_is_one_percent(
    ctx: TransferHook,
    meta_list: Option<(Seq<u8>, u8)>,
    config: Option<Seq<u8>>,
    amount: u64,
)
    requires
        amount >= 100,
        accounts_accepted(ctx, meta_list, config),
    ensures
        ({
            let fee = (amount / 100) as u64;
            let after = hook_state(ctx, meta_list, config, amount);
            &&& fee > 0
            &&& movable(ctx, fee) ==> {
                &&& hook_outcome(ctx, meta_list, config, amount) == Ok::<u64, HookError>(fee)
                &&& !pays_itself(ctx) ==> after.source_token.amount == ctx.source_token.amount
                    - fee
                &&& !pays_itself(ctx) ==> after.winner_token_account.amount
                    == ctx.winner_token_account.amount + fee
                &&& pays_itself(ctx) ==> after == ctx
                &&& after.destination_token == ctx.destination_token
                &&& after.hook_config == ctx.hook_config
            }
            &&& !movable(ctx, fee) ==> {
                &&& hook_outcome(ctx, meta_list, config, amount) == Err::<u64, HookError>(
                    HookError::TransferFailure,
                )
                &&& after == ctx
            }
        }),
{
}

/// An invocation whose winner account is not the one that the configuration
/// names fails with `ConstraintViolation` and moves nothing.
pub proof fn lemma_wrong_winner_rejected(
    ctx: TransferHook,
    meta_list: Option<(Seq<u8>, u8)>,
    config: Option<Seq<u8>>,
    amount: u64,
)
    requires
        ctx.winner_token_account.address@ != ctx.hook_config.config.winner_wallet@,
    ensures
        hook_outcome(ctx, meta_list, config, amount) == Err::<u64, HookError>(
            HookError::ConstraintViolation,
        ),
        hook_state(ctx, meta_list, config, amount) == ctx,
{
}

/// After the winner was changed, the hook pays the new winner and never the
/// old one: with the updated record, an invocation succeeds only where the
/// winner's account is the new winner, and one that names the old winner, if
/// that is another account, fails with `ConstraintViolation`.
pub proof fn lemma_update_redirects_fee(
    before: crate::config::UpdateWinnerWallet,
    new_winner: Address,
    ctx: TransferHook,
    meta_list: Option<(Seq<u8>, u8)>,
    config: Option<Seq<u8>>,
    amount: u64,
)
    requires
        crate::config::update_outcome(before) is Ok,
        ctx.hook_config.config == crate::config::update_state(before, new_winner).hook_config,
    ensures
        hook_outcome(ctx, meta_list, config, amount) is Ok ==> ctx.winner_token_account.address@
            == new_winner@,
        before.hook_config.winner_wallet@ != new_winner@ && ctx.winner_token_account.address@
            == before.hook_config.winner_wallet@ ==> hook_outcome(ctx, meta_list, config, amount)
            == Err::<u64, HookError>(HookError::ConstraintViolation),
{
}

} // verus!
