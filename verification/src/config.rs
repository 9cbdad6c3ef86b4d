use crate::address::Address;
use crate::error::HookError;
use crate::pda::{
    config_address, config_address_with_bump, config_seeds, config_seeds_with_bump,
    found_program_address, found_view, program_address,
};
use vstd::prelude::*;

verus! {

/// The configuration record: who may change the routing, where the fee goes,
/// and the bump byte of the record's own address.
#[derive(Clone, Copy, Debug, PartialEq, Eq)]
pub struct HookConfig {
    pub authority: Address,
    pub winner_wallet: Address,
    pub bump: u8,
}

/// The stored record after its header: the authority, the winner and the
/// bump byte.
pub open spec fn record_bytes(config: HookConfig) -> Seq<u8> {
    config.authority@ + config.winner_wallet@ + seq![config.bump]
}

impl HookConfig {
    /// The bytes that the stored record takes: an 8-byte header, two
    /// addresses and the bump byte.
    pub const LEN: usize = 8 + 32 + 32 + 1;

    /// The record as it is stored after the header.
    pub fn encode(&self) -> (r: Vec<u8>)
        ensures
            r@ == record_bytes(*self),
            r@.len() == 65,
    {
        let mut out = self.authority.to_vec();
        let mut winner = self.winner_wallet.to_vec();
        out.append(&mut winner);
        out.push(self.bump);
        assert(out@ =~= record_bytes(*self));
        out
    }

    /// Reads a record from the bytes that follow the header. Bytes after the
    /// record are ignored; fewer than 65 bytes hold no record.
    pub fn decode(data: &[u8]) -> (r: Option<HookConfig>)
        ensures
            r is Some <==> data@.len() >= 65,
            r is Some ==> record_bytes(r.unwrap()) == data@.subrange(0, 65),
    {
        if data.len() < 65 {
            return None;
        }
        let authority = Address::from_slice(data, 0);
        let winner_wallet = Address::from_slice(data, 32);
        let config = HookConfig { authority, winner_wallet, bump: data[64] };
        assert(record_bytes(config) =~= data@.subrange(0, 65));
        Some(config)
    }
}

/// A stored record reads back as it was written.
pub proof fn lemma_record_reads_back(a: HookConfig, b: HookConfig)
    requires
        record_bytes(a) == record_bytes(b),
    ensures
        a.authority@ == b.authority@,
        a.winner_wallet@ == b.winner_wallet@,
        a.bump == b.bump,
{
    let x = record_bytes(a);
    let y = record_bytes(b);
    assert(a.authority@ =~= x.subrange(0, 32));
    assert(b.authority@ =~= y.subrange(0, 32));
    assert(a.winner_wallet@ =~= x.subrange(32, 64));
    assert(b.winner_wallet@ =~= y.subrange(32, 64));
    assert(a.bump == x[64]);
    assert(b.bump == y[64]);
}

/// The storage at the address of the configuration record: empty until the
/// record is created.
#[derive(Clone, Copy, Debug, PartialEq, Eq)]
pub struct ConfigSlot {
    pub address: Address,
    pub record: Option<HookConfig>,
}

/// The accounts of the operation that creates the configuration record.
#[derive(Clone, Copy, Debug, PartialEq, Eq)]
pub struct InitializeHookConfig {
    pub hook_config: ConfigSlot,
    pub payer: Address,
}

/// The accounts of the operation that changes the winner: the record and the
/// caller who signed.
#[derive(Clone, Copy, Debug, PartialEq, Eq)]
pub struct UpdateWinnerWallet {
    pub hook_config: HookConfig,
    pub authority: Address,
}

/// Whether `canonical` is a derivation that gives `address`.
pub open spec fn derives_to(canonical: Option<(Seq<u8>, u8)>, address: Seq<u8>) -> bool {
    canonical is Some && canonical.unwrap().0 == address
}

/// What creating the record returns: the slot must lie at the canonical
/// address and be empty.
pub open spec fn initialize_outcome(
    ctx: InitializeHookConfig,
    canonical: Option<(Seq<u8>, u8)>,
) -> Result<(), HookError> {
    if !derives_to(canonical, ctx.hook_config.address@) {
        Err(HookError::ConstraintViolation)
    } else if ctx.hook_config.record is Some {
        Err(HookError::AlreadyInitialized)
    } else {
        Ok(())
    }
}

/// The accounts after creating the record: changed only on success.
pub open spec fn initialize_state(
    ctx: InitializeHookConfig,
    canonical: Option<(Seq<u8>, u8)>,
    authority: Address,
    winner_wallet: Address,
) -> InitializeHookConfig {
    if initialize_outcome(ctx, canonical) is Ok {
        InitializeHookConfig {
            hook_config: ConfigSlot {
                address: ctx.hook_config.address,
                record: Some(HookConfig { authority, winner_wallet, bump: canonical.unwrap().1 }),
            },
            payer: ctx.payer,
        }
    } else {
        ctx
    }
}

/// Creates the configuration record in a slot, given the canonical
/// derivation of the record's address.
pub fn initialize_hook_config_at(
    ctx: &mut InitializeHookConfig,
    canonical: &Option<(Address, u8)>,
    authority: Address,
    winner_wallet: Address,
) -> (r: Result<(), HookError>)
    ensures
        r == initialize_outcome(*old(ctx), found_view(*canonical)),
        *final(ctx) == initialize_state(
            *old(ctx),
            found_view(*canonical),
            authority,
            winner_wallet,
        ),
{
    match canonical {
        Some((address, bump)) => {
            if !address.same(&ctx.hook_config.address) {
                return Err(HookError::ConstraintViolation);
            }
            if ctx.hook_config.record.is_some() {
                return Err(HookError::AlreadyInitialized);
            }
            ctx.hook_config.record = Some(HookConfig { authority, winner_wallet, bump: *bump });
            Ok(())
        },
        None => Err(HookError::ConstraintViolation),
    }
}

/// Creates the configuration record of `program_id` with the given authority
/// and winner. Fails with `ConstraintViolation` where the slot is not at the
/// record's canonical address, and with `AlreadyInitialized` where the record
/// exists; the accounts are then unchanged. The record that it creates holds
/// the bump byte with which the record's address derives, which is what the
/// hook later checks.
pub fn initialize_hook_config(
    program_id: &Address,
    ctx: &mut InitializeHookConfig,
    authority: Address,
    winner_wallet: Address,
) -> (r: Result<(), HookError>)
    ensures
        r == initialize_outcome(*old(ctx), found_program_address(config_seeds(), program_id@)),
        *final(ctx) == initialize_state(
            *old(ctx),
            found_program_address(config_seeds(), program_id@),
            authority,
            winner_wallet,
        ),
        old(ctx).hook_config.record is Some ==> r is Err && *final(ctx) == *old(ctx),
        r is Ok ==> final(ctx).hook_config.record is Some && program_address(
            config_seeds_with_bump(final(ctx).hook_config.record.unwrap().bump),
            program_id@,
        ) == Some(final(ctx).hook_config.address@),
{
    let canonical = config_address(program_id);
    initialize_hook_config_at(ctx, &canonical, authority, winner_wallet)
}

/// Creating the record a second time fails with `AlreadyInitialized`,
/// whatever authority and winner are asked for, and leaves the record of the
/// first creation as it is.
pub proof fn lemma_second_initialize_fails(
    ctx: InitializeHookConfig,
    canonical: Option<(Seq<u8>, u8)>,
    authority: Address,
    winner_wallet: Address,
    other_authority: Address,
    other_winner: Address,
)
    requires
        initialize_outcome(ctx, canonical) is Ok,
    ensures
        ({
            let first = initialize_state(ctx, canonical, authority, winner_wallet);
            &&& first.hook_config.record == Some(
                HookConfig { authority, winner_wallet, bump: canonical.unwrap().1 },
            )
            &&& initialize_outcome(first, canonical) == Err::<(), HookError>(
                HookError::AlreadyInitialized,
            )
            &&& initialize_state(first, canonical, other_authority, other_winner) == first
        }),
{
}

/// Checks that a record read from `address` lies where its own bump byte
/// derives for `program_id`.
pub fn check_config_address(
    program_id: &Address,
    address: &Address,
    config: &HookConfig,
) -> (r: Result<(), HookError>)
    ensures
        r is Ok <==> program_address(config_seeds_with_bump(config.bump), program_id@) == Some(
            address@,
        ),
        r is Err ==> r == Err::<(), HookError>(HookError::ConstraintViolation),
{
    match config_address_with_bump(program_id, config.bump) {
        Some(derived) => {
            if derived.same(address) {
                Ok(())
            } else {
                Err(HookError::ConstraintViolation)
            }
        },
        None => Err(HookError::ConstraintViolation),
    }
}

/// What changing the winner returns: the previous winner, for a caller who
/// is the stored authority.
pub open spec fn update_outcome(ctx: UpdateWinnerWallet) -> Result<Address, HookError> {
    if ctx.authority@ == ctx.hook_config.authority@ {
        Ok(ctx.hook_config.winner_wallet)
    } else {
        Err(HookError::Unauthorized)
    }
}

/// The accounts after changing the winner: only the winner is replaced, and
/// only for the stored authority.
pub open spec fn update_state(ctx: UpdateWinnerWallet, new_winner: Address) -> UpdateWinnerWallet {
    if ctx.authority@ == ctx.hook_config.authority@ {
        UpdateWinnerWallet {
            hook_config: HookConfig {
                authority: ctx.hook_config.authority,
                winner_wallet: new_winner,
                bump: ctx.hook_config.bump,
            },
            authority: ctx.authority,
        }
    } else {
        ctx
    }
}

/// Replaces the winner and returns the previous one. Succeeds exactly where
/// the caller is the stored authority, and fails with `Unauthorized`
/// otherwise, leaving the record unchanged.
pub fn update_winner_wallet(ctx: &mut UpdateWinnerWallet, new_winner: Address) -> (r: Result<
    Address,
    HookError,
>)
    ensures
        r == update_outcome(*old(ctx)),
        *final(ctx) == update_state(*old(ctx), new_winner),
        r is Ok <==> old(ctx).authority@ == old(ctx).hook_config.authority@,
{
    if !ctx.authority.same(&ctx.hook_config.authority) {
        return Err(HookError::Unauthorized);
    }
    let previous = ctx.hook_config.winner_wallet;
    ctx.hook_config.winner_wallet = new_winner;
    Ok(previous)
}

} // verus!
