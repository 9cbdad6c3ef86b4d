use crate::address::Address;
use crate::config::derives_to;
use crate::error::HookError;
use crate::hook::{ConfigAccount, Mint};
use crate::pda::{
    config_address, config_seeds, found_program_address, found_view, hook_config_label,
    hook_config_label_bytes, meta_list_address, meta_list_seeds, winner_token_label,
    winner_token_label_bytes,
};
use spl_tlv_account_resolution::account::ExtraAccountMeta;
use spl_tlv_account_resolution::seeds;
use spl_tlv_account_resolution::state::ExtraAccountMetaList;
use spl_transfer_hook_interface::instruction::ExecuteInstruction;
use vstd::prelude::*;

verus! {

/// One seed of a derived address, as a descriptor stores it: literal bytes,
/// or the key of the account at a position of the caller's account list.
#[derive(Clone, Debug, PartialEq, Eq)]
pub enum Seed {
    Literal { bytes: Vec<u8> },
    AccountKey { index: u8 },
}

/// A seed in contracts.
pub enum SeedView {
    Literal { bytes: Seq<u8> },
    AccountKey { index: u8 },
}

impl View for Seed {
    type V = SeedView;

    open spec fn view(&self) -> SeedView {
        match *self {
            Seed::Literal { bytes } => SeedView::Literal { bytes: bytes@ },
            Seed::AccountKey { index } => SeedView::AccountKey { index },
        }
    }
}

/// The descriptor of one extra account: how its address is found, and
/// whether it signs and is written to.
#[derive(Clone, Copy, Debug, PartialEq, Eq)]
pub struct AccountMeta {
    /// 1 for an address derived from seeds for the hook's own program.
    pub discriminator: u8,
    /// The packed seeds, padded with zeros.
    pub address_config: [u8; 32],
    pub is_signer: bool,
    pub is_writable: bool,
}

/// A descriptor in contracts.
pub struct AccountMetaView {
    pub discriminator: u8,
    pub address_config: Seq<u8>,
    pub is_signer: bool,
    pub is_writable: bool,
}

impl View for AccountMeta {
    type V = AccountMetaView;

    open spec fn view(&self) -> AccountMetaView {
        AccountMetaView {
            discriminator: self.discriminator,
            address_config: self.address_config@,
            is_signer: self.is_signer,
            is_writable: self.is_writable,
        }
    }
}

/// A list of seeds in contracts.
pub open spec fn seed_views(seeds: Seq<Seed>) -> Seq<SeedView> {
    Seq::new(seeds.len(), |i: int| seeds[i]@)
}

/// A list of descriptors in contracts.
pub open spec fn meta_views(metas: Seq<AccountMeta>) -> Seq<AccountMetaView> {
    Seq::new(metas.len(), |i: int| metas[i]@)
}

/// The bytes of one packed seed: a literal is the tag 1, its length and its
/// bytes; an account key is the tag 3 and the position.
pub open spec fn seed_encoding(seed: SeedView) -> Seq<u8> {
    match seed {
        SeedView::Literal { bytes } => seq![1u8, bytes.len() as u8] + bytes,
        SeedView::AccountKey { index } => seq![3u8, index],
    }
}

/// The seeds packed one after the other.
pub open spec fn packed_seeds(seeds: Seq<SeedView>) -> Seq<u8>
    decreases seeds.len(),
{
    if seeds.len() == 0 {
        Seq::empty()
    } else {
        packed_seeds(seeds.drop_last()) + seed_encoding(seeds.last())
    }
}

/// The packed seeds, padded with zeros to 32 bytes.
pub open spec fn address_config_of(seeds: Seq<SeedView>) -> Seq<u8> {
    packed_seeds(seeds) + Seq::new((32 - packed_seeds(seeds).len()) as nat, |i: int| 0u8)
}

/// Every literal seed is short enough for its length to be packed in a byte
/// beside its tag.
pub open spec fn literals_short(seeds: Seq<SeedView>) -> bool {
    forall|i: int|
        0 <= i < seeds.len() ==> (#[trigger] seeds[i] matches SeedView::Literal { bytes }
            ==> bytes.len() <= 253)
}

/// The seeds of the descriptor of the configuration record.
pub open spec fn config_meta_seeds() -> Seq<SeedView> {
    seq![SeedView::Literal { bytes: hook_config_label() }]
}

/// The seeds of the descriptor of the winner's token account: the label and
/// the mint, which is the third account of the caller's list.
pub open spec fn winner_meta_seeds() -> Seq<SeedView> {
    seq![SeedView::Literal { bytes: winner_token_label() }, SeedView::AccountKey { index: 2u8 }]
}

/// The two descriptors that every caller of the hook must resolve and
/// append, in this order: the configuration record, then the winner's token
/// account. Neither signs; both are declared writable.
pub open spec fn extra_account_metas() -> Seq<AccountMetaView> {
    seq![
        AccountMetaView {
            discriminator: 1u8,
            address_config: address_config_of(config_meta_seeds()),
            is_signer: false,
            is_writable: true,
        },
        AccountMetaView {
            discriminator: 1u8,
            address_config: address_config_of(winner_meta_seeds()),
            is_signer: false,
            is_writable: true,
        },
    ]
}

/// The tag of the hook's `Execute` instruction, which also marks the list of
/// extra accounts that belongs to it.
pub open spec fn execute_discriminator() -> Seq<u8> {
    seq![105u8, 37u8, 101u8, 197u8, 75u8, 251u8, 102u8, 26u8]
}

/// A number below 2^32 as four bytes, lowest first.
pub open spec fn le_u32(x: int) -> Seq<u8> {
    seq![
        (x % 256) as u8,
        ((x / 256) % 256) as u8,
        ((x / 65536) % 256) as u8,
        ((x / 16777216) % 256) as u8,
    ]
}

/// A flag as it is stored: one byte, 1 or 0.
pub open spec fn flag(b: bool) -> u8 {
    if b {
        1u8
    } else {
        0u8
    }
}

/// The 35 bytes of one stored descriptor.
pub open spec fn meta_encoding(meta: AccountMetaView) -> Seq<u8> {
    seq![meta.discriminator] + meta.address_config + seq![
        flag(meta.is_signer),
        flag(meta.is_writable),
    ]
}

/// The stored descriptors, one after the other.
pub open spec fn metas_encoding(metas: Seq<AccountMetaView>) -> Seq<u8>
    decreases metas.len(),
{
    if metas.len() == 0 {
        Seq::empty()
    } else {
        metas_encoding(metas.drop_last()) + meta_encoding(metas.last())
    }
}

/// The bytes of the published list: the tag of `Execute`, the length of what
/// follows, the number of descriptors, and the descriptors.
pub open spec fn meta_list_bytes(metas: Seq<AccountMetaView>) -> Seq<u8> {
    execute_discriminator() + le_u32((4 + 35 * metas.len()) as int) + le_u32(metas.len() as int)
        + metas_encoding(metas)
}

/// Calls `ExtraAccountMeta::new_with_seeds`. The contract claims that the
/// call succeeds exactly where the packed seeds fit in 32 bytes, and that the
/// descriptor then has the discriminator 1, the packed seeds padded with
/// zeros, and the two flags as given.
#[verifier::external_body]
pub(crate) fn new_with_seeds(list: &Vec<Seed>, is_signer: bool, is_writable: bool) -> (r: Option<
    AccountMeta,
>)
    requires
        literals_short(seed_views(list@)),
    ensures
        r is Some <==> packed_seeds(seed_views(list@)).len() <= 32,
        r is Some ==> r.unwrap()@ == (AccountMetaView {
            discriminator: 1u8,
            address_config: address_config_of(seed_views(list@)),
            is_signer,
            is_writable,
        }),
{
    let outside: Vec<seeds::Seed> = list.iter().map(|s| match s {
        Seed::Literal { bytes } => seeds::Seed::Literal { bytes: bytes.clone() },
        Seed::AccountKey { index } => seeds::Seed::AccountKey { index: *index },
    }).collect();
    ExtraAccountMeta::new_with_seeds(&outside, is_signer, is_writable).ok().map(|m| AccountMeta {
        discriminator: m.discriminator,
        address_config: m.address_config,
        is_signer: m.is_signer.into(),
        is_writable: m.is_writable.into(),
    })
}

/// Calls `ExtraAccountMetaList::size_of`. The contract claims that a list of
/// `num_items` descriptors takes 16 bytes and 35 for each descriptor.
#[verifier::external_body]
pub(crate) fn meta_list_size(num_items: usize) -> (r: Option<usize>)
    requires
        16 + 35 * num_items <= usize::MAX,
    ensures
        r == Some((16 + 35 * num_items) as usize),
{
    ExtraAccountMetaList::size_of(num_items).ok()
}

/// Calls `ExtraAccountMetaList::init` for the `Execute` instruction on a
/// zeroed buffer of `size` bytes. The contract claims that, for a buffer of
/// exactly the list's size, the call succeeds and leaves in it the tag, the
/// two lengths and the descriptors.
#[verifier::external_body]
pub(crate) fn write_meta_list(size: usize, metas: &Vec<AccountMeta>) -> (r: Option<Vec<u8>>)
    requires
        size == 16 + 35 * metas@.len(),
        size <= u32::MAX,
    ensures
        r is Some,
        r.unwrap()@ == meta_list_bytes(meta_views(metas@)),
{
    let outside: Vec<ExtraAccountMeta> = metas.iter().map(|m| ExtraAccountMeta {
        discriminator: m.discriminator,
        address_config: m.address_config,
        is_signer: m.is_signer.into(),
        is_writable: m.is_writable.into(),
    }).collect();
    let mut data = vec![0u8; size];
    ExtraAccountMetaList::init::<ExecuteInstruction>(&mut data, &outside).ok().map(|_| data)
}

proof fn lemma_packed_one(a: SeedView)
    ensures
        packed_seeds(seq![a]) == seed_encoding(a),
{
    assert(seq![a].drop_last() =~= Seq::<SeedView>::empty());
    assert(packed_seeds(seq![a]) =~= seed_encoding(a)) by {
        reveal_with_fuel(packed_seeds, 2);
    }
}

proof fn lemma_packed_two(a: SeedView, b: SeedView)
    ensures
        packed_seeds(seq![a, b]) == seed_encoding(a) + seed_encoding(b),
{
    lemma_packed_one(a);
    assert(seq![a, b].drop_last() =~= seq![a]);
}

/// The two descriptors of the hook's extra accounts. They name the mint by
/// its position in the caller's account list, so they are the same for every
/// mint.
pub fn derive_extra_accounts(mint: &Address) -> (r: Vec<AccountMeta>)
    ensures
        meta_views(r@) == extra_account_metas(),
{
    let mut first: Vec<Seed> = Vec::new();
    first.push(Seed::Literal { bytes: hook_config_label_bytes() });
    let mut second: Vec<Seed> = Vec::new();
    second.push(Seed::Literal { bytes: winner_token_label_bytes() });
    second.push(Seed::AccountKey { index: 2 });
    proof {
        assert(seed_views(first@) =~= config_meta_seeds());
        assert(seed_views(second@) =~= winner_meta_seeds());
        lemma_packed_one(config_meta_seeds()[0]);
        lemma_packed_two(winner_meta_seeds()[0], winner_meta_seeds()[1]);
        assert(config_meta_seeds() =~= seq![config_meta_seeds()[0]]);
        assert(winner_meta_seeds() =~= seq![winner_meta_seeds()[0], winner_meta_seeds()[1]]);
    }
    let mut out: Vec<AccountMeta> = Vec::new();
    // Both seed lists pack into fewer than 32 bytes, so both descriptors exist.
    if let Some(meta) = new_with_seeds(&first, false, true) {
        out.push(meta);
    }
    if let Some(meta) = new_with_seeds(&second, false, true) {
        out.push(meta);
    }
    assert(meta_views(out@) =~= extra_account_metas());
    out
}

/// The derivation is deterministic: any two results of it, for whatever
/// mints, hold the same descriptors and are stored as the same bytes.
pub proof fn lemma_derivation_is_deterministic(first: Seq<AccountMeta>, second: Seq<AccountMeta>)
    requires
        meta_views(first) == extra_account_metas(),
        meta_views(second) == extra_account_metas(),
    ensures
        first.len() == 2,
        second.len() == 2,
        forall|i: int| 0 <= i < 2 ==> first[i]@ == second[i]@,
        meta_list_bytes(meta_views(first)) == meta_list_bytes(meta_views(second)),
{
    assert(meta_views(first).len() == 2);
    assert(meta_views(second).len() == 2);
    assert forall|i: int| 0 <= i < 2 implies first[i]@ == second[i]@ by {
        assert(meta_views(first)[i] == first[i]@);
        assert(meta_views(second)[i] == second[i]@);
    }
}

/// The storage at the address of a mint's list of extra accounts: empty
/// until the list is published.
#[derive(Clone, Debug, PartialEq, Eq)]
pub struct MetaListSlot {
    pub address: Address,
    pub data: Option<Vec<u8>>,
}

/// The accounts of the operation that publishes the list of a mint.
#[derive(Clone, Debug, PartialEq, Eq)]
pub struct InitializeExtraAccountMetaList {
    pub payer: Address,
    pub extra_account_meta_list: MetaListSlot,
    pub mint: Mint,
    pub hook_config: ConfigAccount,
}

/// What publishing returns: the slot must lie at the canonical address of
/// the mint's list and be empty.
pub open spec fn publish_outcome(slot: MetaListSlot, canonical: Option<(Seq<u8>, u8)>) -> Result<
    (),
    HookError,
> {
    if !derives_to(canonical, slot.address@) {
        Err(HookError::ConstraintViolation)
    } else if slot.data is Some {
        Err(HookError::AlreadyPublished)
    } else {
        Ok(())
    }
}

/// Stores the serialized list in the slot of a mint, given the canonical
/// derivation of the slot's address. The storage is sized to the list
/// exactly. On any error the slot is as it was. The list's length is stored
/// in 32 bits, which bounds the number of descriptors.
pub fn publish(
    slot: &mut MetaListSlot,
    canonical: &Option<(Address, u8)>,
    metas: &Vec<AccountMeta>,
) -> (r: Result<(), HookError>)
    requires
        16 + 35 * metas@.len() <= u32::MAX,
    ensures
        r == publish_outcome(*old(slot), found_view(*canonical)),
        r is Err ==> *final(slot) == *old(slot),
        r is Ok ==> final(slot).address == old(slot).address && final(slot).data is Some
            && final(slot).data.unwrap()@ == meta_list_bytes(meta_views(metas@))
            && final(slot).data.unwrap()@.len() == 16 + 35 * metas@.len(),
{
    match canonical {
        Some((address, _)) => {
            if !address.same(&slot.address) {
                return Err(HookError::ConstraintViolation);
            }
        },
        None => {
            return Err(HookError::ConstraintViolation);
        },
    }
    if slot.data.is_some() {
        return Err(HookError::AlreadyPublished);
    }
    // The size of a list this short is always defined, and a buffer of that
    // size always takes the list.
    if let Some(size) = meta_list_size(metas.len()) {
        slot.data = write_meta_list(size, metas);
    }
    proof {
        lemma_meta_list_len(meta_views(metas@));
    }
    Ok(())
}

/// The serialized list takes 16 bytes and 35 for each descriptor whose
/// address configuration has 32 bytes.
pub proof fn lemma_meta_list_len(metas: Seq<AccountMetaView>)
    requires
        forall|i: int| 0 <= i < metas.len() ==> (#[trigger] metas[i]).address_config.len() == 32,
    ensures
        metas_encoding(metas).len() == 35 * metas.len(),
        meta_list_bytes(metas).len() == 16 + 35 * metas.len(),
    decreases metas.len(),
{
    if metas.len() > 0 {
        lemma_meta_list_len(metas.drop_last());
    }
}

/// What publishing the list of the hook returns, given the canonical
/// derivations of the list's address and of the configuration record's.
pub open spec fn initialize_list_outcome(
    ctx: InitializeExtraAccountMetaList,
    meta_list: Option<(Seq<u8>, u8)>,
    config: Option<(Seq<u8>, u8)>,
) -> Result<(), HookError> {
    if !derives_to(config, ctx.hook_config.address@) {
        Err(HookError::ConstraintViolation)
    } else {
        publish_outcome(ctx.extra_account_meta_list, meta_list)
    }
}

/// Publishes the two descriptors of the hook for the mint of `ctx`, given
/// the two canonical derivations.
pub fn initialize_extra_account_meta_list_at(
    ctx: &mut InitializeExtraAccountMetaList,
    meta_list: &Option<(Address, u8)>,
    config: &Option<(Address, u8)>,
) -> (r: Result<(), HookError>)
    ensures
        r == initialize_list_outcome(*old(ctx), found_view(*meta_list), found_view(*config)),
        r is Err ==> *final(ctx) == *old(ctx),
        r is Ok ==> ({
            let before = *old(ctx);
            let after = *final(ctx);
            &&& after.payer == before.payer
            &&& after.mint == before.mint
            &&& after.hook_config == before.hook_config
            &&& after.extra_account_meta_list.address == before.extra_account_meta_list.address
            &&& after.extra_account_meta_list.data is Some
            &&& after.extra_account_meta_list.data.unwrap()@ == meta_list_bytes(
                extra_account_metas(),
            )
            &&& after.extra_account_meta_list.data.unwrap()@.len() == 86
        }),
{
    match config {
        Some((address, _)) => {
            if !address.same(&ctx.hook_config.address) {
                return Err(HookError::ConstraintViolation);
            }
        },
        None => {
            return Err(HookError::ConstraintViolation);
        },
    }
    let metas = derive_extra_accounts(&ctx.mint.address);
    assert(metas@.len() == meta_views(metas@).len());
    publish(&mut ctx.extra_account_meta_list, meta_list, &metas)
}

/// Computes the two descriptors of the hook and publishes them for the mint
/// of `ctx`, at the address derived from the mint. Fails with
/// `ConstraintViolation` where the list's slot or the configuration record is
/// not at its canonical address, and with `AlreadyPublished` where the list
/// exists.
pub fn initialize_extra_account_meta_list(
    program_id: &Address,
    ctx: &mut InitializeExtraAccountMetaList,
) -> (r: Result<(), HookError>)
    ensures
        r == initialize_list_outcome(
            *old(ctx),
            found_program_address(meta_list_seeds(old(ctx).mint.address@), program_id@),
            found_program_address(config_seeds(), program_id@),
        ),
        r is Err ==> *final(ctx) == *old(ctx),
        old(ctx).extra_account_meta_list.data is Some ==> r is Err,
        r is Ok ==> ({
            let before = *old(ctx);
            let after = *final(ctx);
            &&& after.payer == before.payer
            &&& after.mint == before.mint
            &&& after.hook_config == before.hook_config
            &&& after.extra_account_meta_list.address == before.extra_account_meta_list.address
            &&& after.extra_account_meta_list.data is Some
            &&& after.extra_account_meta_list.data.unwrap()@ == meta_list_bytes(
                extra_account_metas(),
            )
            &&& after.extra_account_meta_list.data.unwrap()@.len() == 86
        }),
{
    let meta_list = meta_list_address(program_id, &ctx.mint.address);
    let config = config_address(program_id);
    initialize_extra_account_meta_list_at(ctx, &meta_list, &config)
}

} // verus!
