use crate::address::Address;
use vstd::prelude::*;

verus! {

/// The address that the host derives from `seeds` for `program`, or `None`
/// where the seeds are too many or too long, or the hash of the seeds falls
/// on the curve.
pub uninterp spec fn program_address(seeds: Seq<Seq<u8>>, program: Seq<u8>) -> Option<Seq<u8>>;

/// The canonical address of `seeds` for `program` and the bump byte that
/// gives it: the result of the host's search for the highest bump byte that
/// makes a valid derivation, or `None` where there is none.
pub uninterp spec fn found_program_address(seeds: Seq<Seq<u8>>, program: Seq<u8>) -> Option<
    (Seq<u8>, u8),
>;

/// The seeds of a derivation as byte sequences.
pub open spec fn seed_views(seeds: Seq<Vec<u8>>) -> Seq<Seq<u8>> {
    Seq::new(seeds.len(), |i: int| seeds[i]@)
}

/// What an optional address stands for in contracts.
pub open spec fn address_view(a: Option<Address>) -> Option<Seq<u8>> {
    match a {
        Some(a) => Some(a@),
        None => None,
    }
}

/// What an optional address with its bump byte stands for in contracts.
pub open spec fn found_view(a: Option<(Address, u8)>) -> Option<(Seq<u8>, u8)> {
    match a {
        Some((a, bump)) => Some((a@, bump)),
        None => None,
    }
}

/// The label of the configuration record: `hook-config`.
pub open spec fn hook_config_label() -> Seq<u8> {
    seq![104u8, 111u8, 111u8, 107u8, 45u8, 99u8, 111u8, 110u8, 102u8, 105u8, 103u8]
}

/// The label of the winner's token account: `winner-token`.
pub open spec fn winner_token_label() -> Seq<u8> {
    seq![119u8, 105u8, 110u8, 110u8, 101u8, 114u8, 45u8, 116u8, 111u8, 107u8, 101u8, 110u8]
}

/// The label of the published list of extra accounts: `extra-account-metas`.
pub open spec fn extra_account_metas_label() -> Seq<u8> {
    seq![
        101u8, 120u8, 116u8, 114u8, 97u8, 45u8, 97u8, 99u8, 99u8, 111u8, 117u8, 110u8, 116u8,
        45u8, 109u8, 101u8, 116u8, 97u8, 115u8,
    ]
}

/// The seeds of the configuration record.
pub open spec fn config_seeds() -> Seq<Seq<u8>> {
    seq![hook_config_label()]
}

/// The seeds of the configuration record with a given bump byte.
pub open spec fn config_seeds_with_bump(bump: u8) -> Seq<Seq<u8>> {
    seq![hook_config_label(), seq![bump]]
}

/// The seeds of the list of extra accounts of a mint.
pub open spec fn meta_list_seeds(mint: Seq<u8>) -> Seq<Seq<u8>> {
    seq![extra_account_metas_label(), mint]
}

/// The bytes of `hook-config`.
pub fn hook_config_label_bytes() -> (r: Vec<u8>)
    ensures
        r@ == hook_config_label(),
{
    let r = vec![104u8, 111u8, 111u8, 107u8, 45u8, 99u8, 111u8, 110u8, 102u8, 105u8, 103u8];
    assert(r@ =~= hook_config_label());
    r
}

/// The bytes of `winner-token`.
pub fn winner_token_label_bytes() -> (r: Vec<u8>)
    ensures
        r@ == winner_token_label(),
{
    let r = vec![
        119u8, 105u8, 110u8, 110u8, 101u8, 114u8, 45u8, 116u8, 111u8, 107u8, 101u8, 110u8,
    ];
    assert(r@ =~= winner_token_label());
    r
}

/// The bytes of `extra-account-metas`.
pub fn extra_account_metas_label_bytes() -> (r: Vec<u8>)
    ensures
        r@ == extra_account_metas_label(),
{
    let r = vec![
        101u8, 120u8, 116u8, 114u8, 97u8, 45u8, 97u8, 99u8, 99u8, 111u8, 117u8, 110u8, 116u8,
        45u8, 109u8, 101u8, 116u8, 97u8, 115u8,
    ];
    assert(r@ =~= extra_account_metas_label());
    r
}

/// Calls `Pubkey::create_program_address`. The contract claims that the
/// result is the host's derivation for the seeds and the program, a function
/// of these bytes alone, and that an error of the call is `None`.
#[verifier::external_body]
pub(crate) fn create_program_address(seeds: &Vec<Vec<u8>>, program: &Address) -> (r: Option<
    Address,
>)
    ensures
        address_view(r) == program_address(seed_views(seeds@), program@),
{
    let parts: Vec<&[u8]> = seeds.iter().map(|s| s.as_slice()).collect();
    let program_key = anchor_lang::prelude::Pubkey::new_from_array(program.bytes);
    match anchor_lang::prelude::Pubkey::create_program_address(&parts, &program_key) {
        Ok(key) => Some(Address { bytes: key.to_bytes() }),
        Err(_) => None,
    }
}

/// Calls `Pubkey::try_find_program_address`. The contract claims that the
/// result is the host's canonical derivation for the seeds and the program, a
/// function of these bytes alone, and that the address found is the one that
/// the seeds derive with the bump byte found as their last seed.
#[verifier::external_body]
pub(crate) fn find_program_address(seeds: &Vec<Vec<u8>>, program: &Address) -> (r: Option<
    (Address, u8),
>)
    ensures
        found_view(r) == found_program_address(seed_views(seeds@), program@),
        r is Some ==> program_address(
            seed_views(seeds@).push(seq![r.unwrap().1]),
            program@,
        ) == Some(r.unwrap().0@),
{
    let parts: Vec<&[u8]> = seeds.iter().map(|s| s.as_slice()).collect();
    let program_key = anchor_lang::prelude::Pubkey::new_from_array(program.bytes);
    anchor_lang::prelude::Pubkey::try_find_program_address(&parts, &program_key)
        .map(|(key, bump)| (Address { bytes: key.to_bytes() }, bump))
}

/// The canonical address of the configuration record of `program_id`, with
/// its bump byte.
pub fn config_address(program_id: &Address) -> (r: Option<(Address, u8)>)
    ensures
        found_view(r) == found_program_address(config_seeds(), program_id@),
        r is Some ==> program_address(config_seeds_with_bump(r.unwrap().1), program_id@) == Some(
            r.unwrap().0@,
        ),
{
    let mut seeds: Vec<Vec<u8>> = Vec::new();
    seeds.push(hook_config_label_bytes());
    assert(seed_views(seeds@) =~= config_seeds());
    let r = find_program_address(&seeds, program_id);
    proof {
        if r is Some {
            assert(config_seeds().push(seq![r.unwrap().1]) =~= config_seeds_with_bump(
                r.unwrap().1,
            ));
        }
    }
    r
}

/// The address of the configuration record of `program_id` for a stored bump
/// byte.
pub fn config_address_with_bump(program_id: &Address, bump: u8) -> (r: Option<Address>)
    ensures
        address_view(r) == program_address(config_seeds_with_bump(bump), program_id@),
{
    let mut seeds: Vec<Vec<u8>> = Vec::new();
    seeds.push(hook_config_label_bytes());
    let mut last: Vec<u8> = Vec::new();
    last.push(bump);
    assert(last@ =~= seq![bump]);
    seeds.push(last);
    assert(seed_views(seeds@) =~= config_seeds_with_bump(bump));
    create_program_address(&seeds, program_id)
}

/// The canonical address of the list of extra accounts of `mint`, with its
/// bump byte.
pub fn meta_list_address(program_id: &Address, mint: &Address) -> (r: Option<(Address, u8)>)
    ensures
        found_view(r) == found_program_address(meta_list_seeds(mint@), program_id@),
{
    let mut seeds: Vec<Vec<u8>> = Vec::new();
    seeds.push(extra_account_metas_label_bytes());
    seeds.push(mint.to_vec());
    assert(seed_views(seeds@) =~= meta_list_seeds(mint@));
    find_program_address(&seeds, program_id)
}

} // verus!
