//! Program-derived addresses of the program's accounts.
//!
//! Every account the program owns lives at an address derived from a fixed
//! list of seeds and the program id. The derivation itself (hashing, curve
//! check, bump search) is anchor_lang's `Pubkey::find_program_address`; this
//! module builds the seeds and compares the derived address with the one an
//! instruction was handed.

use vstd::prelude::*;
use vstd::bytes::{spec_u64_to_le_bytes, u64_to_le_bytes};
use crate::pubkey::Pubkey;

verus! {

/// The address and canonical bump that `Pubkey::find_program_address`
/// derives from `seeds` under `program_id`.
pub uninterp spec fn program_address(seeds: Seq<Seq<u8>>, program_id: Seq<u8>) -> (Seq<u8>, u8);

/// The address that `Pubkey::create_program_address` derives from `seeds`
/// (the bump included) under `program_id`, or `None` where it returns an error.
pub uninterp spec fn created_address(seeds: Seq<Seq<u8>>, program_id: Seq<u8>) -> Option<Seq<u8>>;

/// The seed list `seeds` followed by the one-byte seed `bump`.
pub open spec fn with_bump(seeds: Seq<Seq<u8>>, bump: u8) -> Seq<Seq<u8>> {
    seeds.push(seq![bump])
}

/// Calls anchor_lang's `Pubkey::find_program_address(seeds, program_id)`.
///
/// Trusted: the result (address bytes, bump) is `program_address` of the seed
/// bytes and the program id's bytes, a deterministic function of those bytes
/// alone; and, as the outside source returns the first bump for which
/// `create_program_address` succeeds, `create_program_address` of the seeds
/// with that bump appended gives the same address. The outside function panics
/// when 16 or more seeds are given, when a seed is longer than 32 bytes, or
/// (with negligible probability) when no bump yields an off-curve point; the
/// first two are excluded by `requires`, the last is left unsaid.
#[verifier::external_body]
pub(crate) fn find_program_address(seeds: &Vec<Vec<u8>>, program_id: &Pubkey) -> (r: (Pubkey, u8))
    requires
        seeds.len() < 16,
        forall|i: int| 0 <= i < seeds.len() ==> #[trigger] seeds[i].len() <= 32,
    ensures
        (r.0@, r.1) == program_address(seeds@.map_values(|s: Vec<u8>| s@), program_id@),
        created_address(with_bump(seeds@.map_values(|s: Vec<u8>| s@), r.1), program_id@) == Some(r.0@),
{
    let slices: Vec<&[u8]> = seeds.iter().map(|s| s.as_slice()).collect();
    let (address, bump) = anchor_lang::prelude::Pubkey::find_program_address(
        &slices,
        &anchor_lang::prelude::Pubkey::new_from_array(program_id.bytes),
    );
    (Pubkey { bytes: address.to_bytes() }, bump)
}

/// Calls anchor_lang's `Pubkey::create_program_address(seeds, program_id)`.
///
/// Trusted: `Some` of the derived address where the outside function returns
/// `Ok`, `None` where it returns an error (too many or too long seeds, or a
/// hash that lies on the curve); `created_address` names which. It never panics.
#[verifier::external_body]
pub(crate) fn create_program_address(seeds: &Vec<Vec<u8>>, program_id: &Pubkey) -> (r: Option<Pubkey>)
    ensures
        created_address(seeds@.map_values(|s: Vec<u8>| s@), program_id@) == match r {
            Some(k) => Some(k@),
            None => None::<Seq<u8>>,
        },
{
    let slices: Vec<&[u8]> = seeds.iter().map(|s| s.as_slice()).collect();
    match anchor_lang::prelude::Pubkey::create_program_address(
        &slices,
        &anchor_lang::prelude::Pubkey::new_from_array(program_id.bytes),
    ) {
        Ok(address) => Some(Pubkey { bytes: address.to_bytes() }),
        Err(_) => None,
    }
}

/// The bytes of `b"dca_config"`.
pub open spec fn config_tag() -> Seq<u8> {
    seq![100u8, 99, 97, 95, 99, 111, 110, 102, 105, 103]
}

/// The bytes of `b"dca_order"`.
pub open spec fn order_tag() -> Seq<u8> {
    seq![100u8, 99, 97, 95, 111, 114, 100, 101, 114]
}

/// The bytes of `b"escrow"`.
pub open spec fn escrow_tag() -> Seq<u8> {
    seq![101u8, 115, 99, 114, 111, 119]
}

/// The bytes of `b"escrow_auth"`.
pub open spec fn escrow_auth_tag() -> Seq<u8> {
    seq![101u8, 115, 99, 114, 111, 119, 95, 97, 117, 116, 104]
}

/// Seeds of the singleton config account: `["dca_config"]`.
pub open spec fn config_seeds() -> Seq<Seq<u8>> {
    seq![config_tag()]
}

/// Seeds of an order account:
/// `["dca_order", owner, input_mint, output_mint, created_at.to_le_bytes()]`.
pub open spec fn order_seeds(owner: Pubkey, input_mint: Pubkey, output_mint: Pubkey, created_at: i64) -> Seq<Seq<u8>> {
    seq![order_tag(), owner@, input_mint@, output_mint@, spec_u64_to_le_bytes(created_at as u64)]
}

/// Seeds of an order's escrow token account: `["escrow", order]`.
pub open spec fn escrow_seeds(order: Pubkey) -> Seq<Seq<u8>> {
    seq![escrow_tag(), order@]
}

/// Seeds of the PDA that signs for an order's escrow: `["escrow_auth", order]`.
pub open spec fn escrow_auth_seeds(order: Pubkey) -> Seq<Seq<u8>> {
    seq![escrow_auth_tag(), order@]
}

/// The address that `find_program_address` derives from `seeds`.
pub open spec fn pda(seeds: Seq<Seq<u8>>, program_id: Pubkey) -> Seq<u8> {
    program_address(seeds, program_id@).0
}

/// The canonical bump that `find_program_address` finds for `seeds`.
pub open spec fn canonical_bump(seeds: Seq<Seq<u8>>, program_id: Pubkey) -> u8 {
    program_address(seeds, program_id@).1
}

/// `key` is the address that `seeds` and the stored `bump` derive, as the
/// check `seeds = [..], bump = stored` of an account declaration reads it.
pub open spec fn at_bumped_address(key: Pubkey, seeds: Seq<Seq<u8>>, bump: u8, program_id: Pubkey) -> bool {
    created_address(with_bump(seeds, bump), program_id@) == Some(key@)
}

fn tag_config() -> (r: Vec<u8>)
    ensures
        r@ == config_tag(),
{
    let r: Vec<u8> = vec![100u8, 99, 97, 95, 99, 111, 110, 102, 105, 103];
    assert(r@ =~= config_tag());
    r
}

fn tag_order() -> (r: Vec<u8>)
    ensures
        r@ == order_tag(),
{
    let r: Vec<u8> = vec![100u8, 99, 97, 95, 111, 114, 100, 101, 114];
    assert(r@ =~= order_tag());
    r
}

fn tag_escrow() -> (r: Vec<u8>)
    ensures
        r@ == escrow_tag(),
{
    let r: Vec<u8> = vec![101u8, 115, 99, 114, 111, 119];
    assert(r@ =~= escrow_tag());
    r
}

fn tag_escrow_auth() -> (r: Vec<u8>)
    ensures
        r@ == escrow_auth_tag(),
{
    let r: Vec<u8> = vec![101u8, 115, 99, 114, 111, 119, 95, 97, 117, 116, 104];
    assert(r@ =~= escrow_auth_tag());
    r
}

/// The seeds of the config account.
pub(crate) fn seeds_config() -> (r: Vec<Vec<u8>>)
    ensures
        r@.map_values(|s: Vec<u8>| s@) == config_seeds(),
        r.len() == 1,
        forall|i: int| 0 <= i < r.len() ==> #[trigger] r[i].len() <= 32,
{
    let mut seeds: Vec<Vec<u8>> = Vec::new();
    seeds.push(tag_config());
    assert(seeds@.map_values(|s: Vec<u8>| s@) =~= config_seeds());
    seeds
}

/// The seeds of the order that `owner` opens on `(input_mint, output_mint)` at `created_at`.
pub(crate) fn seeds_order(owner: &Pubkey, input_mint: &Pubkey, output_mint: &Pubkey, created_at: i64) -> (r: Vec<Vec<u8>>)
    ensures
        r@.map_values(|s: Vec<u8>| s@) == order_seeds(*owner, *input_mint, *output_mint, created_at),
        r.len() == 5,
        forall|i: int| 0 <= i < r.len() ==> #[trigger] r[i].len() <= 32,
{
    let stamp = u64_to_le_bytes(#[verifier::truncate] (created_at as u64));
    proof {
        vstd::bytes::lemma_auto_spec_u64_to_from_le_bytes();
    }
    let s0 = tag_order();
    let s1 = owner.to_seed();
    let s2 = input_mint.to_seed();
    let s3 = output_mint.to_seed();
    let mut seeds: Vec<Vec<u8>> = Vec::new();
    seeds.push(s0);
    seeds.push(s1);
    seeds.push(s2);
    seeds.push(s3);
    seeds.push(stamp);
    assert(seeds@.map_values(|s: Vec<u8>| s@) =~= order_seeds(*owner, *input_mint, *output_mint, created_at));
    seeds
}

/// The seeds of the escrow token account of `order`.
pub(crate) fn seeds_escrow(order: &Pubkey) -> (r: Vec<Vec<u8>>)
    ensures
        r@.map_values(|s: Vec<u8>| s@) == escrow_seeds(*order),
        r.len() == 2,
        forall|i: int| 0 <= i < r.len() ==> #[trigger] r[i].len() <= 32,
{
    let s0 = tag_escrow();
    let s1 = order.to_seed();
    let mut seeds: Vec<Vec<u8>> = Vec::new();
    seeds.push(s0);
    seeds.push(s1);
    assert(seeds@.map_values(|s: Vec<u8>| s@) =~= escrow_seeds(*order));
    seeds
}

/// The seeds of the PDA that signs for the escrow of `order`.
pub(crate) fn seeds_escrow_auth(order: &Pubkey) -> (r: Vec<Vec<u8>>)
    ensures
        r@.map_values(|s: Vec<u8>| s@) == escrow_auth_seeds(*order),
        r.len() == 2,
        forall|i: int| 0 <= i < r.len() ==> #[trigger] r[i].len() <= 32,
{
    let s0 = tag_escrow_auth();
    let s1 = order.to_seed();
    let mut seeds: Vec<Vec<u8>> = Vec::new();
    seeds.push(s0);
    seeds.push(s1);
    assert(seeds@.map_values(|s: Vec<u8>| s@) =~= escrow_auth_seeds(*order));
    seeds
}

/// Whether `key` is the address that `seeds` with the stored `bump` derive.
pub(crate) fn check_bumped_address(key: &Pubkey, seeds: Vec<Vec<u8>>, bump: u8, program_id: &Pubkey) -> (r: bool)
    ensures
        r == at_bumped_address(*key, seeds@.map_values(|s: Vec<u8>| s@), bump, *program_id),
{
    let ghost before = seeds@.map_values(|s: Vec<u8>| s@);
    let mut seeds = seeds;
    let mut b: Vec<u8> = Vec::new();
    b.push(bump);
    seeds.push(b);
    assert(seeds@.map_values(|s: Vec<u8>| s@) =~= with_bump(before, bump));
    match create_program_address(&seeds, program_id) {
        Some(k) => k.key_eq(key),
        None => false,
    }
}

/// Whether `key` is the config PDA under the stored `bump`.
pub(crate) fn check_config_address(key: &Pubkey, bump: u8, program_id: &Pubkey) -> (r: bool)
    ensures
        r == at_bumped_address(*key, config_seeds(), bump, *program_id),
{
    check_bumped_address(key, seeds_config(), bump, program_id)
}

/// Whether `key` is the escrow PDA of `order` under the stored `bump`.
pub(crate) fn check_escrow_address(key: &Pubkey, order: &Pubkey, bump: u8, program_id: &Pubkey) -> (r: bool)
    ensures
        r == at_bumped_address(*key, escrow_seeds(*order), bump, *program_id),
{
    check_bumped_address(key, seeds_escrow(order), bump, program_id)
}

/// Address and bump of the config account.
pub fn config_address(program_id: &Pubkey) -> (r: (Pubkey, u8))
    ensures
        r.0@ == pda(config_seeds(), *program_id),
        r.1 == canonical_bump(config_seeds(), *program_id),
{
    find_program_address(&seeds_config(), program_id)
}

/// Address and bump of the order that `owner` opens on
/// `(input_mint, output_mint)` with `created_at`.
pub fn order_address(
    program_id: &Pubkey,
    owner: &Pubkey,
    input_mint: &Pubkey,
    output_mint: &Pubkey,
    created_at: i64,
) -> (r: (Pubkey, u8))
    ensures
        r.0@ == pda(order_seeds(*owner, *input_mint, *output_mint, created_at), *program_id),
        r.1 == canonical_bump(order_seeds(*owner, *input_mint, *output_mint, created_at), *program_id),
{
    find_program_address(&seeds_order(owner, input_mint, output_mint, created_at), program_id)
}

/// Address and bump of the escrow token account of `order`.
pub fn escrow_address(program_id: &Pubkey, order: &Pubkey) -> (r: (Pubkey, u8))
    ensures
        r.0@ == pda(escrow_seeds(*order), *program_id),
        r.1 == canonical_bump(escrow_seeds(*order), *program_id),
{
    find_program_address(&seeds_escrow(order), program_id)
}

/// Address and bump of the PDA that signs for the escrow of `order`.
pub fn escrow_authority_address(program_id: &Pubkey, order: &Pubkey) -> (r: (Pubkey, u8))
    ensures
        r.0@ == pda(escrow_auth_seeds(*order), *program_id),
        r.1 == canonical_bump(escrow_auth_seeds(*order), *program_id),
{
    find_program_address(&seeds_escrow_auth(order), program_id)
}

} // verus!
