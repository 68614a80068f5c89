//! Where the accounts live. Every account of the program sits at an address
//! derived from seeds: a grant from its company's name, a treasury from a tag
//! and the company's name, an employee's allocation from a tag, the
//! beneficiary and the grant. The derivation itself is the ledger's: this
//! module lays out the seeds and calls it.

use crate::pubkey::Pubkey;
use vstd::prelude::*;
use vstd::slice::slice_to_vec;
use vstd::utf8::encode_utf8;

verus! {

/// The tag that starts the seeds of a treasury: the ASCII bytes of `vesting_treasury`.
pub const TREASURY_TAG: [u8; 16] = [
    118, 101, 115, 116, 105, 110, 103, 95, 116, 114, 101, 97, 115, 117, 114, 121,
];

/// The tag that starts the seeds of an employee's allocation: the ASCII bytes of
/// `employee_vesting`.
pub const EMPLOYEE_TAG: [u8; 16] = [
    101, 109, 112, 108, 111, 121, 101, 101, 95, 118, 101, 115, 116, 105, 110, 103,
];

/// The address that the ledger derives from these seeds under this program: its
/// 32 bytes, or `None` where the seeds derive none. The seeds are taken as they
/// are, with no bump added.
pub uninterp spec fn program_address(seeds: Seq<Seq<u8>>, program_id: Seq<u8>) -> Option<Seq<u8>>;

/// The canonical address for these seeds under this program, with the bump that
/// was added to the seeds to reach it, or `None` where the search finds none.
pub uninterp spec fn canonical_address(seeds: Seq<Seq<u8>>, program_id: Seq<u8>) -> Option<
    (Seq<u8>, u8),
>;

/// The bytes of an address that may be missing.
pub open spec fn address_bytes(address: Option<Pubkey>) -> Option<Seq<u8>> {
    match address {
        Some(key) => Some(key.bytes@),
        None => None,
    }
}

/// The bytes and the bump of a canonical address that may be missing.
pub open spec fn canonical_bytes(found: Option<(Pubkey, u8)>) -> Option<(Seq<u8>, u8)> {
    match found {
        Some((key, bump)) => Some((key.bytes@, bump)),
        None => None,
    }
}

/// The seeds of a company's grant.
pub open spec fn vesting_seeds(company_name: Seq<char>) -> Seq<Seq<u8>> {
    seq![encode_utf8(company_name)]
}

/// The seeds of a company's treasury.
pub open spec fn treasury_seeds(company_name: Seq<char>) -> Seq<Seq<u8>> {
    seq![TREASURY_TAG@, encode_utf8(company_name)]
}

/// The seeds of the allocation of `beneficiary` under the grant at `vesting_account`.
pub open spec fn employee_seeds(beneficiary: Pubkey, vesting_account: Pubkey) -> Seq<Seq<u8>> {
    seq![EMPLOYEE_TAG@, beneficiary.bytes@, vesting_account.bytes@]
}

/// The bytes of each seed of a list of seeds.
pub open spec fn seed_bytes(seeds: Seq<Vec<u8>>) -> Seq<Seq<u8>> {
    Seq::new(seeds.len(), |i: int| seeds[i]@)
}

/// The most seeds that the ledger derives an address from, the bump counted.
pub const MAX_SEEDS: usize = 16;

/// The most bytes that the ledger takes in one seed.
pub const MAX_SEED_LEN: usize = 32;

/// Seeds that leave room for a bump, each of a length that the derivation takes.
pub open spec fn seeds_fit(seeds: Seq<Seq<u8>>) -> bool {
    &&& seeds.len() < MAX_SEEDS
    &&& forall|i: int| 0 <= i < seeds.len() ==> (#[trigger] seeds[i]).len() <= MAX_SEED_LEN
}

/// `seeds` followed by the one-byte seed `bump`.
pub open spec fn with_bump(seeds: Seq<Seq<u8>>, bump: u8) -> Seq<Seq<u8>> {
    seeds.push(seq![bump])
}

/// Calls `Pubkey::create_program_address`, which anchor-lang hands on from
/// solana-program, on the seeds as they are. The result is a function of the
/// seeds and the program alone (a hash, and a test that it is no point of the
/// curve); the contract gives it the name `program_address` and claims nothing
/// more. An error of the outside function comes back as `None`.
#[verifier::external_body]
pub(crate) fn create_program_address(seeds: &Vec<Vec<u8>>, program_id: &Pubkey) -> (r: Option<
    Pubkey,
>)
    ensures
        address_bytes(r) == program_address(seed_bytes(seeds@), program_id.bytes@),
{
    let parts: Vec<&[u8]> = seeds.iter().map(|seed| seed.as_slice()).collect();
    let program = anchor_lang::prelude::Pubkey::new_from_array(program_id.bytes);
    match anchor_lang::prelude::Pubkey::create_program_address(&parts, &program) {
        Ok(address) => Some(Pubkey { bytes: address.to_bytes() }),
        Err(_) => None,
    }
}

/// Calls `Pubkey::try_find_program_address`, which anchor-lang hands on from
/// solana-program. The result is a function of the seeds and the program alone;
/// the contract gives it the name `canonical_address`. Two facts of the outside
/// function are claimed beside the name: the address it finds is the one that
/// `Pubkey::create_program_address` derives from the seeds followed by the bump,
/// and it finds none unless there are fewer than `MAX_SEEDS` seeds of at most
/// `MAX_SEED_LEN` bytes each.
#[verifier::external_body]
pub(crate) fn try_find_program_address(seeds: &Vec<Vec<u8>>, program_id: &Pubkey) -> (r: Option<
    (Pubkey, u8),
>)
    ensures
        canonical_bytes(r) == canonical_address(seed_bytes(seeds@), program_id.bytes@),
        r matches Some((key, bump)) ==> program_address(
            with_bump(seed_bytes(seeds@), bump),
            program_id.bytes@,
        ) == Some(key.bytes@),
        r is Some ==> seeds_fit(seed_bytes(seeds@)),
{
    let parts: Vec<&[u8]> = seeds.iter().map(|seed| seed.as_slice()).collect();
    let program = anchor_lang::prelude::Pubkey::new_from_array(program_id.bytes);
    match anchor_lang::prelude::Pubkey::try_find_program_address(&parts, &program) {
        Some((address, bump)) => Some((Pubkey { bytes: address.to_bytes() }, bump)),
        None => None,
    }
}

/// The bytes of a name, as a seed.
fn name_seed(company_name: &str) -> (r: Vec<u8>)
    ensures
        r@ == encode_utf8(company_name@),
{
    slice_to_vec(company_name.as_bytes())
}

/// A tag, as a seed.
fn tag_seed(tag: &[u8; 16]) -> (r: Vec<u8>)
    ensures
        r@ == tag@,
{
    slice_to_vec(tag.as_slice())
}

/// The one-byte seed that holds a bump.
fn bump_seed(bump: u8) -> (r: Vec<u8>)
    ensures
        r@ == seq![bump],
{
    let mut seed: Vec<u8> = Vec::new();
    seed.push(bump);
    assert(seed@ =~= seq![bump]);
    seed
}

/// The seeds of a company's grant, followed by `bump`.
pub fn vesting_seeds_with_bump(company_name: &str, bump: u8) -> (r: Vec<Vec<u8>>)
    ensures
        seed_bytes(r@) == with_bump(vesting_seeds(company_name@), bump),
{
    let mut seeds: Vec<Vec<u8>> = Vec::new();
    seeds.push(name_seed(company_name));
    seeds.push(bump_seed(bump));
    assert(seed_bytes(seeds@) =~= with_bump(vesting_seeds(company_name@), bump));
    seeds
}

/// The seeds of a company's treasury, followed by `bump`. They are the seeds
/// that sign for the treasury.
pub fn treasury_seeds_with_bump(company_name: &str, bump: u8) -> (r: Vec<Vec<u8>>)
    ensures
        seed_bytes(r@) == with_bump(treasury_seeds(company_name@), bump),
{
    let mut seeds: Vec<Vec<u8>> = Vec::new();
    seeds.push(tag_seed(&TREASURY_TAG));
    seeds.push(name_seed(company_name));
    seeds.push(bump_seed(bump));
    assert(seed_bytes(seeds@) =~= with_bump(treasury_seeds(company_name@), bump));
    seeds
}

/// The seeds of the allocation of `beneficiary` under the grant at
/// `vesting_account`, followed by `bump`.
pub fn employee_seeds_with_bump(beneficiary: &Pubkey, vesting_account: &Pubkey, bump: u8) -> (r:
    Vec<Vec<u8>>)
    ensures
        seed_bytes(r@) == with_bump(employee_seeds(*beneficiary, *vesting_account), bump),
{
    let mut seeds: Vec<Vec<u8>> = Vec::new();
    seeds.push(tag_seed(&EMPLOYEE_TAG));
    seeds.push(slice_to_vec(beneficiary.bytes.as_slice()));
    seeds.push(slice_to_vec(vesting_account.bytes.as_slice()));
    seeds.push(bump_seed(bump));
    assert(seed_bytes(seeds@) =~= with_bump(
        employee_seeds(*beneficiary, *vesting_account),
        bump,
    ));
    seeds
}

/// Where the grant of the company `company_name` lives, and the bump of that address.
pub fn find_vesting_address(company_name: &str, program_id: &Pubkey) -> (r: Option<(Pubkey, u8)>)
    ensures
        canonical_bytes(r) == canonical_address(vesting_seeds(company_name@), program_id.bytes@),
        r matches Some((key, bump)) ==> program_address(
            with_bump(vesting_seeds(company_name@), bump),
            program_id.bytes@,
        ) == Some(key.bytes@),
        r is Some ==> encode_utf8(company_name@).len() <= MAX_SEED_LEN,
{
    let mut seeds: Vec<Vec<u8>> = Vec::new();
    seeds.push(name_seed(company_name));
    assert(seed_bytes(seeds@) =~= vesting_seeds(company_name@));
    assert(vesting_seeds(company_name@)[0] == encode_utf8(company_name@));
    try_find_program_address(&seeds, program_id)
}

/// Where the treasury of the company `company_name` lives, and the bump of that
/// address.
pub fn find_treasury_address(company_name: &str, program_id: &Pubkey) -> (r: Option<(Pubkey, u8)>)
    ensures
        canonical_bytes(r) == canonical_address(treasury_seeds(company_name@), program_id.bytes@),
        r matches Some((key, bump)) ==> program_address(
            with_bump(treasury_seeds(company_name@), bump),
            program_id.bytes@,
        ) == Some(key.bytes@),
{
    let mut seeds: Vec<Vec<u8>> = Vec::new();
    seeds.push(tag_seed(&TREASURY_TAG));
    seeds.push(name_seed(company_name));
    assert(seed_bytes(seeds@) =~= treasury_seeds(company_name@));
    try_find_program_address(&seeds, program_id)
}

/// Where the allocation of `beneficiary` under the grant at `vesting_account`
/// lives, and the bump of that address.
pub fn find_employee_address(
    beneficiary: &Pubkey,
    vesting_account: &Pubkey,
    program_id: &Pubkey,
) -> (r: Option<(Pubkey, u8)>)
    ensures
        canonical_bytes(r) == canonical_address(
            employee_seeds(*beneficiary, *vesting_account),
            program_id.bytes@,
        ),
        r matches Some((key, bump)) ==> program_address(
            with_bump(employee_seeds(*beneficiary, *vesting_account), bump),
            program_id.bytes@,
        ) == Some(key.bytes@),
{
    let mut seeds: Vec<Vec<u8>> = Vec::new();
    seeds.push(tag_seed(&EMPLOYEE_TAG));
    seeds.push(slice_to_vec(beneficiary.bytes.as_slice()));
    seeds.push(slice_to_vec(vesting_account.bytes.as_slice()));
    assert(seed_bytes(seeds@) =~= employee_seeds(*beneficiary, *vesting_account));
    try_find_program_address(&seeds, program_id)
}

} // verus!
