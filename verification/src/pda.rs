//! Deterministic address derivation.
//!
//! Every vault account lives at an address derived from a canonical tag and
//! the underlying mint, so any party can re-derive it and no private key can
//! control it. The derivation itself is the hash search performed by the
//! execution environment; this module names its result (`pda_of`) and builds
//! the seed lists each derivation uses.

use vstd::prelude::*;

use crate::addr::{address_to_vec, Address};

verus! {

/// The derived address and bump seed that
/// `solana_program::pubkey::Pubkey::find_program_address` returns for the
/// given seed list and program: a function of those arguments alone.
pub uninterp spec fn pda_of(seeds: Seq<Seq<u8>>, program_id: Seq<u8>) -> (Seq<u8>, u8);

/// Tag of the wrapper-mint derivation: the bytes of "wrapper".
pub open spec fn wrapper_tag() -> Seq<u8> {
    seq![119u8, 114, 97, 112, 112, 101, 114]
}

/// Tag of the reserve-authority derivation: the bytes of "reserve_authority".
pub open spec fn reserve_authority_tag() -> Seq<u8> {
    seq![114u8, 101, 115, 101, 114, 118, 101, 95, 97, 117, 116, 104, 111, 114, 105, 116, 121]
}

/// Tag of the custody-account derivation: the bytes of
/// "reserve_authority_token_account".
pub open spec fn reserve_token_account_tag() -> Seq<u8> {
    seq![
        114u8, 101, 115, 101, 114, 118, 101, 95, 97, 117, 116, 104, 111, 114, 105, 116, 121, 95,
        116, 111, 107, 101, 110, 95, 97, 99, 99, 111, 117, 110, 116,
    ]
}

/// Tag of the mint-authority derivation: the bytes of "mint_authority".
pub open spec fn mint_authority_tag() -> Seq<u8> {
    seq![109u8, 105, 110, 116, 95, 97, 117, 116, 104, 111, 114, 105, 116, 121]
}

/// Tag of the freeze-authority derivation: the bytes of "freeze_authority".
pub open spec fn freeze_authority_tag() -> Seq<u8> {
    seq![102u8, 114, 101, 101, 122, 101, 95, 97, 117, 116, 104, 111, 114, 105, 116, 121]
}

/// The wrapper mint address and bump for an underlying mint.
pub open spec fn wrapper_mint_pda(token_2022_mint: Seq<u8>, program_id: Seq<u8>) -> (Seq<u8>, u8) {
    pda_of(seq![wrapper_tag(), token_2022_mint], program_id)
}

/// The reserve authority address and bump for an underlying mint.
pub open spec fn reserve_authority_pda(token_2022_mint: Seq<u8>, program_id: Seq<u8>) -> (
    Seq<u8>,
    u8,
) {
    pda_of(seq![reserve_authority_tag(), token_2022_mint], program_id)
}

/// The custody account address and bump for an underlying mint and its
/// reserve authority.
pub open spec fn reserve_token_account_pda(
    token_2022_mint: Seq<u8>,
    owner: Seq<u8>,
    program_id: Seq<u8>,
) -> (Seq<u8>, u8) {
    pda_of(seq![reserve_token_account_tag(), token_2022_mint, owner], program_id)
}

/// The derived holding account of a wallet for a mint under a token program.
pub open spec fn associated_token_pda(
    wallet: Seq<u8>,
    token_program: Seq<u8>,
    mint: Seq<u8>,
) -> (Seq<u8>, u8) {
    pda_of(
        seq![wallet, token_program, mint],
        crate::ids::associated_token_program_id_bytes(),
    )
}

/// The mint authority address and bump for a mint.
pub open spec fn mint_authority_pda(token_mint: Seq<u8>, program_id: Seq<u8>) -> (Seq<u8>, u8) {
    pda_of(seq![mint_authority_tag(), token_mint], program_id)
}

/// The freeze authority address and bump for a mint.
pub open spec fn freeze_authority_pda(token_mint: Seq<u8>, program_id: Seq<u8>) -> (Seq<u8>, u8) {
    pda_of(seq![freeze_authority_tag(), token_mint], program_id)
}

/// Relies on solana_program::pubkey::Pubkey::find_program_address: the result
/// is computed by hashing the seeds, a bump byte and the program id, so it is
/// a function of the arguments alone and every party re-derives the same
/// address. The bound on seed count and length keeps every derivation attempt
/// inside the limits the function accepts; it panics only if no bump byte
/// yields a valid derived address, a case with no known instance.
#[verifier::external_body]
fn find_pda(seeds: &Vec<Vec<u8>>, program_id: &Address) -> (r: (Address, u8))
    requires
        seeds.deep_view().len() <= 15,
        forall|i: int|
            0 <= i < seeds.deep_view().len() ==> (#[trigger] seeds.deep_view()[i]).len() <= 32,
    ensures
        r.0.bytes@ == pda_of(seeds.deep_view(), program_id.bytes@).0,
        r.1 == pda_of(seeds.deep_view(), program_id.bytes@).1,
{
    let seed_slices: Vec<&[u8]> = seeds.iter().map(|s| s.as_slice()).collect();
    let (key, bump) = solana_program::pubkey::Pubkey::find_program_address(
        &seed_slices,
        &solana_program::pubkey::Pubkey::new_from_array(program_id.bytes),
    );
    (Address { bytes: key.to_bytes() }, bump)
}

/// The bytes of "wrapper", as a seed.
fn wrapper_tag_vec() -> (v: Vec<u8>)
    ensures
        v@ == wrapper_tag(),
{
    let tag: [u8; 7] = [119, 114, 97, 112, 112, 101, 114];
    let v = vstd::slice::slice_to_vec(tag.as_slice());
    proof {
        assert(v@ =~= wrapper_tag());
    }
    v
}

/// The bytes of "reserve_authority", as a seed.
fn reserve_authority_tag_vec() -> (v: Vec<u8>)
    ensures
        v@ == reserve_authority_tag(),
{
    let tag: [u8; 17] = [
        114,
        101,
        115,
        101,
        114,
        118,
        101,
        95,
        97,
        117,
        116,
        104,
        111,
        114,
        105,
        116,
        121,
    ];
    let v = vstd::slice::slice_to_vec(tag.as_slice());
    proof {
        assert(v@ =~= reserve_authority_tag());
    }
    v
}

/// The bytes of "reserve_authority_token_account", as a seed.
fn reserve_token_account_tag_vec() -> (v: Vec<u8>)
    ensures
        v@ == reserve_token_account_tag(),
{
    let tag: [u8; 31] = [
        114,
        101,
        115,
        101,
        114,
        118,
        101,
        95,
        97,
        117,
        116,
        104,
        111,
        114,
        105,
        116,
        121,
        95,
        116,
        111,
        107,
        101,
        110,
        95,
        97,
        99,
        99,
        111,
        117,
        110,
        116,
    ];
    let v = vstd::slice::slice_to_vec(tag.as_slice());
    proof {
        assert(v@ =~= reserve_token_account_tag());
    }
    v
}

/// The bytes of "mint_authority", as a seed.
fn mint_authority_tag_vec() -> (v: Vec<u8>)
    ensures
        v@ == mint_authority_tag(),
{
    let tag: [u8; 14] = [109, 105, 110, 116, 95, 97, 117, 116, 104, 111, 114, 105, 116, 121];
    let v = vstd::slice::slice_to_vec(tag.as_slice());
    proof {
        assert(v@ =~= mint_authority_tag());
    }
    v
}

/// The bytes of "freeze_authority", as a seed.
fn freeze_authority_tag_vec() -> (v: Vec<u8>)
    ensures
        v@ == freeze_authority_tag(),
{
    let tag: [u8; 16] = [
        102,
        114,
        101,
        101,
        122,
        101,
        95,
        97,
        117,
        116,
        104,
        111,
        114,
        105,
        116,
        121,
    ];
    let v = vstd::slice::slice_to_vec(tag.as_slice());
    proof {
        assert(v@ =~= freeze_authority_tag());
    }
    v
}

/// Derives a tagged address over one context address, returning the address,
/// the bump, and the full seed list (tag, context, bump) that proves control
/// of the address.
fn derive_one(tag: Vec<u8>, context: Address, program_id: Address) -> (r: (Address, u8, Vec<
    Vec<u8>,
>))
    requires
        tag@.len() <= 32,
    ensures
        r.0.bytes@ == pda_of(seq![tag@, context.bytes@], program_id.bytes@).0,
        r.1 == pda_of(seq![tag@, context.bytes@], program_id.bytes@).1,
        r.2.deep_view() == seq![tag@, context.bytes@, seq![r.1]],
{
    let ghost tag_view = tag@;
    let mut seeds: Vec<Vec<u8>> = Vec::new();
    seeds.push(tag);
    seeds.push(address_to_vec(&context));
    proof {
        assert(seeds.deep_view() =~~= seq![tag_view, context.bytes@]);
    }
    let (key, bump) = find_pda(&seeds, &program_id);
    let mut bump_vec: Vec<u8> = Vec::new();
    bump_vec.push(bump);
    seeds.push(bump_vec);
    proof {
        assert(seeds.deep_view() =~~= seq![tag_view, context.bytes@, seq![bump]]);
    }
    (key, bump, seeds)
}

/// The wrapper mint for an underlying mint: its derived address, bump, and
/// signing seeds.
pub fn get_wrapper_token_mint(token_2022_mint: Address, program_id: Address) -> (r: (
    Address,
    u8,
    Vec<Vec<u8>>,
))
    ensures
        r.0.bytes@ == wrapper_mint_pda(token_2022_mint.bytes@, program_id.bytes@).0,
        r.1 == wrapper_mint_pda(token_2022_mint.bytes@, program_id.bytes@).1,
        r.2.deep_view() == seq![wrapper_tag(), token_2022_mint.bytes@, seq![r.1]],
{
    derive_one(wrapper_tag_vec(), token_2022_mint, program_id)
}

/// The reserve authority for an underlying mint: its derived address, bump,
/// and signing seeds.
pub fn get_reserve_authority(token_2022_mint: Address, program_id: Address) -> (r: (
    Address,
    u8,
    Vec<Vec<u8>>,
))
    ensures
        r.0.bytes@ == reserve_authority_pda(token_2022_mint.bytes@, program_id.bytes@).0,
        r.1 == reserve_authority_pda(token_2022_mint.bytes@, program_id.bytes@).1,
        r.2.deep_view() == seq![reserve_authority_tag(), token_2022_mint.bytes@, seq![r.1]],
{
    derive_one(reserve_authority_tag_vec(), token_2022_mint, program_id)
}

/// The custody account for an underlying mint and owner: its derived address,
/// bump, and signing seeds.
pub fn get_reserve_authority_token_account(
    token_2022_mint: Address,
    owner: Address,
    program_id: Address,
) -> (r: (Address, u8, Vec<Vec<u8>>))
    ensures
        r.0.bytes@ == reserve_token_account_pda(
            token_2022_mint.bytes@,
            owner.bytes@,
            program_id.bytes@,
        ).0,
        r.1 == reserve_token_account_pda(
            token_2022_mint.bytes@,
            owner.bytes@,
            program_id.bytes@,
        ).1,
        r.2.deep_view() == seq![
            reserve_token_account_tag(),
            token_2022_mint.bytes@,
            owner.bytes@,
            seq![r.1],
        ],
{
    let mut seeds: Vec<Vec<u8>> = Vec::new();
    seeds.push(reserve_token_account_tag_vec());
    seeds.push(address_to_vec(&token_2022_mint));
    seeds.push(address_to_vec(&owner));
    proof {
        assert(seeds.deep_view() =~~= seq![
            reserve_token_account_tag(),
            token_2022_mint.bytes@,
            owner.bytes@,
        ]);
    }
    let (key, bump) = find_pda(&seeds, &program_id);
    let mut bump_vec: Vec<u8> = Vec::new();
    bump_vec.push(bump);
    seeds.push(bump_vec);
    proof {
        assert(seeds.deep_view() =~~= seq![
            reserve_token_account_tag(),
            token_2022_mint.bytes@,
            owner.bytes@,
            seq![bump],
        ]);
    }
    (key, bump, seeds)
}

/// The derived holding account of a wallet for a mint under a token program:
/// the address the holding-account program binds the wallet's holding to.
pub fn get_associated_token_address(wallet: Address, token_program: Address, mint: Address) -> (r:
    (Address, u8))
    ensures
        r.0.bytes@ == associated_token_pda(wallet.bytes@, token_program.bytes@, mint.bytes@).0,
        r.1 == associated_token_pda(wallet.bytes@, token_program.bytes@, mint.bytes@).1,
{
    let mut seeds: Vec<Vec<u8>> = Vec::new();
    seeds.push(address_to_vec(&wallet));
    seeds.push(address_to_vec(&token_program));
    seeds.push(address_to_vec(&mint));
    proof {
        assert(seeds.deep_view() =~~= seq![wallet.bytes@, token_program.bytes@, mint.bytes@]);
    }
    let ata_program = crate::ids::associated_token_program_id();
    find_pda(&seeds, &ata_program)
}

/// The distinct mint authority used by earlier authority models: its derived
/// address, bump, and signing seeds.
pub fn get_token_mint_authority(token_mint: Address, program_id: Address) -> (r: (
    Address,
    u8,
    Vec<Vec<u8>>,
))
    ensures
        r.0.bytes@ == mint_authority_pda(token_mint.bytes@, program_id.bytes@).0,
        r.1 == mint_authority_pda(token_mint.bytes@, program_id.bytes@).1,
        r.2.deep_view() == seq![mint_authority_tag(), token_mint.bytes@, seq![r.1]],
{
    derive_one(mint_authority_tag_vec(), token_mint, program_id)
}

/// The distinct freeze authority used by earlier authority models: its derived
/// address, bump, and signing seeds.
pub fn get_token_freeze_authority(token_mint: Address, program_id: Address) -> (r: (
    Address,
    u8,
    Vec<Vec<u8>>,
))
    ensures
        r.0.bytes@ == freeze_authority_pda(token_mint.bytes@, program_id.bytes@).0,
        r.1 == freeze_authority_pda(token_mint.bytes@, program_id.bytes@).1,
        r.2.deep_view() == seq![freeze_authority_tag(), token_mint.bytes@, seq![r.1]],
{
    derive_one(freeze_authority_tag_vec(), token_mint, program_id)
}

} // verus!
