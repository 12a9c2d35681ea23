use vstd::prelude::*;

use quasar_lang::prelude::Address;
use quasar_lang::prelude::ProgramError;

use crate::bytes::bytes_to_vec;

verus! {

/// The error type that secp256k1 public-key recovery reports.
#[verifier::external_type_specification]
#[verifier::external_body]
pub struct ExProgramError(ProgramError);

/// The program derived address search of the Solana runtime:
/// `Some((address, bump))` for the first bump seed, counting down from 255,
/// that gives an address off the ed25519 curve; `None` when no bump does, and
/// also when there are 16 seeds or more or a seed is longer than 32 bytes.
pub uninterp spec fn program_address_lookup(seeds: Seq<Seq<u8>>, program_id: Seq<u8>) -> Option<(Seq<u8>, u8)>;

/// The Keccak-256 digest of a byte string.
pub uninterp spec fn keccak256_digest(data: Seq<u8>) -> Seq<u8>;

/// The uncompressed secp256k1 public key (x ‖ y, 64 bytes) that signed the
/// 32-byte prehashed message `hash` with the compact signature `signature`,
/// given the parity of the recovered point; `None` when the signature is
/// malformed or no point can be recovered.
pub uninterp spec fn secp256k1_recovered_key(hash: Seq<u8>, is_odd: bool, signature: Seq<u8>) -> Option<Seq<u8>>;

/// Calls `Address::try_find_program_address` (solana-address, off chain
/// with its `curve25519` feature; a syscall on chain) on the given seeds
/// and program id. Claimed: the result is `program_address_lookup` of the
/// seeds and the program id, address taken as its 32 bytes. (Off chain the
/// search stops at bump 1, on chain at bump 0; the two can differ only where
/// every bump from 255 down to 1 lands on the curve.)
#[verifier::external_body]
fn try_find_program_address(seeds: &Vec<Vec<u8>>, program_id: &[u8; 32]) -> (res: Option<([u8; 32], u8)>)
    ensures
        match res {
            Some((address, bump)) => program_address_lookup(seeds.deep_view(), program_id@)
                == Some((address@, bump)),
            None => program_address_lookup(seeds.deep_view(), program_id@) is None,
        },
{
    let slices: Vec<&[u8]> = seeds.iter().map(|s| s.as_slice()).collect();
    Address::try_find_program_address(&slices, &Address::new_from_array(*program_id)).map(
        |(address, bump)| (address.to_bytes(), bump),
    )
}

/// Calls `solana_keccak_hasher::hash` (off chain through the `sha3` crate,
/// on chain through the `sol_keccak256` syscall). Claimed: the 32 bytes it
/// returns are `keccak256_digest` of the input.
#[verifier::external_body]
fn keccak_hash(data: &[u8]) -> (res: [u8; 32])
    ensures
        res@ == keccak256_digest(data@),
{
    solana_keccak_hasher::hash(data).to_bytes()
}

/// Calls `solana_nostd_secp256k1_recover::secp256k1_recover` (off chain
/// through `k256`, on chain through the `sol_secp256k1_recover` syscall).
/// Claimed: it succeeds exactly when `secp256k1_recovered_key` is `Some`,
/// and then returns that key; which `ProgramError` a failure carries is
/// left unsaid.
#[verifier::external_body]
fn secp256k1_recover(hash: &[u8; 32], is_odd: bool, signature: &[u8; 64]) -> (res: Result<[u8; 64], ProgramError>)
    ensures
        match res {
            Ok(key) => secp256k1_recovered_key(hash@, is_odd, signature@) == Some(key@),
            Err(_) => secp256k1_recovered_key(hash@, is_odd, signature@) is None,
        },
{
    solana_nostd_secp256k1_recover::secp256k1_recover(hash, is_odd, signature)
}

/// The seed prefix of every vault address: the bytes of `b"vault"`.
pub const VAULT_SEED: [u8; 5] = [118, 97, 117, 108, 116];

pub open spec fn vault_seed_spec() -> Seq<u8> {
    seq![118u8, 97u8, 117u8, 108u8, 116u8]
}

/// The seeds a vault address is derived from: `b"vault"` and its authority.
pub open spec fn vault_seeds(authority: Seq<u8>) -> Seq<Seq<u8>> {
    seq![vault_seed_spec(), authority]
}

/// The address of the vault owned by `authority` under program `program_id`,
/// if the program derived address search finds one.
pub open spec fn derived_vault_address(authority: Seq<u8>, program_id: Seq<u8>) -> Option<Seq<u8>> {
    match program_address_lookup(vault_seeds(authority), program_id) {
        Some(found) => Some(found.0),
        None => None,
    }
}

/// The Ethereum address of a 32-byte Keccak digest of a public key: its last
/// 20 bytes.
pub open spec fn eth_address_of_digest(digest: Seq<u8>) -> Seq<u8> {
    digest.subrange(12, 32)
}

/// The Ethereum address that recovery of a signature yields, if any.
pub open spec fn recovered_eth_address(hash: Seq<u8>, is_odd: bool, signature: Seq<u8>) -> Option<Seq<u8>> {
    match secp256k1_recovered_key(hash, is_odd, signature) {
        Some(key) => Some(eth_address_of_digest(keccak256_digest(key))),
        None => None,
    }
}

/// The Ethereum address of a 32-byte Keccak digest: its bytes 12 to 31.
pub fn eth_address_from_digest(digest: &[u8; 32]) -> (res: [u8; 20])
    ensures
        res@ == eth_address_of_digest(digest@),
        forall|i: int| 0 <= i < 20 ==> res@[i] == digest@[12 + i],
{
    let mut res = [0u8; 20];
    let mut i: usize = 0;
    while i < 20
        invariant
            0 <= i <= 20,
            res@.len() == 20,
            digest@.len() == 32,
            forall|j: int| 0 <= j < i ==> res@[j] == digest@[j + 12],
        decreases 20 - i,
    {
        res[i] = digest[i + 12];
        i = i + 1;
    }
    assert(res@ =~= eth_address_of_digest(digest@));
    res
}

/// Recovers the public key that produced `signature` over `hash` with the
/// given parity, and returns its Ethereum address; `None` when no key can be
/// recovered.
pub fn recover_eth_address(hash: &[u8; 32], is_odd: bool, signature: &[u8; 64]) -> (res: Option<[u8; 20]>)
    ensures
        match res {
            Some(eth) => recovered_eth_address(hash@, is_odd, signature@) == Some(eth@),
            None => recovered_eth_address(hash@, is_odd, signature@) is None,
        },
        match res {
            Some(eth) => secp256k1_recovered_key(hash@, is_odd, signature@) matches Some(key)
                && eth@ == keccak256_digest(key).subrange(12, 32),
            None => secp256k1_recovered_key(hash@, is_odd, signature@) is None,
        },
{
    match secp256k1_recover(hash, is_odd, signature) {
        Ok(key) => {
            let digest = keccak_hash(key.as_slice());
            Some(eth_address_from_digest(&digest))
        },
        Err(_) => None,
    }
}

/// The address of the vault that `authority` owns under `program_id`, as the
/// program derived address search finds it.
pub fn find_vault_address(authority: &[u8; 32], program_id: &[u8; 32]) -> (res: Option<([u8; 32], u8)>)
    ensures
        match res {
            Some((address, bump)) => program_address_lookup(vault_seeds(authority@), program_id@)
                == Some((address@, bump)),
            None => program_address_lookup(vault_seeds(authority@), program_id@) is None,
        },
        program_address_lookup(seq![seq![118u8, 97u8, 117u8, 108u8, 116u8], authority@], program_id@)
            == match res {
            Some((address, bump)) => Some((address@, bump)),
            None => None,
        },
{
    proof {
        lemma_vault_seeds_layout(authority@);
    }
    let prefix = bytes_to_vec(VAULT_SEED.as_slice());
    let owner = bytes_to_vec(authority.as_slice());
    assert(prefix@ =~= vault_seed_spec());
    let mut seeds: Vec<Vec<u8>> = Vec::new();
    seeds.push(prefix);
    seeds.push(owner);
    proof {
        assert(seeds@[0].deep_view() =~= vault_seed_spec());
        assert(seeds@[1].deep_view() =~= authority@);
        assert(seeds.deep_view() =~= vault_seeds(authority@));
    }
    try_find_program_address(&seeds, program_id)
}

/// The seeds of a vault address are the five bytes `b"vault"` followed by the
/// authority's bytes, unchanged.
pub proof fn lemma_vault_seeds_layout(authority: Seq<u8>)
    ensures
        vault_seeds(authority) == seq![seq![118u8, 97u8, 117u8, 108u8, 116u8], authority],
        vault_seeds(authority).len() == 2,
        vault_seeds(authority)[1] == authority,
{
    assert(vault_seeds(authority) =~= seq![seq![118u8, 97u8, 117u8, 108u8, 116u8], authority]);
}

/// The Ethereum address of a digest is its last twenty bytes, in order.
pub proof fn lemma_eth_address_is_digest_tail(digest: Seq<u8>)
    requires
        digest.len() == 32,
    ensures
        eth_address_of_digest(digest).len() == 20,
        forall|i: int| 0 <= i < 20 ==> eth_address_of_digest(digest)[i] == digest[12 + i],
{
}

/// The Ethereum address recovered from a signature is the last twenty bytes of
/// the Keccak-256 digest of the recovered public key; no key, no address.
pub proof fn lemma_recovered_eth_address(hash: Seq<u8>, is_odd: bool, signature: Seq<u8>)
    ensures
        match secp256k1_recovered_key(hash, is_odd, signature) {
            Some(key) => recovered_eth_address(hash, is_odd, signature) == Some(
                keccak256_digest(key).subrange(12, 32),
            ),
            None => recovered_eth_address(hash, is_odd, signature) is None,
        },
{
}

} // verus!
