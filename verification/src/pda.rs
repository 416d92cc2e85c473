//! Address derivation: canonical seed lists for each purpose, the lookup
//! of a purpose's `(address, bump)` pair, and the derivation verifier.
//!
//! The seed prefix bytes and the seed order are part of the external
//! protocol surface: changing either changes every derived address.

use vstd::prelude::*;

use crate::address::Address;
use crate::address::address_eq;
use crate::error::UtilError;
use crate::sys::derive_spec;
use crate::sys::try_derive;

verus! {

/// ASCII bytes of the treasury-owner purpose prefix, "holder".
pub open spec fn holder_prefix_spec() -> Seq<u8> {
    seq![104u8, 111u8, 108u8, 100u8, 101u8, 114u8]
}

/// ASCII bytes of the vault-owner purpose prefix, "mt_vault".
pub open spec fn vault_owner_prefix_spec() -> Seq<u8> {
    seq![109u8, 116u8, 95u8, 118u8, 97u8, 117u8, 108u8, 116u8]
}

/// ASCII bytes of the trade-history purpose prefix, "history".
pub open spec fn history_prefix_spec() -> Seq<u8> {
    seq![104u8, 105u8, 115u8, 116u8, 111u8, 114u8, 121u8]
}

/// The treasury-owner purpose prefix, "holder".
pub fn holder_prefix() -> (v: Vec<u8>)
    ensures
        v@ == holder_prefix_spec(),
{
    let mut v: Vec<u8> = Vec::new();
    v.push(104u8);
    v.push(111u8);
    v.push(108u8);
    v.push(100u8);
    v.push(101u8);
    v.push(114u8);
    proof {
        assert(v@ =~= holder_prefix_spec());
    }
    v
}

/// The vault-owner purpose prefix, "mt_vault".
pub fn vault_owner_prefix() -> (v: Vec<u8>)
    ensures
        v@ == vault_owner_prefix_spec(),
{
    let mut v: Vec<u8> = Vec::new();
    v.push(109u8);
    v.push(116u8);
    v.push(95u8);
    v.push(118u8);
    v.push(97u8);
    v.push(117u8);
    v.push(108u8);
    v.push(116u8);
    proof {
        assert(v@ =~= vault_owner_prefix_spec());
    }
    v
}

/// The trade-history purpose prefix, "history".
pub fn history_prefix() -> (v: Vec<u8>)
    ensures
        v@ == history_prefix_spec(),
{
    let mut v: Vec<u8> = Vec::new();
    v.push(104u8);
    v.push(105u8);
    v.push(115u8);
    v.push(116u8);
    v.push(111u8);
    v.push(114u8);
    v.push(121u8);
    proof {
        assert(v@ =~= history_prefix_spec());
    }
    v
}

/// The bytes of an address, as a fresh vector.
pub fn address_bytes_vec(a: &Address) -> (v: Vec<u8>)
    ensures
        v@ == a@,
{
    let mut v: Vec<u8> = Vec::new();
    let mut i: usize = 0;
    while i < 32
        invariant
            i <= 32,
            v@ == a.bytes@.subrange(0, i as int),
        decreases 32 - i,
    {
        v.push(a.bytes[i]);
        proof {
            assert(v@ =~= a.bytes@.subrange(0, i + 1));
        }
        i += 1;
    }
    proof {
        assert(v@ =~= a@);
    }
    v
}

/// The derivation path of the treasury owner for a treasury asset sold
/// against a selling resource: prefix, then the two entity keys, in order.
pub open spec fn treasury_owner_seeds_spec(treasury_mint: Seq<u8>, selling_resource: Seq<u8>) -> Seq<
    Seq<u8>,
> {
    seq![holder_prefix_spec(), treasury_mint, selling_resource]
}

/// The derivation path of the vault owner for a resource asset in a store.
pub open spec fn vault_owner_seeds_spec(resource_mint: Seq<u8>, store: Seq<u8>) -> Seq<Seq<u8>> {
    seq![vault_owner_prefix_spec(), resource_mint, store]
}

/// The derivation path of the trade-history record for a wallet on a market.
pub open spec fn trade_history_seeds_spec(wallet: Seq<u8>, market: Seq<u8>) -> Seq<Seq<u8>> {
    seq![history_prefix_spec(), wallet, market]
}

/// Builds the treasury-owner derivation path.
pub fn treasury_owner_seeds(treasury_mint: &Address, selling_resource: &Address) -> (v: Vec<Vec<u8>>)
    ensures
        v.deep_view() == treasury_owner_seeds_spec(treasury_mint@, selling_resource@),
{
    let mut v: Vec<Vec<u8>> = Vec::new();
    v.push(holder_prefix());
    v.push(address_bytes_vec(treasury_mint));
    v.push(address_bytes_vec(selling_resource));
    proof {
        assert(v.deep_view() =~~= treasury_owner_seeds_spec(treasury_mint@, selling_resource@));
    }
    v
}

/// Builds the vault-owner derivation path.
pub fn vault_owner_seeds(resource_mint: &Address, store: &Address) -> (v: Vec<Vec<u8>>)
    ensures
        v.deep_view() == vault_owner_seeds_spec(resource_mint@, store@),
{
    let mut v: Vec<Vec<u8>> = Vec::new();
    v.push(vault_owner_prefix());
    v.push(address_bytes_vec(resource_mint));
    v.push(address_bytes_vec(store));
    proof {
        assert(v.deep_view() =~~= vault_owner_seeds_spec(resource_mint@, store@));
    }
    v
}

/// Builds the trade-history derivation path.
pub fn trade_history_seeds(wallet: &Address, market: &Address) -> (v: Vec<Vec<u8>>)
    ensures
        v.deep_view() == trade_history_seeds_spec(wallet@, market@),
{
    let mut v: Vec<Vec<u8>> = Vec::new();
    v.push(history_prefix());
    v.push(address_bytes_vec(wallet));
    v.push(address_bytes_vec(market));
    proof {
        assert(v.deep_view() =~~= trade_history_seeds_spec(wallet@, market@));
    }
    v
}

/// Return the treasury owner's address and bump seed.
pub fn find_treasury_owner_address(
    program_id: &Address,
    treasury_mint: &Address,
    selling_resource: &Address,
) -> (r: (Address, u8))
    requires
        derive_spec(treasury_owner_seeds_spec(treasury_mint@, selling_resource@), program_id@)
            is Some,
    ensures
        Some((r.0@, r.1)) == derive_spec(
            treasury_owner_seeds_spec(treasury_mint@, selling_resource@),
            program_id@,
        ),
{
    let seeds = treasury_owner_seeds(treasury_mint, selling_resource);
    match try_derive(&seeds, program_id) {
        Some(p) => p,
        None => {
            proof {
                assert(false);
            }
            (Address { bytes: [0u8; 32] }, 0u8)
        },
    }
}

/// Return the treasury owner's address and bump seed, or `None` where the
/// derivation function has no canonical result for this path.
pub fn try_find_treasury_owner_address(
    program_id: &Address,
    treasury_mint: &Address,
    selling_resource: &Address,
) -> (r: Option<(Address, u8)>)
    ensures
        match r {
            Some(p) => Some((p.0@, p.1)) == derive_spec(
                treasury_owner_seeds_spec(treasury_mint@, selling_resource@),
                program_id@,
            ),
            None => derive_spec(
                treasury_owner_seeds_spec(treasury_mint@, selling_resource@),
                program_id@,
            ) is None,
        },
{
    let seeds = treasury_owner_seeds(treasury_mint, selling_resource);
    match try_derive(&seeds, program_id) {
        Some(_) => Some(find_treasury_owner_address(program_id, treasury_mint, selling_resource)),
        None => None,
    }
}

/// Return the vault owner's address and bump seed.
pub fn find_vault_owner_address(program_id: &Address, resource_mint: &Address, store: &Address) -> (r:
    (Address, u8))
    requires
        derive_spec(vault_owner_seeds_spec(resource_mint@, store@), program_id@) is Some,
    ensures
        Some((r.0@, r.1)) == derive_spec(vault_owner_seeds_spec(resource_mint@, store@), program_id@),
{
    let seeds = vault_owner_seeds(resource_mint, store);
    match try_derive(&seeds, program_id) {
        Some(p) => p,
        None => {
            proof {
                assert(false);
            }
            (Address { bytes: [0u8; 32] }, 0u8)
        },
    }
}

/// Return the vault owner's address and bump seed, or `None` where the
/// derivation function has no canonical result for this path.
pub fn try_find_vault_owner_address(
    program_id: &Address,
    resource_mint: &Address,
    store: &Address,
) -> (r: Option<(Address, u8)>)
    ensures
        match r {
            Some(p) => Some((p.0@, p.1)) == derive_spec(
                vault_owner_seeds_spec(resource_mint@, store@),
                program_id@,
            ),
            None => derive_spec(vault_owner_seeds_spec(resource_mint@, store@), program_id@)
                is None,
        },
{
    let seeds = vault_owner_seeds(resource_mint, store);
    match try_derive(&seeds, program_id) {
        Some(_) => Some(find_vault_owner_address(program_id, resource_mint, store)),
        None => None,
    }
}

/// Return the trade-history record's address and bump seed.
pub fn find_trade_history_address(program_id: &Address, wallet: &Address, market: &Address) -> (r: (
    Address,
    u8,
))
    requires
        derive_spec(trade_history_seeds_spec(wallet@, market@), program_id@) is Some,
    ensures
        Some((r.0@, r.1)) == derive_spec(trade_history_seeds_spec(wallet@, market@), program_id@),
{
    let seeds = trade_history_seeds(wallet, market);
    match try_derive(&seeds, program_id) {
        Some(p) => p,
        None => {
            proof {
                assert(false);
            }
            (Address { bytes: [0u8; 32] }, 0u8)
        },
    }
}

/// Return the trade-history record's address and bump seed, or `None` where
/// the derivation function has no canonical result for this path.
pub fn try_find_trade_history_address(program_id: &Address, wallet: &Address, market: &Address) -> (r:
    Option<(Address, u8)>)
    ensures
        match r {
            Some(p) => Some((p.0@, p.1)) == derive_spec(
                trade_history_seeds_spec(wallet@, market@),
                program_id@,
            ),
            None => derive_spec(trade_history_seeds_spec(wallet@, market@), program_id@) is None,
        },
{
    let seeds = trade_history_seeds(wallet, market);
    match try_derive(&seeds, program_id) {
        Some(_) => Some(find_trade_history_address(program_id, wallet, market)),
        None => None,
    }
}

/// Runtime derivation check: succeeds with the bump exactly when `account`
/// is the canonical address for `path` under `program_id`; every other
/// outcome is `DerivedKeyInvalid`, never any other error.
pub fn assert_derivation(program_id: &Address, account: &Address, path: &Vec<Vec<u8>>) -> (r: Result<
    u8,
    UtilError,
>)
    ensures
        match derive_spec(path.deep_view(), program_id@) {
            Some(p) => {
                &&& account@ == p.0 ==> (r matches Ok(b) && b == p.1)
                &&& account@ != p.0 ==> (r matches Err(e) && e is DerivedKeyInvalid)
            },
            None => r matches Err(e) && e is DerivedKeyInvalid,
        },
{
    match try_derive(path, program_id) {
        Some(p) => {
            if address_eq(&p.0, account) {
                Ok(p.1)
            } else {
                Err(UtilError::DerivedKeyInvalid)
            }
        },
        None => Err(UtilError::DerivedKeyInvalid),
    }
}

/// Derivation is deterministic: a purpose's path under one program identity
/// has at most one `(address, bump)` pair, so repeated lookups agree.
pub proof fn lemma_trade_history_deterministic(program_id: Seq<u8>, wallet: Seq<u8>, market: Seq<u8>)
    ensures
        forall|r1: (Seq<u8>, u8), r2: (Seq<u8>, u8)|
            Some(r1) == derive_spec(trade_history_seeds_spec(wallet, market), program_id) && Some(r2)
                == derive_spec(trade_history_seeds_spec(wallet, market), program_id) ==> r1 == r2,
{
}

/// Distinct entity-key pairs never share a trade-history derivation path:
/// the paths differ in the wallet seed or in the market seed.
pub proof fn lemma_trade_history_seeds_injective(
    wallet1: Seq<u8>,
    market1: Seq<u8>,
    wallet2: Seq<u8>,
    market2: Seq<u8>,
)
    requires
        wallet1 != wallet2 || market1 != market2,
    ensures
        trade_history_seeds_spec(wallet1, market1) != trade_history_seeds_spec(wallet2, market2),
{
    let s1 = trade_history_seeds_spec(wallet1, market1);
    let s2 = trade_history_seeds_spec(wallet2, market2);
    assert(s1[1] == wallet1 && s1[2] == market1);
    assert(s2[1] == wallet2 && s2[2] == market2);
}

/// The treasury-owner prefix bytes encode exactly the string "holder".
pub proof fn lemma_holder_prefix_encodes_literal()
    ensures
        holder_prefix_spec() == "holder"@.map_values(|c: char| c as u8),
{
    reveal_strlit("holder");
    assert(holder_prefix_spec() =~= "holder"@.map_values(|c: char| c as u8));
}

/// The vault-owner prefix bytes encode exactly the string "mt_vault".
pub proof fn lemma_vault_owner_prefix_encodes_literal()
    ensures
        vault_owner_prefix_spec() == "mt_vault"@.map_values(|c: char| c as u8),
{
    reveal_strlit("mt_vault");
    assert(vault_owner_prefix_spec() =~= "mt_vault"@.map_values(|c: char| c as u8));
}

/// The trade-history prefix bytes encode exactly the string "history".
pub proof fn lemma_history_prefix_encodes_literal()
    ensures
        history_prefix_spec() == "history"@.map_values(|c: char| c as u8),
{
    reveal_strlit("history");
    assert(history_prefix_spec() =~= "history"@.map_values(|c: char| c as u8));
}

/// The three purposes never share a derivation path, whatever their entity
/// keys: the purpose prefixes differ pairwise.
pub proof fn lemma_purpose_paths_disjoint(a1: Seq<u8>, a2: Seq<u8>, b1: Seq<u8>, b2: Seq<u8>)
    ensures
        treasury_owner_seeds_spec(a1, a2) != vault_owner_seeds_spec(b1, b2),
        treasury_owner_seeds_spec(a1, a2) != trade_history_seeds_spec(b1, b2),
        vault_owner_seeds_spec(a1, a2) != trade_history_seeds_spec(b1, b2),
{
    assert(holder_prefix_spec().len() == 6);
    assert(vault_owner_prefix_spec().len() == 8);
    assert(history_prefix_spec().len() == 7);
    assert(treasury_owner_seeds_spec(a1, a2)[0] == holder_prefix_spec());
    assert(vault_owner_seeds_spec(b1, b2)[0] == vault_owner_prefix_spec());
    assert(trade_history_seeds_spec(b1, b2)[0] == history_prefix_spec());
}

} // verus!
