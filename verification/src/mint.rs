//! Delegated mint invoker: build the external minting program's
//! new-edition instruction and submit it under a derivation-proof
//! signature, with the protocol-mandated fourteen-account list.

use vstd::prelude::*;

use crate::address::Address;
use crate::error::UtilError;
use crate::sys::clone_account;
use crate::sys::invoke_signed_ix;
use anchor_lang::solana_program::account_info::AccountInfo;
use anchor_lang::solana_program::instruction::Instruction;
use anchor_lang::solana_program::pubkey::Pubkey;

verus! {

/// Relies on `mpl_token_metadata::instruction::mint_new_edition_from_master_edition_via_token`
/// (addressed to `mpl_token_metadata::id()`): the fully-populated
/// new-edition instruction for the external minting program.
#[verifier::external_body]
fn make_mint_edition_ix<'a>(
    new_metadata: &AccountInfo<'a>,
    new_edition: &AccountInfo<'a>,
    master_edition: &AccountInfo<'a>,
    new_mint: &AccountInfo<'a>,
    new_mint_authority: &AccountInfo<'a>,
    user_wallet: &AccountInfo<'a>,
    token_account_owner: &AccountInfo<'a>,
    token_account: &AccountInfo<'a>,
    master_metadata: &AccountInfo<'a>,
    metadata_mint: &Address,
    edition: u64,
) -> Instruction {
    mpl_token_metadata::instruction::mint_new_edition_from_master_edition_via_token(
        mpl_token_metadata::id(),
        *new_metadata.key,
        *new_edition.key,
        *master_edition.key,
        *new_mint.key,
        *new_mint_authority.key,
        *user_wallet.key,
        *token_account_owner.key,
        *token_account.key,
        *user_wallet.key,
        *master_metadata.key,
        Pubkey::new_from_array(metadata_mint.bytes),
        edition,
    )
}

/// The fourteen accounts of the new-edition instruction, in the fixed,
/// protocol-mandated order. The user wallet stands in the list twice: once
/// as the payer and once as the new metadata's update authority.
pub fn mint_edition_account_list<'a>(
    new_metadata: &AccountInfo<'a>,
    new_edition: &AccountInfo<'a>,
    master_edition: &AccountInfo<'a>,
    new_mint: &AccountInfo<'a>,
    edition_marker: &AccountInfo<'a>,
    new_mint_authority: &AccountInfo<'a>,
    user_wallet: &AccountInfo<'a>,
    token_account_owner: &AccountInfo<'a>,
    token_account: &AccountInfo<'a>,
    master_metadata: &AccountInfo<'a>,
    token_program: &AccountInfo<'a>,
    system_program: &AccountInfo<'a>,
    rent: &AccountInfo<'a>,
) -> (v: Vec<AccountInfo<'a>>)
    ensures
        v@.len() == 14,
        v@[0] == *new_metadata,
        v@[1] == *new_edition,
        v@[2] == *master_edition,
        v@[3] == *new_mint,
        v@[4] == *edition_marker,
        v@[5] == *new_mint_authority,
        v@[6] == *user_wallet,
        v@[7] == *token_account_owner,
        v@[8] == *token_account,
        v@[9] == *user_wallet,
        v@[10] == *master_metadata,
        v@[11] == *token_program,
        v@[12] == *system_program,
        v@[13] == *rent,
{
    let mut v: Vec<AccountInfo<'a>> = Vec::new();
    v.push(clone_account(new_metadata));
    v.push(clone_account(new_edition));
    v.push(clone_account(master_edition));
    v.push(clone_account(new_mint));
    v.push(clone_account(edition_marker));
    v.push(clone_account(new_mint_authority));
    v.push(clone_account(user_wallet));
    v.push(clone_account(token_account_owner));
    v.push(clone_account(token_account));
    v.push(clone_account(user_wallet));
    v.push(clone_account(master_metadata));
    v.push(clone_account(token_program));
    v.push(clone_account(system_program));
    v.push(clone_account(rent));
    v
}

/// Build and submit the external minting program's new-edition instruction,
/// naming exactly the fourteen accounts of `mint_edition_account_list` in
/// that fixed order, authorized by the derivation proof `signers_seeds`.
/// Failures of the submitted instruction are propagated unmodified; a
/// derivation mismatch is never reported from here.
pub fn mpl_mint_new_edition_from_master_edition_via_token<'a>(
    new_metadata: &AccountInfo<'a>,
    new_edition: &AccountInfo<'a>,
    new_mint: &AccountInfo<'a>,
    new_mint_authority: &AccountInfo<'a>,
    user_wallet: &AccountInfo<'a>,
    token_account_owner: &AccountInfo<'a>,
    token_account: &AccountInfo<'a>,
    master_metadata: &AccountInfo<'a>,
    master_edition: &AccountInfo<'a>,
    metadata_mint: &Address,
    edition_marker: &AccountInfo<'a>,
    token_program: &AccountInfo<'a>,
    system_program: &AccountInfo<'a>,
    rent: &AccountInfo<'a>,
    edition: u64,
    signers_seeds: &Vec<Vec<u8>>,
) -> (r: Result<(), UtilError>)
    ensures
        r matches Err(e) ==> e is Program,
{
    let ix = make_mint_edition_ix(
        new_metadata,
        new_edition,
        master_edition,
        new_mint,
        new_mint_authority,
        user_wallet,
        token_account_owner,
        token_account,
        master_metadata,
        metadata_mint,
        edition,
    );

    let accounts = mint_edition_account_list(
        new_metadata,
        new_edition,
        master_edition,
        new_mint,
        edition_marker,
        new_mint_authority,
        user_wallet,
        token_account_owner,
        token_account,
        master_metadata,
        token_program,
        system_program,
        rent,
    );

    invoke_signed_ix(&ix, &accounts, signers_seeds)?;

    Ok(())
}

} // verus!
