//! Primitives for exercising authority over accounts the program holds no
//! private key for: deterministic address derivation and its verifier, an
//! idempotent account provisioner, a delegated mint invoker, and a
//! fixed-width string encoder.

pub mod address;
pub mod error;
pub mod mint;
pub mod pda;
pub mod provision;
pub mod strings;
mod sys;

pub use address::Address;
pub use address::address_eq;
pub use error::UtilError;
pub use pda::assert_derivation;
pub use pda::find_trade_history_address;
pub use pda::find_treasury_owner_address;
pub use pda::find_vault_owner_address;
pub use pda::try_find_trade_history_address;
pub use pda::try_find_treasury_owner_address;
pub use pda::try_find_vault_owner_address;
pub use mint::mint_edition_account_list;
pub use mint::mpl_mint_new_edition_from_master_edition_via_token;
pub use provision::create_or_allocate_account_raw;
pub use provision::required_topup;
pub use provision::sized_account_list;
pub use provision::transfer_account_list;
pub use strings::DESCRIPTION_DEFAULT_SIZE;
pub use strings::DESCRIPTION_MAX_LEN;
pub use strings::NAME_DEFAULT_SIZE;
pub use strings::NAME_MAX_LEN;
pub use strings::puffed_out_string;
pub use sys::derive_spec;
