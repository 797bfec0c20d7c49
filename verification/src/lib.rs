//! A minimal balance ledger keyed by a privacy-preserving fingerprint of a
//! phone-number-like identifier. Records are addressed by a deterministic
//! derivation from the fingerprint, and mutated only by handlers that enforce
//! ownership, checked arithmetic and a top-level-invocation guard.

mod bytes;
mod derive;
mod errors;
mod handlers;
mod hashing;
mod layout;
mod laws;
mod wallet;

pub use bytes::bytes_all_zero;
pub use bytes::bytes_eq;
pub use bytes::is_all_zero;
pub use derive::derive_wallet_address;
pub use derive::program_address_found;
pub use derive::program_address_of;
pub use derive::verify_wallet_address;
pub use derive::wallet_address_of;
pub use derive::wallet_tag;
pub use errors::SimchainError;
pub use handlers::add_funds;
pub use handlers::add_funds_spec;
pub use handlers::check_balance;
pub use handlers::initialize_wallet;
pub use handlers::initialize_wallet_spec;
pub use handlers::send;
pub use handlers::send_spec;
pub use handlers::set_alias;
pub use handlers::set_alias_spec;
pub use hashing::fingerprint_of;
pub use hashing::hash_sim_number;
pub use hashing::sha256_of;
pub use hashing::sim_hash_salt;
pub use layout::decode_record;
pub use layout::encode_record;
pub use layout::lemma_record_bytes_injective;
pub use layout::record_bytes;
pub use layout::RECORD_SIZE;
pub use laws::lemma_create_fresh_record;
pub use laws::lemma_non_owner_deposit_rejected;
pub use laws::lemma_send_conserves;
pub use laws::lemma_top_level_guard;
pub use laws::lemma_weak_pin_rejected;
pub use wallet::make_zero_alias;
pub use wallet::zero_alias;
pub use wallet::Wallet;
pub use wallet::WalletModel;
pub use wallet::FIELD_WIDTH;
