//! A registry of laws: each law is a fixed-size text with a price. Anyone can
//! pay to create a law, to edit it (at no less than its price), to upvote or
//! downvote its price, or to remove it.
//!
//! - `types`: accounts, ids, texts, origins, events, errors, and the
//!   `Balance` trait of the amounts (implemented for `u64` and `u128`).
//! - `rules`: what each call checks, what it charges and what it writes, as
//!   spec functions and as the verified functions that decide it from the
//!   stored laws that it reads, and that charge it.
//! - `pallet`: the table of stored laws and the calls on it; the withdrawal
//!   that pays for a call is the caller's, handed in as a closure.
//! - `laws`: what holds of every call and of sequences of calls.

pub mod laws;
pub mod pallet;
pub mod rules;
pub mod types;

pub use pallet::{GenesisConfig, Pallet};
pub use rules::{
    charge, complete, prepare_create, prepare_create_and_edit, prepare_downvote, prepare_edit,
    prepare_remove, prepare_upvote, Settlement, Write,
};
pub use types::{
    ensure_signed, same_bytes, AccountId, Balance, Error, Event, Law, LawId, LawText, Origin,
};
