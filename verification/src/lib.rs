//! An in-memory model of an on-chain record store with a two-phase,
//! consent-based mutation protocol.
//!
//! A user's favorites record (a number and a color string) lives at an
//! address derived from a fixed namespace tag and the user's identity.  No
//! other party may write to it directly: a change is first proposed as a
//! [`state::ChangeRequest`] record and takes effect only when the targeted
//! user accepts it, which also consumes the request and designates the
//! original requester as the refund destination for its storage deposit.
//!
//! The three operations — [`instructions::set_favorites`],
//! [`instructions::create_change_request`] and
//! [`instructions::accept_change_request`] — validate every relationship
//! between the records they touch before mutating anything, and each either
//! completes in full or fails with a [`errors::FavoritesError`] leaving the
//! store untouched.

pub mod addr;
pub mod errors;
pub mod state;
pub mod instructions;
pub mod laws;
pub mod store;

pub use addr::derive_favorites_address;
pub use addr::Address;
pub use errors::FavoritesError;
pub use instructions::accept_change_request;
pub use instructions::create_change_request;
pub use instructions::set_favorites;
pub use instructions::AcceptChangeRequest;
pub use instructions::CreateChangeRequest;
pub use instructions::SetFavorites;
pub use state::ChangeRequest;
pub use state::ChangeRequestTarget;
pub use state::Favorites;
pub use store::RecordStore;
