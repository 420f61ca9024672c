//! An in-memory account service: user records keyed by email, opaque session
//! tokens minted at login, and favorite-city sets mutated only through the
//! canonical user table after a token has been verified.

pub mod context;
pub mod error;
pub mod laws;
pub mod mutation;
pub mod query;
pub mod store;
mod table;
pub mod types;

pub use context::GqlContext;
pub use error::Error;
pub use store::MemoryDb;
pub use types::City;
pub use types::User;
