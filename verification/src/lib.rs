//! Core of a minimal trading venue: a shared reference-price record
//! ([`Market`]), per-participant records ([`User`]), and a penalty engine
//! ([`place_order`]) that charges orders for deviating from the reference
//! price and for trading too frequently, applying the charge atomically to
//! the user's balance.
//!
//! Clock readings and persistent account storage are the caller's concern:
//! the engine takes the current timestamp as a plain argument and mutates an
//! in-memory [`User`] record.

pub mod engine;
pub mod errors;
pub mod market;

pub use engine::place_order;
pub use errors::BalancePolicy;
pub use errors::OrderError;
pub use market::initialize_market;
pub use market::Market;
pub use market::User;
pub use market::DEFAULT_PENALTY_COEFFICIENT;
pub use market::DEFAULT_TIME_SENSITIVITY;
