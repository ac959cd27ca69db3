//! Personal-finance bookkeeping core.
//!
//! Authenticated users record accounts, transactions, budgets, liabilities,
//! loans, recurring transactions, savings goals and preferences. Every row of
//! a user-owned table carries its owner, and every read, update and delete is
//! scoped to the authenticated principal; the merge semantics of partial
//! updates and the token-based authorization rules are stated in the
//! contracts of this crate and proved. Durable storage, HTTP transport and
//! JSON shaping are left to the surrounding application; this crate holds the
//! tables in memory and the rules that govern them.

pub mod account;
pub mod auth;
pub mod authorize;
pub mod budget;
pub mod category;
pub mod credentials;
pub mod datetime;
pub mod errors;
pub mod ids;
pub mod liability;
pub mod loan;
pub mod preference;
pub mod recurring_transaction;
pub mod savings_goal;
pub mod table;
pub mod text;
pub mod token;
pub mod transaction;
pub mod user;

pub use errors::ApiError;
