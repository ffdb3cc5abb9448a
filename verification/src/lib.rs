//! Session-backed token authentication.
//!
//! A bearer token is a signed set of claims. A signature alone cannot be
//! taken back, so every token also has a record in a session store, and a
//! token is honoured only while its record lives: deleting the record
//! revokes the token at once.
//!
//! - `token`, `identifier`: the claims, the roles, and the text of a token
//!   identifier.
//! - `jwt`: issuing and verifying tokens, and the commands that record and
//!   remove their sessions.
//! - `session`: what is asked of the session store and what it must
//!   answer, with a store in memory that does so.
//! - `authgate`, `login`, `logout`: the three flows, each split at the
//!   points where the session store or the data layer is asked.
//! - `accounts`, `model`, `environment`, `errors`: accounts and records,
//!   settings and key material, errors and how they are answered.
//! - `laws`: what holds of the flows taken together.
//! - `primitives`: what is taken on trust from other crates.

pub mod accounts;
pub mod authgate;
pub mod environment;
pub mod errors;
pub mod identifier;
pub mod jwt;
pub mod laws;
pub mod login;
pub mod logout;
pub mod model;
pub mod primitives;
pub mod session;
pub mod token;
