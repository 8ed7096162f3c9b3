//! Core of a stateless session-authentication subsystem: a token service
//! that issues and verifies signed session tokens, a session-cookie
//! builder, a request guard, and the pure decision steps of the OAuth
//! login callback flow.

pub mod cookie;
pub mod guard;
pub mod login;
pub mod token;
pub mod user;
