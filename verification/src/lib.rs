//! Authentication and session rules of a small seat-booking site: credential
//! digests, session tokens, the session and user relations with their
//! invariants, form validation, and the decisions behind register, login and
//! logout.

pub mod auth;
pub mod hasher;
pub mod laws;
pub mod models;
pub mod pages;
pub mod seat;
pub mod session;
pub mod store;
pub mod text;
pub mod token;
pub mod validate;
