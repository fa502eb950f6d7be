//! Credential and session lifecycle for an authentication service, written
//! so that every decision is a verified function over plain values.
//!
//! The storage engine, the clock and the transport stay outside: the library
//! says which statement to run, what a fetched row means, and what each step
//! of sign-up and sign-in answers.

pub mod common;
pub mod clock;
pub mod entities;
pub mod error;
pub mod handlers;
pub mod ident;
pub mod repository;
pub mod statement;
pub mod transaction;
