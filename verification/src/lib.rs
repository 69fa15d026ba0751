//! Queries for a columnar analytics engine, built as typed values.
//!
//! A query is put together from components ([`query`]), checked before it
//! goes anywhere, written as the JSON document that the engine reads
//! ([`wire`], [`json`]), and submitted one decision at a time ([`client`]).
//! Every function here is verified against the contract it states; what is
//! taken on trust about `serde_json` is stated in [`json`].

pub mod client;
pub mod decimal;
pub mod json;
pub mod laws;
pub mod literal;
pub mod query;
pub mod wire;
