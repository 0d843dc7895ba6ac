//! Matching of people who ask for help with people who offer it.
//!
//! The crate holds two collections of records, the accounts and the help
//! requests, the bearer tokens that authenticate a caller, the operations
//! that take a help request through its life, and the rules of the chat
//! room.
//!
//! Every change to the collections is first planned: a plan reads the
//! collections and answers with a journal of writes, or with the reason why
//! nothing is to change. A journal is then applied as a whole. What each
//! operation does is stated over the mathematical view of the collections,
//! a map from keys to records.

pub mod accounts;
pub mod authorization;
pub mod chat_connection;
pub mod db;
pub mod errors;
pub mod help_requests;
pub mod model;
pub mod primitives;
pub mod ranking;
pub mod rejections;
pub mod transaction;
pub mod volunteering;
