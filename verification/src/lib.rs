//! A small address book for remote server connection profiles.
//!
//! Server records (title, domain or ip, login user) are kept in a local
//! SQLite database owned by a single default account. Every data-bearing
//! action goes through an action router that first checks whether the
//! application has been initialized; storage outcomes are translated into
//! a closed response and error vocabulary.

pub mod config;
pub mod domain;
pub mod persistence;
pub mod service;
pub mod sqlite;
pub mod text;
