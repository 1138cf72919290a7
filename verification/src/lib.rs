pub mod account;
pub mod catalog;
pub mod config;
pub mod envelope;
pub mod guard;
pub mod hasher;
pub mod ledger;
pub mod scores;
pub mod students;
pub mod token;
pub mod wardrobe;
