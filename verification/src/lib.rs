//! Verified core of a custodial Bitcoin wallet: the data the operators and
//! the hot wallet exchange about withdrawals, the rule that decides when a
//! withdrawal is authorised, and the computations the HTTP handlers make
//! between their calls to the node.

pub mod btc_api;
pub mod btc_codec;
pub mod domain;
pub mod operator;
pub mod types;
pub mod withdrawal;
