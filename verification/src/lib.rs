//! Core logic of a prediction-market exchange: balances, asset precision,
//! authentication context and the decisions behind the service endpoints.
pub mod auth;
pub mod config;
pub mod error;
pub mod gateway;
pub mod ledger;
pub mod listing;
pub mod models;
pub mod numtext;
pub mod precision;
pub mod sql;
pub mod strutil;
