//! A handler for the Intelligent Commerce Protocol.
//!
//! Agents quote, authorize, buy, subscribe, negotiate, pay each other and return,
//! under mandates that say what they may spend; every change is answered with a
//! signed receipt. This library holds the rules: what each intent does, when it is
//! refused, and what stays true whatever was asked.

pub mod agent;
pub mod arith;
pub mod auth;
pub mod commerce;
pub mod compat;
pub mod config;
pub mod conformance;
pub mod constants;
pub mod crypto;
pub mod decimal;
pub mod discovery;
pub mod documents;
pub mod errors;
pub mod events;
pub mod grpc;
pub mod handlers;
pub mod idempotency;
pub mod intent;
pub mod json;
pub mod jws;
pub mod listing;
pub mod mandate;
pub mod mcp;
pub mod metrics;
pub mod models;
pub mod numerals;
pub mod pricing;
pub mod rate_limit;
pub mod receipts;
pub mod resolver;
pub mod service;
pub mod signing;
pub mod startup;
pub mod state_db;
pub mod table;
pub mod text;
pub mod time;
pub mod webhook;
