//! Projects a rollup chain's blocks into an Ethereum-shaped relational view.
//!
//! The library decides and computes; it reads and writes nothing. Around it, a
//! program fetches blocks, scripts and receipts from the rollup, hands them in
//! as plain values, and writes to the database what the library hands back.
pub mod config;
pub mod error;
pub mod error_receipt_indexer;
pub mod helper;
pub mod indexer;
pub mod insert_l2_block;
pub mod numbers;
pub mod outside;
pub mod rlp;
pub mod runner;
pub mod types;
pub mod ws_client;
pub mod ws_output;
