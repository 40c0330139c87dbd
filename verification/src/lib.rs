//! Verified core of the shop-assistant backend: stores, product catalog,
//! chat with a language model, authentication and health reporting.
//!
//! The library holds the decisions of every service; the surrounding server
//! performs the database, network and clock work those decisions ask for.

pub mod ids;
pub mod text;
pub mod http;
pub mod storage;
pub mod store;
pub mod json;
pub mod catalog;
pub mod llm;
pub mod chat;
pub mod clock;
pub mod system;
pub mod config;
pub mod auth;
pub mod laws;
pub mod field_laws;
pub mod answer_laws;
