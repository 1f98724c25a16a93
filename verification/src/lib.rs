//! A gateway between client applications and a locally hosted language-model
//! server: hardware-tier classification, model routing, the request and reply
//! protocol of the inference server, and the conversation history.
//!
//! Everything here is pure logic on plain values. Network, storage and process
//! I/O are left to the hosting program.

pub mod chat;
pub mod config;
pub mod gateway;
pub mod hardware;
pub mod models;
pub mod probe;
pub mod routing;
pub mod service;
pub mod store;
pub mod text;
