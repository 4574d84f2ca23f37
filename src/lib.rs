//! Correlated request/reply over a message broker and a batch action
//! dispatcher for IoT clusters, with their contracts proved by Verus.

pub mod action;
pub mod auth;
pub mod bridge;
pub mod config;
pub mod context;
pub mod dispatch;
pub mod ids;
pub mod json;
pub mod registration;
pub mod rpc_actions;
