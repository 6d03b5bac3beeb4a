//! Leader election for a small cluster of chat servers: configuration,
//! host-based authentication, the shared election state and the decisions
//! that the server and its voters take on every message.

pub mod ascii;
pub mod config;
pub mod net;
pub mod auth;
pub mod shared;
pub mod ws;
pub mod server;
pub mod pom;
pub mod db;
pub mod voter;
pub mod vot;
pub mod session;
pub mod servlet;
