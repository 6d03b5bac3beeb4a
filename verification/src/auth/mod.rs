//! Authentication of the peers that connect to the server.
pub mod imauth;
