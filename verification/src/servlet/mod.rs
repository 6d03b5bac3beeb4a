//! Guards on the server's routes.
pub mod imguard;
