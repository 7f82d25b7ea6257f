//! A client library for a campus network portal: the character cipher that the
//! portal uses for credentials, the request addresses, and the rules that turn
//! a portal reply into a result.
pub mod cli;
pub mod error;
pub mod network;
pub mod text;
