//! Everything that talks to the portal: the credential cipher, the records
//! the portal sends, request addresses and reply handling.
pub mod address;
pub mod encrypt;
pub mod entity;
pub mod login;
pub mod query;
pub mod util;
