//! The operations on the campus network that the command line offers.
use vstd::prelude::*;

verus! {

/// The operations on the campus network.
pub enum Command {
    /// Log in with an account and its password.
    Login { account: String, password: String },
    /// Log out.
    Logout {},
    /// Look up user information and online devices, for an account or the current one.
    Query { account: Option<String> },
    /// Run the credential cipher on a text, backwards when `decrypt` holds.
    Encrypt { decrypt: bool, source: String },
}

} // verus!
