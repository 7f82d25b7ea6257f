//! Records exchanged with the portal.
use vstd::prelude::*;

verus! {

/// An online device as the portal lists it.
pub struct DeviceData {
    pub login_time: String,
    pub bas_id: i32,
    pub login_ip: String,
    pub mac_address: String,
}

/// A portal account and its password.
pub struct User {
    pub account: String,
    pub password: String,
}

impl User {
    /// The user with `account` and `password`.
    pub fn new(account: String, password: String) -> (u: User)
        ensures
            u.account@ == account@,
            u.password@ == password@,
    {
        User { account, password }
    }
}

impl Default for User {
    /// The user with empty account and password.
    fn default() -> (u: User)
        ensures
            u.account@ == Seq::<char>::empty(),
            u.password@ == Seq::<char>::empty(),
    {
        User { account: String::new(), password: String::new() }
    }
}

/// A reply as the transport delivered it: its status and, where it could be
/// read, its body.
pub struct HttpReply {
    pub status: u16,
    pub body: Option<String>,
}

} // verus!
