//! Request addresses, built with the `url` crate.
//!
//! An address is held as its serialization (`Url::as_str`); each step parses
//! it again, which gives back the same `Url`: the crate keeps its
//! serialization a fixed point of parsing (`Url::check_invariants`).
use vstd::prelude::*;
use crate::text::text_of;

verus! {

/// What `url::Url::parse` gives for `input`, as a serialization.
pub uninterp spec fn parsed_url(input: Seq<char>) -> Option<Seq<char>>;

/// The address `url` with its port set to `port` by `Url::set_port`, or
/// `None` where the address takes no port.
pub uninterp spec fn url_with_port(url: Seq<char>, port: u16) -> Option<Seq<char>>;

/// What `Url::join` gives for `input` read against the address `url`.
pub uninterp spec fn url_joined(url: Seq<char>, input: Seq<char>) -> Option<Seq<char>>;

/// The address `url` after the pair `name`=`value` was appended to its query
/// by `Url::query_pairs_mut().append_pair`.
pub uninterp spec fn url_with_pair(url: Seq<char>, name: Seq<char>, value: Seq<char>) -> Option<Seq<char>>;

/// Parses `input` with `url::Url::parse` and returns the serialization.
/// The contract only names the result, a function of `input`.
#[verifier::external_body]
fn url_parse(input: &str) -> (r: Option<String>)
    ensures
        text_of(r) == parsed_url(input@),
{
    ::url::Url::parse(input).ok().map(String::from)
}

/// Sets the port of the address `url` with `Url::set_port`. The contract
/// only names the result, a function of the two arguments.
#[verifier::external_body]
fn url_set_port(url: &str, port: u16) -> (r: Option<String>)
    ensures
        text_of(r) == url_with_port(url@, port),
{
    let mut u = ::url::Url::parse(url).ok()?;
    u.set_port(Some(port)).ok()?;
    Some(String::from(u))
}

/// Reads `input` against the address `url` with `Url::join`. The contract
/// only names the result, a function of the two arguments.
#[verifier::external_body]
fn url_join(url: &str, input: &str) -> (r: Option<String>)
    ensures
        text_of(r) == url_joined(url@, input@),
{
    let u = ::url::Url::parse(url).ok()?;
    u.join(input).ok().map(String::from)
}

/// Appends `name`=`value` to the query of the address `url` with
/// `form_urlencoded::Serializer::append_pair` on `Url::query_pairs_mut`.
/// The contract only names the result, a function of the three arguments.
#[verifier::external_body]
fn url_append_pair(url: &str, name: &str, value: &str) -> (r: Option<String>)
    ensures
        text_of(r) == url_with_pair(url@, name@, value@),
{
    let mut u = ::url::Url::parse(url).ok()?;
    u.query_pairs_mut().append_pair(name, value);
    Some(String::from(u))
}

/// `url_with_port` after a step that may have failed.
pub open spec fn then_port(url: Option<Seq<char>>, port: u16) -> Option<Seq<char>> {
    match url {
        Some(u) => url_with_port(u, port),
        None => None,
    }
}

/// `url_joined` after a step that may have failed.
pub open spec fn then_join(url: Option<Seq<char>>, input: Seq<char>) -> Option<Seq<char>> {
    match url {
        Some(u) => url_joined(u, input),
        None => None,
    }
}

/// `url_with_pair` after a step that may have failed.
pub open spec fn then_pair(url: Option<Seq<char>>, name: Seq<char>, value: Seq<char>) -> Option<Seq<char>> {
    match url {
        Some(u) => url_with_pair(u, name, value),
        None => None,
    }
}

/// The name the portal wraps its replies in: the package name.
pub open spec fn callback() -> Seq<char> {
    "ctbox"@
}

/// The address of the login request.
pub open spec fn login_address(entrance: Seq<char>, account: Seq<char>, password: Seq<char>) -> Option<Seq<char>> {
    let base = then_join(parsed_url(entrance), "/drcom/login"@);
    let with_callback = then_pair(base, "callback"@, callback());
    let with_account = then_pair(with_callback, "DDDDD"@, account);
    let with_password = then_pair(with_account, "upass"@, password);
    then_pair(with_password, "0MKKey"@, "123456"@)
}

/// The address of a query on port 802 of the entrance, at `node`, for `account`.
pub open spec fn query_address(entrance: Seq<char>, node: Seq<char>, account: Seq<char>) -> Option<Seq<char>> {
    let base = then_join(then_port(parsed_url(entrance), 802), node);
    let with_callback = then_pair(base, "callback"@, callback());
    then_pair(with_callback, "account"@, account)
}

/// The account to query: the one given, else `default`.
pub open spec fn account_or(account: Option<&str>, default: Seq<char>) -> Seq<char> {
    match account {
        Some(a) => a@,
        None => default,
    }
}

/// The address of the user information query.
pub open spec fn user_info_address(entrance: Seq<char>, account: Option<&str>) -> Option<Seq<char>> {
    query_address(entrance, "/eportal/portal/custom/loadUserInfo"@, account_or(account, "null"@))
}

/// The address of the online device query.
pub open spec fn device_info_address(entrance: Seq<char>, account: Option<&str>) -> Option<Seq<char>> {
    query_address(entrance, "/eportal/portal/custom/loadOnlineDevice"@, account_or(account, ""@))
}

/// The login address: the absolute path `/drcom/login` read against the
/// parsed entrance (so the entrance's own path is replaced, its scheme, host
/// and port kept), followed by the query pairs `callback=ctbox`,
/// `DDDDD=<account>`, `upass=<password>` and `0MKKey=123456`, in this order.
pub proof fn law_login_address(entrance: Seq<char>, account: Seq<char>, password: Seq<char>)
    ensures
        "/drcom/login"@[0] == '/',
        parsed_url(entrance) is None ==> login_address(entrance, account, password) is None,
        parsed_url(entrance) matches Some(base) ==> login_address(entrance, account, password)
            == then_pair(
            then_pair(
                then_pair(
                    then_pair(url_joined(base, "/drcom/login"@), "callback"@, "ctbox"@),
                    "DDDDD"@,
                    account,
                ),
                "upass"@,
                password,
            ),
            "0MKKey"@,
            "123456"@,
        ),
{
    reveal_strlit("/drcom/login");
}

/// The user information address: the entrance with port 802, the absolute
/// path `/eportal/portal/custom/loadUserInfo`, then `callback=ctbox` and
/// `account=<account>`, where a missing account is sent as `null`.
pub proof fn law_user_info_address(entrance: Seq<char>, account: Option<&str>)
    ensures
        "/eportal/portal/custom/loadUserInfo"@[0] == '/',
        parsed_url(entrance) is None ==> user_info_address(entrance, account) is None,
        parsed_url(entrance) matches Some(base) ==> user_info_address(entrance, account) == match account {
            Some(a) => then_pair(
            then_pair(then_join(url_with_port(base, 802), "/eportal/portal/custom/loadUserInfo"@), "callback"@, "ctbox"@),
            "account"@,
            a@,
        ),
            None => then_pair(
            then_pair(then_join(url_with_port(base, 802), "/eportal/portal/custom/loadUserInfo"@), "callback"@, "ctbox"@),
            "account"@,
            "null"@,
        ),
        },
{
    reveal_strlit("/eportal/portal/custom/loadUserInfo");
}

/// The online device address: the entrance with port 802, the absolute path
/// `/eportal/portal/custom/loadOnlineDevice`, then `callback=ctbox` and
/// `account=<account>`, where a missing account is sent empty. A given
/// account is the value of the last pair.
pub proof fn law_device_info_address(entrance: Seq<char>, account: Option<&str>)
    ensures
        "/eportal/portal/custom/loadOnlineDevice"@[0] == '/',
        parsed_url(entrance) is None ==> device_info_address(entrance, account) is None,
        parsed_url(entrance) matches Some(base) ==> device_info_address(entrance, account) == match account {
            Some(a) => then_pair(
            then_pair(then_join(url_with_port(base, 802), "/eportal/portal/custom/loadOnlineDevice"@), "callback"@, "ctbox"@),
            "account"@,
            a@,
        ),
            None => then_pair(
            then_pair(then_join(url_with_port(base, 802), "/eportal/portal/custom/loadOnlineDevice"@), "callback"@, "ctbox"@),
            "account"@,
            ""@,
        ),
        },
{
    reveal_strlit("/eportal/portal/custom/loadOnlineDevice");
}

fn append_pair_after(url: Option<String>, name: &str, value: &str) -> (r: Option<String>)
    ensures
        text_of(r) == then_pair(text_of(url), name@, value@),
{
    match url {
        Some(u) => url_append_pair(u.as_str(), name, value),
        None => None,
    }
}

/// The address of the login request for `account` and `password`, below the
/// portal's `entrance`; `None` where a step of building it fails.
pub fn login_url(entrance: &str, account: &str, password: &str) -> (r: Option<String>)
    ensures
        text_of(r) == login_address(entrance@, account@, password@),
{
    let base = match url_parse(entrance) {
        Some(u) => url_join(u.as_str(), "/drcom/login"),
        None => None,
    };
    let u = append_pair_after(base, "callback", "ctbox");
    let u = append_pair_after(u, "DDDDD", account);
    let u = append_pair_after(u, "upass", password);
    append_pair_after(u, "0MKKey", "123456")
}

fn query_url(entrance: &str, node: &str, account: &str) -> (r: Option<String>)
    ensures
        text_of(r) == query_address(entrance@, node@, account@),
{
    let with_port = match url_parse(entrance) {
        Some(u) => url_set_port(u.as_str(), 802),
        None => None,
    };
    let base = match with_port {
        Some(u) => url_join(u.as_str(), node),
        None => None,
    };
    let u = append_pair_after(base, "callback", "ctbox");
    append_pair_after(u, "account", account)
}

/// The address of the user information query for `account` (the account
/// `null` when none is given); `None` where a step of building it fails.
pub fn user_info_url(entrance: &str, account: Option<&str>) -> (r: Option<String>)
    ensures
        text_of(r) == user_info_address(entrance@, account),
{
    let a = match account {
        Some(a) => a,
        None => "null",
    };
    query_url(entrance, "/eportal/portal/custom/loadUserInfo", a)
}

/// The address of the online device query for `account` (an empty account
/// when none is given); `None` where a step of building it fails.
pub fn device_info_url(entrance: &str, account: Option<&str>) -> (r: Option<String>)
    ensures
        text_of(r) == device_info_address(entrance@, account),
{
    let a = match account {
        Some(a) => a,
        None => "",
    };
    query_url(entrance, "/eportal/portal/custom/loadOnlineDevice", a)
}

/// The template that frames the payload of the portal's replies:
/// the callback name, then the payload in parentheses.
pub fn callback_template() -> (t: &'static str)
    ensures
        t@ == r"ctbox\({}\)"@,
{
    r"ctbox\({}\)"
}

} // verus!
