use ctbox::error::{Error, Kind};
use ctbox::network::address::{callback_template, device_info_url, login_url, user_info_url};
use ctbox::network::entity::{HttpReply, User};
use ctbox::network::login::{login_outcome, login_reply_text, Response};
use ctbox::network::query::{is_success, query_outcome, query_reply_text, QueryResponse};
use ctbox::network::util::{entrance_reachable, extract_payload, fuck_cnu_api, has_payload};

const ENTRANCE: &str = "http://10.0.0.1";

#[test]
fn login_address_carries_the_credentials() {
    assert_eq!(
        login_url(ENTRANCE, "2020123", "secret").as_deref(),
        Some("http://10.0.0.1/drcom/login?callback=ctbox&DDDDD=2020123&upass=secret&0MKKey=123456")
    );
}

#[test]
fn login_address_encodes_the_query() {
    assert_eq!(
        login_url(ENTRANCE, "a b", "p&q").as_deref(),
        Some("http://10.0.0.1/drcom/login?callback=ctbox&DDDDD=a+b&upass=p%26q&0MKKey=123456")
    );
}

#[test]
fn query_addresses_use_port_802() {
    assert_eq!(
        user_info_url(ENTRANCE, None).as_deref(),
        Some("http://10.0.0.1:802/eportal/portal/custom/loadUserInfo?callback=ctbox&account=null")
    );
    assert_eq!(
        user_info_url(ENTRANCE, Some("42")).as_deref(),
        Some("http://10.0.0.1:802/eportal/portal/custom/loadUserInfo?callback=ctbox&account=42")
    );
    assert_eq!(
        device_info_url(ENTRANCE, None).as_deref(),
        Some("http://10.0.0.1:802/eportal/portal/custom/loadOnlineDevice?callback=ctbox&account=")
    );
}

#[test]
fn a_bad_entrance_gives_no_address() {
    assert_eq!(login_url("not an address", "a", "b"), None);
    assert_eq!(user_info_url("not an address", None), None);
    assert_eq!(device_info_url("mailto:someone@example.com", None), None);
}

#[test]
fn payload_is_read_out_of_the_callback() {
    let template = callback_template();
    assert_eq!(template, r"ctbox\({}\)");
    let source = r#"ctbox({"result":1,"v46ip":"10.1.2.3"})"#;
    assert!(has_payload(source, template));
    assert_eq!(fuck_cnu_api(source, template), r#"{"result":1,"v46ip":"10.1.2.3"}"#);
}

#[test]
fn payload_capture_is_lazy_and_spans_lines() {
    assert_eq!(fuck_cnu_api("dr1004(a\nb)c)", r"dr1004\({}\)"), "a\nb");
    assert_eq!(extract_payload("xx ctbox() yy", r"ctbox\({}\)").as_deref(), Some(""));
}

#[test]
fn missing_payload_is_none() {
    assert_eq!(extract_payload("no wrapper here", r"ctbox\({}\)"), None);
    assert!(!has_payload("ctbox(1)", "a template without a hole"));
    assert_eq!(extract_payload("ctbox(1)", "a template without a hole"), None);
}

#[test]
fn reachable_only_on_status_200() {
    assert!(entrance_reachable(Some(200)));
    assert!(!entrance_reachable(Some(302)));
    assert!(!entrance_reachable(None));
}

fn expect_err<T>(r: Result<T, Error>) -> Error {
    match r {
        Ok(_) => panic!("expected an error"),
        Err(e) => e,
    }
}

#[test]
fn login_reply_errors() {
    let e = expect_err(login_reply_text(None));
    assert_eq!((e.kind(), e.code(), e.text()), (Kind::Request, None, None));
    let e = expect_err(login_reply_text(Some(HttpReply { status: 500, body: Some("down".to_string()) })));
    assert_eq!((e.kind(), e.code(), e.text()), (Kind::Request, Some(500), Some("down".to_string())));
    let e = expect_err(login_reply_text(Some(HttpReply { status: 500, body: None })));
    assert_eq!((e.kind(), e.code(), e.text()), (Kind::Request, None, None));
    let e = expect_err(login_reply_text(Some(HttpReply { status: 200, body: None })));
    assert_eq!((e.kind(), e.code(), e.text()), (Kind::Request, None, None));
    match login_reply_text(Some(HttpReply { status: 200, body: Some("ok".to_string()) })) {
        Ok(t) => assert_eq!(t, "ok"),
        Err(_) => panic!("expected the body"),
    }
}

#[test]
fn login_outcome_maps_unreadable_payload_to_parse() {
    let e = expect_err(login_outcome(None));
    assert_eq!((e.kind(), e.code(), e.text()), (Kind::Parse, None, None));
    let r = Response { result: 1, v46ip: "10.1.2.3".to_string(), olmac: "m".to_string(), uid: "u".to_string() };
    match login_outcome(Some(r)) {
        Ok(r) => assert_eq!((r.result, r.v46ip.as_str()), (1, "10.1.2.3")),
        Err(_) => panic!("expected the response"),
    }
}

#[test]
fn query_reply_errors() {
    let e = expect_err(query_reply_text(None));
    assert_eq!((e.kind(), e.code(), e.text()), (Kind::Request, None, None));
    let e = expect_err(query_reply_text(Some(HttpReply { status: 404, body: None })));
    assert_eq!((e.kind(), e.code(), e.text()), (Kind::Request, Some(404), None));
    let e = expect_err(query_reply_text(Some(HttpReply { status: 404, body: Some("gone".to_string()) })));
    assert_eq!((e.kind(), e.code(), e.text()), (Kind::Request, Some(404), Some("gone".to_string())));
    let e = expect_err(query_reply_text(Some(HttpReply { status: 200, body: None })));
    assert_eq!((e.kind(), e.code(), e.text()), (Kind::Request, None, None));
}

#[test]
fn query_outcome_success_and_refusal() {
    let ok = QueryResponse { code: "1".to_string(), data: vec![7, 8], msg: "fine".to_string() };
    match query_outcome(Some(ok)) {
        Ok(d) => assert_eq!(d, vec![7, 8]),
        Err(_) => panic!("expected the records"),
    }
    let refused: QueryResponse<i32> = QueryResponse { code: "0".to_string(), data: vec![], msg: "no such account".to_string() };
    let e = expect_err(query_outcome(Some(refused)));
    assert_eq!((e.kind(), e.code(), e.text()), (Kind::Query, Some(0), Some("no such account".to_string())));
    let e = expect_err(query_outcome::<i32>(None));
    assert_eq!((e.kind(), e.code(), e.text()), (Kind::Parse, None, None));
    assert!(is_success("1"));
    assert!(!is_success("01"));
    assert!(!is_success(""));
}

#[test]
fn user_new_keeps_the_fields() {
    let u = User::new("acc".to_string(), "pw".to_string());
    assert_eq!((u.account.as_str(), u.password.as_str()), ("acc", "pw"));
    let d = User::default();
    assert_eq!((d.account.as_str(), d.password.as_str()), ("", ""));
}
