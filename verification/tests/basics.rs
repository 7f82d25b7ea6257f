use ctbox::cli::config::{General, Network, Root};
use ctbox::cli::network::Command;
use ctbox::cli::{Cli, Plan, SubAction};
use ctbox::error::{Error, Kind};
use ctbox::text::{char_vec, parse_u16, push_decimal};

#[test]
fn parse_u16_like_std() {
    for s in ["0", "1", "+7", "007", "65535", "65536", "", "+", "-1", "12a", " 1", "99999999999"] {
        assert_eq!(parse_u16(s), s.parse::<u16>().ok(), "{s}");
    }
}

#[test]
fn decimal_text() {
    for n in [0u16, 7, 10, 404, 65535] {
        let mut s = String::from("x");
        push_decimal(&mut s, n);
        assert_eq!(s, format!("x{n}"));
    }
}

#[test]
fn chars_round_trip() {
    let v = char_vec("héllo");
    assert_eq!(v, vec!['h', 'é', 'l', 'l', 'o']);
}

#[test]
fn error_descriptions() {
    assert_eq!(Error::new(Kind::Parse).describe(), "[ctbox]Parse with code None and text None");
    assert_eq!(Error::new(Kind::Request).describe(), "[ctbox]Request with code None and text None");
    assert_eq!(
        Error::with_detail(Kind::Query, Some(404), Some("gone".to_string())).describe(),
        "[ctbox]Query with code 404 and text gone"
    );
    assert_eq!(
        Error::with_detail(Kind::Request, None, Some("t".to_string())).describe(),
        "[ctbox]Request with code None and text t"
    );
}

#[test]
fn config_defaults() {
    assert_eq!(General::default().retry_times, 3);
    assert!(Network::default().connect_check);
    let r = Root::default();
    assert_eq!(r.general.retry_times, 3);
    assert!(r.network.connect_check);
}

#[test]
fn plans() {
    let none = Cli { sub_action: None };
    assert_eq!(none.plan(true, None), Plan::Idle);
    let cli = Cli { sub_action: Some(SubAction::Network { network_action: Command::Logout {} }) };
    assert_eq!(cli.plan(false, None), Plan::Run);
    assert_eq!(cli.plan(true, None), Plan::ProbeEntrance);
    assert_eq!(cli.plan(true, Some(false)), Plan::Unreachable);
    assert_eq!(cli.plan(true, Some(true)), Plan::Run);
}
