use massh::{Endpoint, Failure, FailureKind, HostAddr, HostLookup, MasshHostConfig, SSH_PORT};

fn lookup_endpoint(addr: &str, port: u16) -> Endpoint {
    Endpoint { addr: HostAddr::new(addr).unwrap(), port }
}

fn found(addr: &str, port: u16) -> Result<Vec<Endpoint>, Failure> {
    Ok(vec![lookup_endpoint(addr, port)])
}

fn unknown() -> Result<Vec<Endpoint>, Failure> {
    Err(Failure::new(FailureKind::AddressResolution, "invalid socket address"))
}

fn pending(user: Option<&str>, target: &str, standard_port: bool) -> HostLookup {
    HostLookup::Pending {
        user: user.map(|u| u.to_string()),
        target: target.to_string(),
        standard_port,
    }
}

#[test]
fn standard_port_is_22() {
    assert_eq!(SSH_PORT, 22);
}

#[test]
fn lookup_of_bare_address_has_no_user() {
    let lookup = HostLookup::start("1.1.1.1");
    assert_eq!(lookup, pending(None, "1.1.1.1", false));
    assert_eq!(lookup.query(), Some("1.1.1.1".to_string()));
}

#[test]
fn lookup_splits_user_at_first_at_sign() {
    assert_eq!(
        HostLookup::start("other-user-1@2.2.2.2"),
        pending(Some("other-user-1"), "2.2.2.2", false)
    );
    assert_eq!(HostLookup::start("a@b@c"), pending(Some("a"), "b@c", false));
    assert_eq!(HostLookup::start("@x"), pending(Some(""), "x", false));
    assert_eq!(HostLookup::start("x@"), pending(Some("x"), "", false));
    assert_eq!(HostLookup::start(""), pending(None, "", false));
}

#[test]
fn lookup_with_port_keeps_the_port() {
    let lookup = HostLookup::start("other-user-2@3.3.3.3:20022");
    assert_eq!(lookup.query(), Some("3.3.3.3:20022".to_string()));
    let host = lookup.answer(found("3.3.3.3", 20022));
    assert_eq!(
        host,
        HostLookup::Found(MasshHostConfig {
            addr: HostAddr::new("3.3.3.3").unwrap(),
            auth: None,
            port: Some(20022),
            user: Some("other-user-2".to_string()),
        })
    );
    assert_eq!(host.query(), None);
}

#[test]
fn lookup_without_port_asks_again_with_standard_port() {
    let lookup = HostLookup::start("other-user-1@2.2.2.2").answer(unknown());
    assert_eq!(lookup, pending(Some("other-user-1"), "2.2.2.2", true));
    assert_eq!(lookup.query(), Some("2.2.2.2:22".to_string()));
    let host = lookup.answer(found("2.2.2.2", 22));
    assert_eq!(
        host,
        HostLookup::Found(MasshHostConfig {
            addr: HostAddr::new("2.2.2.2").unwrap(),
            auth: None,
            port: Some(22),
            user: Some("other-user-1".to_string()),
        })
    );
}

#[test]
fn lookup_fails_when_neither_query_resolves() {
    let failed = HostLookup::start("nowhere").answer(unknown()).answer(unknown());
    match &failed {
        HostLookup::Failed(failure) => {
            assert_eq!(failure.kind, FailureKind::AddressResolution);
            assert_eq!(failure.message, "String deserialization failed");
        }
        other => panic!("unexpected {:?}", other),
    }
    assert_eq!(failed.query(), None);
}

#[test]
fn lookup_takes_the_first_endpoint() {
    let both = Ok(vec![lookup_endpoint("::1", 22), lookup_endpoint("127.0.0.1", 22)]);
    assert_eq!(
        HostLookup::start("root@localhost:22").answer(both),
        HostLookup::Found(MasshHostConfig {
            addr: HostAddr::new("::1").unwrap(),
            auth: None,
            port: Some(22),
            user: Some("root".to_string()),
        })
    );
}

#[test]
fn lookup_fails_when_the_target_resolves_to_nothing() {
    let failed = HostLookup::start("1.1.1.1:22").answer(Ok(vec![]));
    assert_eq!(
        failed,
        HostLookup::Failed(Failure::new(
            FailureKind::AddressResolution,
            "String deserialization failed"
        ))
    );
    let failed = HostLookup::start("1.1.1.1").answer(unknown()).answer(Ok(vec![]));
    assert_eq!(
        failed,
        HostLookup::Failed(Failure::new(
            FailureKind::AddressResolution,
            "String deserialization failed"
        ))
    );
}

#[test]
fn lookup_that_has_ended_ignores_answers() {
    let host = HostLookup::start("1.1.1.1:22").answer(found("1.1.1.1", 22));
    let again = HostLookup::start("1.1.1.1:22").answer(found("1.1.1.1", 22)).answer(found("9.9.9.9", 9));
    assert_eq!(host, again);
    let failed = HostLookup::start("x").answer(unknown()).answer(unknown());
    let still = HostLookup::start("x").answer(unknown()).answer(unknown()).answer(found("9.9.9.9", 9));
    assert_eq!(failed, still);
}
