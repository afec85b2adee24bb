use etcd_auth::{AuthError, DisableAuth, EnableAuth};

#[test]
fn enable_known_statuses() {
    assert!(matches!(EnableAuth::from_status(200), Ok(EnableAuth::Enabled)));
    assert!(matches!(EnableAuth::from_status(400), Ok(EnableAuth::RootUserRequired)));
    assert!(matches!(EnableAuth::from_status(409), Ok(EnableAuth::AlreadyEnabled)));
}

#[test]
fn disable_known_statuses() {
    assert!(matches!(DisableAuth::from_status(200), Ok(DisableAuth::Disabled)));
    assert!(matches!(DisableAuth::from_status(409), Ok(DisableAuth::AlreadyDisabled)));
    assert!(matches!(DisableAuth::from_status(401), Ok(DisableAuth::Unauthorized)));
}

#[test]
fn enable_every_other_status_is_unexpected_with_its_code() {
    for code in 0..=u16::MAX {
        if code == 200 || code == 400 || code == 409 {
            continue;
        }
        match EnableAuth::from_status(code) {
            Err(AuthError::UnexpectedStatus(kept)) => assert_eq!(kept, code),
            other => panic!("status {} gave {:?}", code, other),
        }
    }
}

#[test]
fn disable_every_other_status_is_unexpected_with_its_code() {
    for code in 0..=u16::MAX {
        if code == 200 || code == 401 || code == 409 {
            continue;
        }
        match DisableAuth::from_status(code) {
            Err(AuthError::UnexpectedStatus(kept)) => assert_eq!(kept, code),
            other => panic!("status {} gave {:?}", code, other),
        }
    }
}

#[test]
fn enable_does_not_know_the_statuses_of_disable() {
    assert!(matches!(EnableAuth::from_status(401), Err(AuthError::UnexpectedStatus(401))));
    assert!(matches!(DisableAuth::from_status(400), Err(AuthError::UnexpectedStatus(400))));
}

#[test]
fn mapping_twice_gives_the_same() {
    for code in [0u16, 200, 400, 401, 409, 418, 500, u16::MAX] {
        let first = EnableAuth::from_status(code);
        let second = EnableAuth::from_status(code);
        match (first, second) {
            (Ok(a), Ok(b)) => assert_eq!(a, b),
            (Err(AuthError::UnexpectedStatus(a)), Err(AuthError::UnexpectedStatus(b))) => {
                assert_eq!(a, b)
            }
            other => panic!("status {} gave {:?}", code, other),
        }
        let first = DisableAuth::from_status(code);
        let second = DisableAuth::from_status(code);
        match (first, second) {
            (Ok(a), Ok(b)) => assert_eq!(a, b),
            (Err(AuthError::UnexpectedStatus(a)), Err(AuthError::UnexpectedStatus(b))) => {
                assert_eq!(a, b)
            }
            other => panic!("status {} gave {:?}", code, other),
        }
    }
}

#[test]
fn is_enabled_tells_the_state() {
    assert!(EnableAuth::Enabled.is_enabled());
    assert!(EnableAuth::AlreadyEnabled.is_enabled());
    assert!(!EnableAuth::RootUserRequired.is_enabled());
}

#[test]
fn is_disabled_tells_the_state() {
    assert!(DisableAuth::Disabled.is_disabled());
    assert!(DisableAuth::AlreadyDisabled.is_disabled());
    assert!(!DisableAuth::Unauthorized.is_disabled());
}

#[test]
fn only_transport_errors_are_of_the_transport() {
    let http = AuthError::Transport(etcd_auth::TransportError::Http(hyper::Error::Timeout));
    assert!(http.is_transport());
    assert!(!AuthError::UnexpectedStatus(500).is_transport());
}
