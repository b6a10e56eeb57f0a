use rust_tdlib::types::{
    from_json, AuthorizationState, TdType, Update,
};

#[test]
fn decodes_ready_authorization_event() {
    let raw = r#"{"@type":"updateAuthorizationState","client_id":7,"authorization_state":{"@type":"authorizationStateReady"}}"#;
    let event = from_json(raw).unwrap();
    match event {
        TdType::Update(Update::AuthorizationState(u)) => {
            assert_eq!(u.client_id(), Some(7));
            assert_eq!(*u.authorization_state(), AuthorizationState::Ready);
        }
        other => panic!("unexpected event: {:?}", other),
    }
}

#[test]
fn decodes_wait_states() {
    let cases = [
        ("authorizationStateWaitTdlibParameters", AuthorizationState::WaitTdlibParameters),
        ("authorizationStateClosed", AuthorizationState::Closed),
        ("authorizationStateClosing", AuthorizationState::Closing),
        ("authorizationStateLoggingOut", AuthorizationState::LoggingOut),
    ];
    for (tag, expected) in cases {
        let raw = format!(
            r#"{{"@type":"updateAuthorizationState","authorization_state":{{"@type":"{}"}}}}"#,
            tag
        );
        let event = from_json(&raw).unwrap();
        match event {
            TdType::Update(Update::AuthorizationState(u)) => {
                assert_eq!(u.client_id(), None);
                assert_eq!(*u.authorization_state(), expected);
            }
            other => panic!("unexpected event: {:?}", other),
        }
    }
}

#[test]
fn decodes_confirmation_link() {
    let raw = r#"{"@type":"updateAuthorizationState","authorization_state":{"@type":"authorizationStateWaitOtherDeviceConfirmation","link":"tg://login?token=abc"}}"#;
    let event = from_json(raw).unwrap();
    match event {
        TdType::Update(Update::AuthorizationState(u)) => match u.authorization_state() {
            AuthorizationState::WaitOtherDeviceConfirmation(w) => {
                assert_eq!(w.link(), "tg://login?token=abc");
            }
            other => panic!("unexpected state: {:?}", other),
        },
        other => panic!("unexpected event: {:?}", other),
    }
}

#[test]
fn missing_confirmation_link_is_an_error() {
    let raw = r#"{"@type":"updateAuthorizationState","authorization_state":{"@type":"authorizationStateWaitOtherDeviceConfirmation"}}"#;
    assert!(from_json(raw).is_err());
}

#[test]
fn decodes_common_update_with_address() {
    let raw = r#"{"@type":"updateNewMessage","client_id":3,"message":{"id":1}}"#;
    let event = from_json(raw).unwrap();
    match event {
        TdType::Update(Update::Common(c)) => {
            assert_eq!(c.client_id, Some(3));
            assert_eq!(c.td_name, "updateNewMessage");
        }
        other => panic!("unexpected event: {:?}", other),
    }
}

#[test]
fn decodes_reply_with_correlation_token() {
    let raw = r#"{"@type":"ok","@extra":"req-1"}"#;
    let event = from_json(raw).unwrap();
    match event {
        TdType::Response(resp) => {
            assert_eq!(resp.td_name, "ok");
            assert_eq!(resp.extra, "req-1");
        }
        other => panic!("unexpected event: {:?}", other),
    }
}

#[test]
fn malformed_stream_fails_decoding() {
    assert!(from_json("not json at all").is_err());
    assert!(from_json(r#"{"no_type":1}"#).is_err());
    assert!(from_json(r#"{"@type":"updateAuthorizationState"}"#).is_err());
    assert!(
        from_json(
            r#"{"@type":"updateAuthorizationState","authorization_state":{"@type":"authorizationStateUnheardOf"}}"#
        )
        .is_err()
    );
}

#[test]
fn unrepresentable_client_id_fails_decoding() {
    let raw = r#"{"@type":"updateNewMessage","client_id":4294967296}"#;
    assert!(from_json(raw).is_err());
}
