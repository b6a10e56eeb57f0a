use rust_tdlib::message_scheduling_state::{
    MessageSchedulingState, MessageSchedulingStateSendAtDate, MessageSchedulingStateSendWhenOnline,
};

#[test]
fn send_at_date_from_json_reads_all_fields() {
    let raw = r#"{"@type":"messageSchedulingStateSendAtDate","@extra":"tok","send_date":1700000000}"#;
    let v = MessageSchedulingStateSendAtDate::from_json(raw).unwrap();
    assert_eq!(v.send_date(), 1700000000);
    assert_eq!(v.extra(), Some("tok".to_string()));
    assert_eq!(v.td_name(), "messageSchedulingStateSendAtDate");
}

#[test]
fn send_at_date_without_date_is_an_error() {
    let raw = r#"{"@type":"messageSchedulingStateSendAtDate"}"#;
    assert!(MessageSchedulingStateSendAtDate::from_json(raw).is_err());
    assert!(MessageSchedulingStateSendAtDate::from_json("{}").is_err());
    assert!(MessageSchedulingStateSendAtDate::from_json("[1,2]").is_err());
}

#[test]
fn send_when_online_from_json() {
    let raw = r#"{"@type":"messageSchedulingStateSendWhenOnline"}"#;
    let v = MessageSchedulingStateSendWhenOnline::from_json(raw).unwrap();
    assert_eq!(v.extra(), None);
    assert_eq!(v.td_name(), "messageSchedulingStateSendWhenOnline");
}

#[test]
fn scheduling_state_dispatches_on_type_tag() {
    let at_date = r#"{"@type":"messageSchedulingStateSendAtDate","send_date":42}"#;
    match MessageSchedulingState::from_json(at_date).unwrap() {
        MessageSchedulingState::SendAtDate(v) => assert_eq!(v.send_date(), 42),
        other => panic!("unexpected variant: {:?}", other),
    }
    let online = r#"{"@type":"messageSchedulingStateSendWhenOnline","@extra":"e"}"#;
    match MessageSchedulingState::from_json(online).unwrap() {
        MessageSchedulingState::SendWhenOnline(v) => {
            assert_eq!(v.extra(), Some("e".to_string()))
        }
        other => panic!("unexpected variant: {:?}", other),
    }
}

#[test]
fn unknown_scheduling_tag_is_an_error() {
    let raw = r#"{"@type":"messageSchedulingStateTomorrow"}"#;
    assert!(MessageSchedulingState::from_json(raw).is_err());
}

#[test]
fn default_scheduling_state_is_the_synthetic_variant() {
    let v = MessageSchedulingState::default();
    assert!(v._is_default());
    assert_eq!(v.td_name(), "-1");
    assert_eq!(v.extra(), None);
    assert!(!MessageSchedulingState::SendWhenOnline(
        MessageSchedulingStateSendWhenOnline::default()
    )
    ._is_default());
}

#[test]
fn send_at_date_builder_sets_date_and_fresh_token() {
    let built = MessageSchedulingStateSendAtDate::builder().send_date(99).build();
    assert_eq!(built.send_date(), 99);
    let extra = built.extra().unwrap();
    assert_eq!(extra.len(), 36);
    assert_eq!(built.td_name, "messageSchedulingStateSendAtDate");

    // two builders draw distinct correlation tokens
    let other = MessageSchedulingStateSendAtDate::builder().build();
    assert_ne!(other.extra(), built.extra());
}

#[test]
fn send_when_online_builder_carries_tag_and_token() {
    let built = MessageSchedulingStateSendWhenOnline::builder().build();
    assert_eq!(built.td_name, "messageSchedulingStateSendWhenOnline");
    assert_eq!(built.extra().unwrap().len(), 36);
}

#[test]
fn builder_output_round_trips_through_json() {
    let built = MessageSchedulingStateSendAtDate::builder().send_date(1234).build();
    let raw = format!(
        r#"{{"@type":"{}","@extra":"{}","send_date":{}}}"#,
        built.td_name,
        built.extra().unwrap(),
        built.send_date()
    );
    let reread = MessageSchedulingStateSendAtDate::from_json(&raw).unwrap();
    assert_eq!(reread, built);
}

#[test]
fn clones_preserve_scheduling_values() {
    let built = MessageSchedulingStateSendAtDate::builder().send_date(5).build();
    let copied = built.clone();
    assert_eq!(copied, built);
    let state = MessageSchedulingState::SendAtDate(built);
    assert_eq!(state.clone(), state);
}

#[test]
fn to_json_emits_the_documented_text() {
    let v = MessageSchedulingStateSendAtDate {
        td_name: "messageSchedulingStateSendAtDate".to_string(),
        extra: None,
        send_date: -5,
    };
    assert_eq!(
        v.to_json().unwrap(),
        r#"{"@type":"messageSchedulingStateSendAtDate","@extra":null,"send_date":-5}"#
    );
    let w = MessageSchedulingStateSendWhenOnline {
        td_name: "messageSchedulingStateSendWhenOnline".to_string(),
        extra: Some("tok".to_string()),
    };
    assert_eq!(
        w.to_json().unwrap(),
        r#"{"@type":"messageSchedulingStateSendWhenOnline","@extra":"tok"}"#
    );
    assert_eq!(MessageSchedulingState::default().to_json().unwrap(), "null");
}

#[test]
fn to_json_escapes_strings() {
    let v = MessageSchedulingStateSendWhenOnline {
        td_name: "a\"b\\c".to_string(),
        extra: Some("line\nbreak\u{1}".to_string()),
    };
    assert_eq!(
        v.to_json().unwrap(),
        "{\"@type\":\"a\\\"b\\\\c\",\"@extra\":\"line\\nbreak\\u0001\"}"
    );
}

#[test]
fn to_json_round_trips_through_from_json() {
    let built = MessageSchedulingStateSendAtDate::builder().send_date(1700000001).build();
    let text = built.to_json().unwrap();
    let reread = MessageSchedulingStateSendAtDate::from_json(&text).unwrap();
    assert_eq!(reread, built);

    let state = MessageSchedulingState::SendAtDate(built);
    let text = state.to_json().unwrap();
    match MessageSchedulingState::from_json(&text).unwrap() {
        MessageSchedulingState::SendAtDate(v) => assert_eq!(v.send_date(), 1700000001),
        other => panic!("unexpected variant: {:?}", other),
    }
}
