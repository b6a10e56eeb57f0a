use rust_tdlib::errors::RTDError;
use rust_tdlib::types::{
    AuthorizationState, AuthorizationStateWaitCode, AuthorizationStateWaitEncryptionKey,
    AuthorizationStateWaitOtherDeviceConfirmation, AuthorizationStateWaitPassword,
    AuthorizationStateWaitPhoneNumber, AuthorizationStateWaitRegistration, ClientState,
    CommonUpdate, Request, TdType, TdlibParameters, Update, UpdateAuthorizationState,
};
use rust_tdlib::worker::{
    after_channel_send, first_auth_outcome, handle_auth_state, parse_registration_input,
    run_outcome, terminal_outcome, AuthRoute, AuthStateHandler, Client, ClientRegistry,
    ConsoleAuthStateHandler, FirstAuthWait, PumpStep, RouteAction, SendOutcome, Worker,
};

fn params() -> TdlibParameters {
    TdlibParameters {
        api_id: 7,
        api_hash: "hash".to_string(),
        database_directory: "/tmp/td".to_string(),
    }
}

fn worker() -> Worker<ConsoleAuthStateHandler> {
    Worker::builder().build().unwrap()
}

#[test]
fn register_binds_client_and_inserts_entry() {
    let mut w = worker();
    let bound = w.register_client(11, Client::new(params(), true)).unwrap();
    assert_eq!(bound.client_id, Some(11));
    let looked = w.lookup_client(11).unwrap();
    assert_eq!(looked.client_id, Some(11));
    assert!(looked.has_updates_sender);
    assert!(w.lookup_client(12).is_none());
}

#[test]
fn duplicate_id_registration_fails() {
    let mut w = worker();
    w.register_client(11, Client::new(params(), true)).unwrap();
    let second = w.register_client(11, Client::new(params(), false));
    assert_eq!(second, Err(RTDError::Internal("client id already registered")));
    // the registry still maps the id to the first client, untouched
    assert!(w.lookup_client(11).unwrap().has_updates_sender);
}

#[test]
fn already_bound_client_cannot_be_registered() {
    let mut w = worker();
    let bound = w.register_client(11, Client::new(params(), true)).unwrap();
    assert_eq!(
        w.register_client(12, bound),
        Err(RTDError::Internal("client id already assigned"))
    );
    assert!(w.lookup_client(12).is_none());
}

#[test]
fn registry_holds_one_entry_per_id() {
    let mut reg = ClientRegistry::new();
    let mut client = Client::new(params(), false);
    client.set_client_id(5).unwrap();
    reg.register(5, client.clone()).unwrap();
    assert!(reg.register(5, client).is_err());
    assert_eq!(reg.len(), 1);
}

#[test]
fn first_opened_proceeds_and_later_closed_is_terminal() {
    // a synthetic engine answers Opened first: registration proceeds
    assert_eq!(
        first_auth_outcome(Some(ClientState::Opened)),
        FirstAuthWait::Proceed
    );
    // fed Closed later, the terminal-state handle resolves to Closed
    assert_eq!(terminal_outcome(Some(ClientState::Closed)), ClientState::Closed);
}

#[test]
fn first_error_fails_registration_with_that_error() {
    let r = first_auth_outcome(Some(ClientState::Error("boom".to_string())));
    assert_eq!(r, FirstAuthWait::Failed("boom".to_string()));
}

#[test]
fn first_closed_short_circuits_registration() {
    assert_eq!(
        first_auth_outcome(Some(ClientState::Closed)),
        FirstAuthWait::AlreadyClosed
    );
}

#[test]
fn second_opened_resolves_to_duplicate_ready_error() {
    let r = terminal_outcome(Some(ClientState::Opened));
    assert_eq!(
        r,
        ClientState::Error("received Opened state again".to_string())
    );
}

#[test]
fn closed_state_channel_resolves_to_error() {
    assert_eq!(
        terminal_outcome(None),
        ClientState::Error("auth state channel closed".to_string())
    );
}

#[test]
fn unknown_id_update_is_dropped_without_interference() {
    let mut w = worker();
    w.register_client(1, Client::new(params(), true)).unwrap();

    let stray = TdType::Update(Update::Common(CommonUpdate {
        client_id: Some(99),
        td_name: "updateNewMessage".to_string(),
    }));
    assert_eq!(w.route_event(stray), RouteAction::DropUnknownClient(99));

    // delivery to the valid session is unaffected
    let valid = CommonUpdate {
        client_id: Some(1),
        td_name: "updateNewMessage".to_string(),
    };
    assert_eq!(
        w.route_event(TdType::Update(Update::Common(valid.clone()))),
        RouteAction::ForwardUpdate(1, Update::Common(valid))
    );
}

#[test]
fn auth_events_go_to_auth_channel_and_replies_are_discarded() {
    let w = worker();
    let auth = UpdateAuthorizationState::new(Some(3), AuthorizationState::Ready);
    assert_eq!(
        w.route_event(TdType::Update(Update::AuthorizationState(auth.clone()))),
        RouteAction::ForwardAuthEvent(auth)
    );
    let reply = TdType::Response(rust_tdlib::types::Response {
        td_name: "ok".to_string(),
        extra: "token".to_string(),
    });
    assert_eq!(w.route_event(reply), RouteAction::Discard);
    let unaddressed = TdType::Update(Update::Common(CommonUpdate {
        client_id: None,
        td_name: "updateOption".to_string(),
    }));
    assert_eq!(w.route_event(unaddressed), RouteAction::Discard);
}

#[test]
fn session_without_update_channel_discards_updates() {
    let mut w = worker();
    w.register_client(4, Client::new(params(), false)).unwrap();
    let update = TdType::Update(Update::Common(CommonUpdate {
        client_id: Some(4),
        td_name: "updateNewMessage".to_string(),
    }));
    assert_eq!(w.route_event(update), RouteAction::Discard);
}

#[test]
fn auth_pump_routing_by_registry() {
    let mut w = worker();
    w.register_client(8, Client::new(params(), true)).unwrap();
    let known = UpdateAuthorizationState::new(Some(8), AuthorizationState::Ready);
    let unknown = UpdateAuthorizationState::new(Some(9), AuthorizationState::Ready);
    let unaddressed = UpdateAuthorizationState::new(None, AuthorizationState::Ready);
    assert_eq!(w.auth_event_route(&known), AuthRoute::HandleFor(8));
    assert_eq!(w.auth_event_route(&unknown), AuthRoute::UnknownClient(9));
    assert_eq!(w.auth_event_route(&unaddressed), AuthRoute::NoClientId);
}

#[test]
fn pump_step_decisions() {
    let mut w = worker();
    assert_eq!(w.updates_pump_step(None), PumpStep::Idle);
    let event = TdType::Response(rust_tdlib::types::Response {
        td_name: "ok".to_string(),
        extra: "t".to_string(),
    });
    assert_eq!(
        w.updates_pump_step(Some(Ok(event.clone()))),
        PumpStep::Offer(event)
    );
    assert_eq!(
        w.updates_pump_step(Some(Err(RTDError::SerdeJson("bad".to_string())))),
        PumpStep::Fatal("bad".to_string())
    );
    w.stop();
    assert_eq!(w.updates_pump_step(None), PumpStep::Exit);
}

#[test]
fn run_outcome_maps_task_results_to_terminal_states() {
    assert_eq!(run_outcome(Ok(Ok(()))), ClientState::Closed);
    assert_eq!(
        run_outcome(Ok(Err(RTDError::SendTimeout("channel send timed out".to_string())))),
        ClientState::Error("channel send timed out".to_string())
    );
    assert_eq!(
        run_outcome(Err("task panicked".to_string())),
        ClientState::Error("task panicked".to_string())
    );
}

#[test]
fn send_outcomes_map_to_pump_verdicts() {
    assert!(after_channel_send(SendOutcome::Delivered).is_ok());
    assert_eq!(
        after_channel_send(SendOutcome::TimedOut),
        Err(RTDError::SendTimeout("channel send timed out".to_string()))
    );
    assert_eq!(
        after_channel_send(SendOutcome::ChannelClosed),
        Err(RTDError::SendTimeout("channel closed".to_string()))
    );
}

struct FixedAnswers;

impl AuthStateHandler for FixedAnswers {
    fn handle_other_device_confirmation(
        &self,
        _wait: &AuthorizationStateWaitOtherDeviceConfirmation,
    ) {
    }

    fn handle_wait_code(&self, _wait: &AuthorizationStateWaitCode) -> String {
        "12345".to_string()
    }

    fn handle_encryption_key(&self, _wait: &AuthorizationStateWaitEncryptionKey) -> String {
        "key".to_string()
    }

    fn handle_wait_password(&self, _wait: &AuthorizationStateWaitPassword) -> String {
        "secret".to_string()
    }

    fn handle_wait_phone_number(&self, _wait: &AuthorizationStateWaitPhoneNumber) -> String {
        "+100200300".to_string()
    }

    fn handle_wait_registration(
        &self,
        _wait: &AuthorizationStateWaitRegistration,
    ) -> (String, String) {
        ("Ada".to_string(), "Lovelace".to_string())
    }
}

fn step(state: AuthorizationState) -> Result<rust_tdlib::worker::AuthOutput, RTDError> {
    let mut client = Client::new(params(), true);
    client.set_client_id(1).unwrap();
    handle_auth_state(
        &client,
        &FixedAnswers,
        &UpdateAuthorizationState::new(Some(1), state),
    )
}

#[test]
fn wait_code_produces_check_authentication_code() {
    let out = step(AuthorizationState::WaitCode(AuthorizationStateWaitCode {})).unwrap();
    assert_eq!(out.notify, None);
    assert_eq!(
        out.request,
        Some(Request::CheckAuthenticationCode { code: "12345".to_string() })
    );
}

#[test]
fn wait_encryption_key_produces_check_database_encryption_key() {
    let out = step(AuthorizationState::WaitEncryptionKey(
        AuthorizationStateWaitEncryptionKey {},
    ))
    .unwrap();
    assert_eq!(
        out.request,
        Some(Request::CheckDatabaseEncryptionKey { encryption_key: "key".to_string() })
    );
}

#[test]
fn wait_password_produces_check_authentication_password() {
    let out = step(AuthorizationState::WaitPassword(AuthorizationStateWaitPassword {})).unwrap();
    assert_eq!(
        out.request,
        Some(Request::CheckAuthenticationPassword { password: "secret".to_string() })
    );
}

#[test]
fn wait_phone_number_produces_set_authentication_phone_number() {
    let out = step(AuthorizationState::WaitPhoneNumber(AuthorizationStateWaitPhoneNumber {}))
        .unwrap();
    assert_eq!(
        out.request,
        Some(Request::SetAuthenticationPhoneNumber { phone_number: "+100200300".to_string() })
    );
}

#[test]
fn wait_registration_produces_register_user() {
    let out = step(AuthorizationState::WaitRegistration(AuthorizationStateWaitRegistration {}))
        .unwrap();
    assert_eq!(
        out.request,
        Some(Request::RegisterUser {
            first_name: "Ada".to_string(),
            last_name: "Lovelace".to_string(),
        })
    );
}

#[test]
fn wait_tdlib_parameters_produces_set_tdlib_parameters() {
    let out = step(AuthorizationState::WaitTdlibParameters).unwrap();
    assert_eq!(
        out.request,
        Some(Request::SetTdlibParameters { parameters: params() })
    );
}

#[test]
fn other_device_confirmation_produces_no_request() {
    let out = step(AuthorizationState::WaitOtherDeviceConfirmation(
        AuthorizationStateWaitOtherDeviceConfirmation::new("tg://login".to_string()),
    ))
    .unwrap();
    assert_eq!(out.notify, None);
    assert_eq!(out.request, None);
}

#[test]
fn ready_notifies_opened_and_closed_notifies_closed() {
    let out = step(AuthorizationState::Ready).unwrap();
    assert_eq!(out.notify, Some(ClientState::Opened));
    assert_eq!(out.request, None);
    let out = step(AuthorizationState::Closed).unwrap();
    assert_eq!(out.notify, Some(ClientState::Closed));
    assert_eq!(out.request, None);
}

#[test]
fn transient_states_are_no_ops() {
    for state in [
        AuthorizationState::_Default,
        AuthorizationState::Closing,
        AuthorizationState::LoggingOut,
    ] {
        let out = step(state).unwrap();
        assert_eq!(out.notify, None);
        assert_eq!(out.request, None);
    }
}

#[test]
fn unexpected_state_query_is_an_internal_error() {
    let r = step(AuthorizationState::GetAuthorizationState);
    assert!(matches!(r, Err(RTDError::Internal(_))));
}

#[test]
fn registration_input_is_split_at_first_comma_and_trimmed() {
    assert_eq!(
        parse_registration_input("Ada , Lovelace"),
        Some(("Ada".to_string(), "Lovelace".to_string()))
    );
    assert_eq!(
        parse_registration_input("a,b,c"),
        Some(("a".to_string(), "b,c".to_string()))
    );
    assert_eq!(parse_registration_input("no comma"), None);
    assert_eq!(parse_registration_input(" , name"), None);
    assert_eq!(parse_registration_input("name,  "), None);
    assert_eq!(parse_registration_input(""), None);
}

#[test]
fn builder_carries_timeouts_and_strategy() {
    let w = Worker::builder()
        .with_read_updates_timeout(250)
        .with_channels_send_timeout(125)
        .with_auth_state_handler(FixedAnswers)
        .build()
        .unwrap();
    assert_eq!(w.read_updates_timeout_ms(), 250);
    assert_eq!(w.channels_send_timeout_ms(), 125);
    assert!(!w.should_stop());
    let _ = ConsoleAuthStateHandler::new();
    let defaults = Worker::builder();
    assert_eq!(defaults.read_updates_timeout_ms, 2000);
    assert_eq!(defaults.channels_send_timeout_ms, 5000);
}

#[test]
fn error_messages_are_their_payloads() {
    assert_eq!(RTDError::TdlibError("boom".to_string()).message(), "boom");
    assert_eq!(RTDError::SerdeJson("bad".to_string()).message(), "bad");
}
