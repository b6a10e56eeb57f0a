//! The multi-session worker: the client registry, the decision logic of the
//! two background pumps, the authorization state machine, and the pluggable
//! credential-acquisition strategy.
//!
//! The worker itself is a value: every step of the two pumps is a function
//! from the worker's state and one observed event to the action the pump must
//! take next. The surrounding runtime performs the actions (channel sends,
//! engine requests, task spawns) and feeds the observed results back in.

use vstd::prelude::*;

use std::collections::HashMap;
use std::io::Write;

use crate::errors::{RTDError, RTDResult};
use crate::types::{
    AuthorizationState, AuthorizationStateWaitCode, AuthorizationStateWaitEncryptionKey,
    AuthorizationStateWaitOtherDeviceConfirmation, AuthorizationStateWaitPassword,
    AuthorizationStateWaitPhoneNumber, AuthorizationStateWaitRegistration, ClientId, ClientState,
    CommonUpdate, Request, TdType, TdlibParameters, Update, UpdateAuthorizationState,
};

verus! {

broadcast use vstd::std_specs::hash::group_hash_axioms;

/// Strategy that answers "what value is needed for this authorization
/// wait-step". Each method may block for as long as it takes to acquire the
/// value, for instance on console input.
pub trait AuthStateHandler {
    /// Presents the confirmation link of the carried wait-step to the user.
    fn handle_other_device_confirmation(
        &self,
        wait_device_confirmation: &AuthorizationStateWaitOtherDeviceConfirmation,
    );

    /// Returns the authentication code.
    fn handle_wait_code(&self, wait_code: &AuthorizationStateWaitCode) -> String;

    /// Returns the database encryption key.
    fn handle_encryption_key(
        &self,
        wait_encryption_key: &AuthorizationStateWaitEncryptionKey,
    ) -> String;

    /// Returns the account password.
    fn handle_wait_password(&self, wait_password: &AuthorizationStateWaitPassword) -> String;

    /// Returns the account's phone number.
    fn handle_wait_phone_number(
        &self,
        wait_phone_number: &AuthorizationStateWaitPhoneNumber,
    ) -> String;

    /// Returns the first and the last name for a new account.
    fn handle_wait_registration(
        &self,
        wait_registration: &AuthorizationStateWaitRegistration,
    ) -> (String, String);
}

/// What `str::trim` leaves of a string once leading and trailing whitespace
/// is removed.
pub uninterp spec fn trimmed_of(s: Seq<char>) -> Seq<char>;

/// Relies on `std::io::Stdin::read_line`: one line of console input. Nothing
/// is promised of the value, which depends on what the operator types.
#[verifier::external_body]
fn read_line_stdin() -> (r: String) {
    let mut input = String::new();
    std::io::stdin()
        .read_line(&mut input)
        .expect("can not get input value");
    input
}

/// Relies on `str::trim`: the result is a function of the characters alone.
#[verifier::external_body]
fn trim_string(s: &str) -> (r: String)
    ensures
        r@ == trimmed_of(s@),
{
    s.trim().to_string()
}

/// Relies on `std::io::Stderr` and `io::Write::write_fmt`: prints one line on
/// the standard error stream.
#[verifier::external_body]
fn eprint_line(s: &str) {
    let _ = writeln!(std::io::stderr(), "{}", s);
}

/// Holds exactly when `i` is the position of the first comma of `s`.
pub open spec fn is_first_comma(s: Seq<char>, i: int) -> bool {
    &&& 0 <= i < s.len()
    &&& s[i] == ','
    &&& forall|j: int| 0 <= j < i ==> s[j] != ','
}

/// Splits one line of registration input at its first comma and trims both
/// parts; yields them only when both are non-empty.
pub fn parse_registration_input(input: &str) -> (r: Option<(String, String)>)
    ensures
        match r {
            Some(parts) => exists|i: int|
                {
                    &&& #[trigger] is_first_comma(input@, i)
                    &&& parts.0@ == trimmed_of(input@.subrange(0, i))
                    &&& parts.1@ == trimmed_of(input@.subrange(i + 1, input@.len() as int))
                    &&& parts.0@.len() > 0
                    &&& parts.1@.len() > 0
                },
            None => forall|i: int|
                #[trigger] is_first_comma(input@, i) ==> trimmed_of(input@.subrange(0, i)).len()
                    == 0 || trimmed_of(input@.subrange(i + 1, input@.len() as int)).len() == 0,
        },
{
    let len = input.unicode_len();
    let mut k: usize = 0;
    while k < len
        invariant
            len == input@.len(),
            0 <= k <= len,
            forall|j: int| 0 <= j < k ==> input@[j] != ',',
        decreases len - k,
    {
        if input.get_char(k) == ',' {
            assert(is_first_comma(input@, k as int));
            let first = trim_string(input.substring_char(0, k));
            let second = trim_string(input.substring_char(k + 1, len));
            if !first.as_str().is_empty() && !second.as_str().is_empty() {
                return Some((first, second));
            } else {
                return None;
            }
        }
        k += 1;
    }
    None
}

/// Minimal implementation of [`AuthStateHandler`]: every value is read from
/// console input.
#[derive(Debug, Clone)]
pub struct ConsoleAuthStateHandler;

impl Default for ConsoleAuthStateHandler {
    fn default() -> (r: Self) {
        Self::new()
    }
}

impl ConsoleAuthStateHandler {
    pub fn new() -> Self {
        ConsoleAuthStateHandler
    }

    fn wait_input() -> String {
        let line = read_line_stdin();
        trim_string(line.as_str())
    }
}

impl AuthStateHandler for ConsoleAuthStateHandler {
    fn handle_other_device_confirmation(
        &self,
        wait_device_confirmation: &AuthorizationStateWaitOtherDeviceConfirmation,
    ) {
        let mut message = String::from_str("other device confirmation link: ");
        message.append(wait_device_confirmation.link().as_str());
        eprint_line(message.as_str());
    }

    fn handle_wait_code(&self, _wait_code: &AuthorizationStateWaitCode) -> String {
        eprint_line("wait for auth code");
        ConsoleAuthStateHandler::wait_input()
    }

    fn handle_encryption_key(
        &self,
        _wait_encryption_key: &AuthorizationStateWaitEncryptionKey,
    ) -> String {
        eprint_line("wait for encryption key");
        ConsoleAuthStateHandler::wait_input()
    }

    fn handle_wait_password(&self, _wait_password: &AuthorizationStateWaitPassword) -> String {
        eprint_line("wait for password");
        ConsoleAuthStateHandler::wait_input()
    }

    fn handle_wait_phone_number(
        &self,
        _wait_phone_number: &AuthorizationStateWaitPhoneNumber,
    ) -> String {
        eprint_line("wait for phone number");
        ConsoleAuthStateHandler::wait_input()
    }

    fn handle_wait_registration(
        &self,
        _wait_registration: &AuthorizationStateWaitRegistration,
    ) -> (String, String) {
        let mut attempts: u64 = 0;
        while attempts < u64::MAX
            invariant
                attempts <= u64::MAX,
            decreases u64::MAX - attempts,
        {
            eprint_line("waits for first_name and second_name separated by comma");
            let input = ConsoleAuthStateHandler::wait_input();
            match parse_registration_input(input.as_str()) {
                Some(parts) => {
                    return parts;
                },
                None => {},
            }
            attempts += 1;
        }
        (String::new(), String::new())
    }
}

/// A handle bound to at most one engine session. It carries the session's
/// static handshake configuration and whether a consumer reads its updates.
#[derive(Debug, PartialEq)]
pub struct Client {
    /// The engine-assigned session id; assigned exactly once, on registration.
    pub client_id: Option<ClientId>,
    /// The handshake parameters the engine requires from this session.
    pub tdlib_parameters: TdlibParameters,
    /// Whether the session owns an update-delivery channel that ordinary
    /// updates are forwarded to.
    pub has_updates_sender: bool,
}

impl Client {
    /// A client starts unbound: it receives its id on registration.
    pub fn new(tdlib_parameters: TdlibParameters, has_updates_sender: bool) -> (r: Self)
        ensures
            r.client_id is None,
            r.tdlib_parameters == tdlib_parameters,
            r.has_updates_sender == has_updates_sender,
    {
        Client { client_id: None, tdlib_parameters, has_updates_sender }
    }

    /// The engine-assigned session id, once bound.
    pub fn client_id(&self) -> (r: Option<ClientId>)
        ensures
            r == self.client_id,
    {
        self.client_id
    }

    /// The session's static handshake configuration.
    pub fn tdlib_parameters(&self) -> (r: &TdlibParameters)
        ensures
            r == self.tdlib_parameters,
    {
        &self.tdlib_parameters
    }

    /// Binds the client to its engine session. A client is bound exactly
    /// once: a second assignment is an error and changes nothing.
    pub fn set_client_id(&mut self, client_id: ClientId) -> (r: RTDResult<()>)
        ensures
            old(self).client_id is None ==> r is Ok && *final(self) == (Client {
                client_id: Some(client_id),
                ..*old(self)
            }),
            old(self).client_id is Some ==> (r matches Err(RTDError::Internal(m)) && m@
                == "client id already assigned"@ && *final(self) == *old(self)),
    {
        match self.client_id {
            None => {
                self.client_id = Some(client_id);
                Ok(())
            },
            Some(_) => Err(RTDError::Internal("client id already assigned")),
        }
    }
}

impl Clone for Client {
    fn clone(&self) -> (r: Self)
        ensures
            r == *self,
    {
        Client {
            client_id: self.client_id,
            tdlib_parameters: self.tdlib_parameters.clone(),
            has_updates_sender: self.has_updates_sender,
        }
    }
}

/// Map from session id to registered client. At most one client per id;
/// entries are only ever added, never evicted: callers that need cleanup must
/// do so externally.
#[derive(Debug, Clone)]
pub struct ClientRegistry {
    clients: HashMap<ClientId, Client>,
}

impl View for ClientRegistry {
    type V = Map<ClientId, Client>;

    closed spec fn view(&self) -> Map<ClientId, Client> {
        self.clients@
    }
}

impl ClientRegistry {
    /// An empty registry.
    pub fn new() -> (r: Self)
        ensures
            r@ == Map::<ClientId, Client>::empty(),
    {
        ClientRegistry { clients: HashMap::new() }
    }

    /// Inserts a client under its id. Fails, changing nothing, when the id is
    /// already present: no duplicate insert ever succeeds.
    pub fn register(&mut self, client_id: ClientId, client: Client) -> (r: RTDResult<()>)
        ensures
            old(self)@.contains_key(client_id) ==> (r matches Err(RTDError::Internal(m)) && m@
                == "client id already registered"@ && final(self)@ == old(self)@),
            !old(self)@.contains_key(client_id) ==> r is Ok && final(self)@ == old(self)@.insert(
                client_id,
                client,
            ),
    {
        if self.clients.contains_key(&client_id) {
            Err(RTDError::Internal("client id already registered"))
        } else {
            self.clients.insert(client_id, client);
            Ok(())
        }
    }

    /// Looks a client up by id. Never fails: an unknown id yields `None`,
    /// because events may race registration.
    pub fn lookup(&self, client_id: ClientId) -> (r: Option<&Client>)
        ensures
            match r {
                Some(c) => self@.contains_key(client_id) && *c == self@[client_id],
                None => !self@.contains_key(client_id),
            },
    {
        self.clients.get(&client_id)
    }

    /// The number of registered clients.
    pub fn len(&self) -> (r: usize)
        ensures
            r == self@.len(),
    {
        self.clients.len()
    }
}

/// Answer a credential strategy hands back for one wait-step.
#[derive(Debug, Clone, PartialEq)]
pub enum HandlerAnswer {
    /// The step needs no value (or only presents something to the user).
    NoAnswer,
    /// A single value: code, key, password or phone number.
    Text(String),
    /// First and last name for a new account.
    NamePair(String, String),
}

/// The follow-up request one authorization wait-step demands, given the
/// answer the credential strategy produced for it. Steps that demand no
/// follow-up, and answers of the wrong shape, yield `None`.
pub open spec fn spec_auth_request(
    state: AuthorizationState,
    answer: HandlerAnswer,
    parameters: TdlibParameters,
) -> Option<Request> {
    match state {
        AuthorizationState::WaitCode(_) => match answer {
            HandlerAnswer::Text(code) => Some(Request::CheckAuthenticationCode { code }),
            _ => None,
        },
        AuthorizationState::WaitEncryptionKey(_) => match answer {
            HandlerAnswer::Text(encryption_key) => Some(
                Request::CheckDatabaseEncryptionKey { encryption_key },
            ),
            _ => None,
        },
        AuthorizationState::WaitPassword(_) => match answer {
            HandlerAnswer::Text(password) => Some(Request::CheckAuthenticationPassword { password }),
            _ => None,
        },
        AuthorizationState::WaitPhoneNumber(_) => match answer {
            HandlerAnswer::Text(phone_number) => Some(
                Request::SetAuthenticationPhoneNumber { phone_number },
            ),
            _ => None,
        },
        AuthorizationState::WaitRegistration(_) => match answer {
            HandlerAnswer::NamePair(first_name, last_name) => Some(
                Request::RegisterUser { first_name, last_name },
            ),
            _ => None,
        },
        AuthorizationState::WaitTdlibParameters => Some(Request::SetTdlibParameters { parameters }),
        _ => None,
    }
}

/// The notification one authorization step sends on the session's state
/// channel: `Closed` announces shutdown, `Ready` announces that the session
/// opened; every other step announces nothing.
pub open spec fn spec_auth_notification(state: AuthorizationState) -> Option<ClientState> {
    match state {
        AuthorizationState::Closed => Some(ClientState::Closed),
        AuthorizationState::Ready => Some(ClientState::Opened),
        _ => None,
    }
}

/// Builds the follow-up request of one wait-step from the strategy's answer.
pub fn auth_request_for(
    state: &AuthorizationState,
    answer: HandlerAnswer,
    parameters: &TdlibParameters,
) -> (r: Option<Request>)
    ensures
        r == spec_auth_request(*state, answer, *parameters),
{
    match state {
        AuthorizationState::WaitCode(_) => match answer {
            HandlerAnswer::Text(code) => Some(Request::CheckAuthenticationCode { code }),
            _ => None,
        },
        AuthorizationState::WaitEncryptionKey(_) => match answer {
            HandlerAnswer::Text(encryption_key) => Some(
                Request::CheckDatabaseEncryptionKey { encryption_key },
            ),
            _ => None,
        },
        AuthorizationState::WaitPassword(_) => match answer {
            HandlerAnswer::Text(password) => Some(Request::CheckAuthenticationPassword { password }),
            _ => None,
        },
        AuthorizationState::WaitPhoneNumber(_) => match answer {
            HandlerAnswer::Text(phone_number) => Some(
                Request::SetAuthenticationPhoneNumber { phone_number },
            ),
            _ => None,
        },
        AuthorizationState::WaitRegistration(_) => match answer {
            HandlerAnswer::NamePair(first_name, last_name) => Some(
                Request::RegisterUser { first_name, last_name },
            ),
            _ => None,
        },
        AuthorizationState::WaitTdlibParameters => Some(
            Request::SetTdlibParameters { parameters: parameters.clone() },
        ),
        _ => None,
    }
}

/// What one authorization step asks of the worker: a notification on the
/// session's state channel, a follow-up request to the engine, or both.
#[derive(Debug, Clone, PartialEq)]
pub struct AuthOutput {
    /// Notification for the session's state channel.
    pub notify: Option<ClientState>,
    /// Follow-up request for the engine, sent through the session.
    pub request: Option<Request>,
}

/// Runs one step of the authorization state machine: dispatches on the
/// announced handshake step, asks the strategy for whatever value the step
/// needs, and returns what must be sent where. Fails only on a state-query
/// reply that no pending caller consumed, which is a protocol violation.
pub fn handle_auth_state<A: AuthStateHandler>(
    client: &Client,
    auth_state_handler: &A,
    state: &UpdateAuthorizationState,
) -> (r: RTDResult<AuthOutput>)
    ensures
        r is Err <==> state.authorization_state is GetAuthorizationState,
        (r matches Err(e) ==> (e matches RTDError::Internal(m) && m@
            == "retrieved GetAuthorizationState update but observer not found any subscriber"@)),
        r matches Ok(out) ==> {
            &&& out.notify == spec_auth_notification(state.authorization_state)
            &&& match state.authorization_state {
                AuthorizationState::WaitCode(_) => out.request matches Some(
                    Request::CheckAuthenticationCode { .. },
                ),
                AuthorizationState::WaitEncryptionKey(_) => out.request matches Some(
                    Request::CheckDatabaseEncryptionKey { .. },
                ),
                AuthorizationState::WaitPassword(_) => out.request matches Some(
                    Request::CheckAuthenticationPassword { .. },
                ),
                AuthorizationState::WaitPhoneNumber(_) => out.request matches Some(
                    Request::SetAuthenticationPhoneNumber { .. },
                ),
                AuthorizationState::WaitRegistration(_) => out.request matches Some(
                    Request::RegisterUser { .. },
                ),
                AuthorizationState::WaitTdlibParameters => out.request == Some(
                    Request::SetTdlibParameters { parameters: client.tdlib_parameters },
                ),
                _ => out.request is None,
            }
        },
{
    match state.authorization_state() {
        AuthorizationState::_Default => Ok(AuthOutput { notify: None, request: None }),
        AuthorizationState::Closed => Ok(
            AuthOutput { notify: Some(ClientState::Closed), request: None },
        ),
        AuthorizationState::Closing => Ok(AuthOutput { notify: None, request: None }),
        AuthorizationState::LoggingOut => Ok(AuthOutput { notify: None, request: None }),
        AuthorizationState::Ready => Ok(
            AuthOutput { notify: Some(ClientState::Opened), request: None },
        ),
        AuthorizationState::WaitCode(wait_code) => {
            let code = auth_state_handler.handle_wait_code(wait_code);
            let request = auth_request_for(
                state.authorization_state(),
                HandlerAnswer::Text(code),
                client.tdlib_parameters(),
            );
            Ok(AuthOutput { notify: None, request })
        },
        AuthorizationState::WaitEncryptionKey(wait_encryption_key) => {
            let key = auth_state_handler.handle_encryption_key(wait_encryption_key);
            let request = auth_request_for(
                state.authorization_state(),
                HandlerAnswer::Text(key),
                client.tdlib_parameters(),
            );
            Ok(AuthOutput { notify: None, request })
        },
        AuthorizationState::WaitOtherDeviceConfirmation(wait_device_confirmation) => {
            auth_state_handler.handle_other_device_confirmation(wait_device_confirmation);
            Ok(AuthOutput { notify: None, request: None })
        },
        AuthorizationState::WaitPassword(wait_password) => {
            let password = auth_state_handler.handle_wait_password(wait_password);
            let request = auth_request_for(
                state.authorization_state(),
                HandlerAnswer::Text(password),
                client.tdlib_parameters(),
            );
            Ok(AuthOutput { notify: None, request })
        },
        AuthorizationState::WaitPhoneNumber(wait_phone_number) => {
            let phone_number = auth_state_handler.handle_wait_phone_number(wait_phone_number);
            let request = auth_request_for(
                state.authorization_state(),
                HandlerAnswer::Text(phone_number),
                client.tdlib_parameters(),
            );
            Ok(AuthOutput { notify: None, request })
        },
        AuthorizationState::WaitRegistration(wait_registration) => {
            let names = auth_state_handler.handle_wait_registration(wait_registration);
            let request = auth_request_for(
                state.authorization_state(),
                HandlerAnswer::NamePair(names.0, names.1),
                client.tdlib_parameters(),
            );
            Ok(AuthOutput { notify: None, request })
        },
        AuthorizationState::WaitTdlibParameters => {
            let request = auth_request_for(
                state.authorization_state(),
                HandlerAnswer::NoAnswer,
                client.tdlib_parameters(),
            );
            Ok(AuthOutput { notify: None, request })
        },
        AuthorizationState::GetAuthorizationState => Err(
            RTDError::Internal(
                "retrieved GetAuthorizationState update but observer not found any subscriber",
            ),
        ),
    }
}

/// Where the event pump sends one decoded event that no pending caller
/// consumed.
#[derive(Debug, Clone, PartialEq)]
pub enum RouteAction {
    /// An authorization-state event: forward on the authorization channel.
    ForwardAuthEvent(UpdateAuthorizationState),
    /// An ordinary update for a registered session that reads updates:
    /// forward on that session's update channel.
    ForwardUpdate(ClientId, Update),
    /// An update addressed to an id the registry does not hold: log and drop.
    DropUnknownClient(ClientId),
    /// Nothing to deliver: a reply, an unaddressed update, or a session that
    /// reads no updates.
    Discard,
}

/// Where one decoded event goes, given the registered clients.
pub open spec fn spec_route(clients: Map<ClientId, Client>, event: TdType) -> RouteAction {
    match event {
        TdType::Update(Update::AuthorizationState(u)) => RouteAction::ForwardAuthEvent(u),
        TdType::Update(Update::Common(c)) => match c.client_id {
            Some(client_id) => if !clients.contains_key(client_id) {
                RouteAction::DropUnknownClient(client_id)
            } else if clients[client_id].has_updates_sender {
                RouteAction::ForwardUpdate(client_id, Update::Common(c))
            } else {
                RouteAction::Discard
            },
            None => RouteAction::Discard,
        },
        TdType::Response(_) => RouteAction::Discard,
    }
}

/// Which pump handles one authorization-state event.
#[derive(Debug, Clone, PartialEq)]
pub enum AuthRoute {
    /// The addressed session is registered: run the state machine for it.
    HandleFor(ClientId),
    /// The addressed id is not registered: log and drop.
    UnknownClient(ClientId),
    /// The event carries no session id: drop.
    NoClientId,
}

/// How the authorization pump dispatches one event, given the registered
/// clients.
pub open spec fn spec_auth_route(
    clients: Map<ClientId, Client>,
    event: UpdateAuthorizationState,
) -> AuthRoute {
    match event.client_id {
        Some(client_id) => if clients.contains_key(client_id) {
            AuthRoute::HandleFor(client_id)
        } else {
            AuthRoute::UnknownClient(client_id)
        },
        None => AuthRoute::NoClientId,
    }
}

/// One decision of the event pump's loop.
#[derive(Debug, Clone, PartialEq)]
pub enum PumpStep {
    /// The stop flag was observed: leave the loop normally.
    Exit,
    /// Nothing arrived within the receive timeout: poll again.
    Idle,
    /// The stream is corrupt: abort the pump and fail its task.
    Fatal(String),
    /// A decoded event: offer it to the correlation registry, then route
    /// whatever comes back.
    Offer(TdType),
}

/// The outcome of a bounded channel send.
#[derive(Debug, Clone, PartialEq)]
pub enum SendOutcome {
    /// The value was accepted within the timeout.
    Delivered,
    /// The timeout expired first.
    TimedOut,
    /// The receiving half is gone.
    ChannelClosed,
}

/// Turns the outcome of a bounded send into the pump's next move: a send
/// that could not complete is a hard failure of the owning pump, never a
/// dropped event.
pub fn after_channel_send(outcome: SendOutcome) -> (r: RTDResult<()>)
    ensures
        r is Ok <==> outcome is Delivered,
        (match outcome {
            SendOutcome::Delivered => r is Ok,
            SendOutcome::TimedOut => r matches Err(RTDError::SendTimeout(m)) && m@
                == "channel send timed out"@,
            SendOutcome::ChannelClosed => r matches Err(RTDError::SendTimeout(m)) && m@
                == "channel closed"@,
        }),
{
    match outcome {
        SendOutcome::Delivered => Ok(()),
        SendOutcome::TimedOut => Err(RTDError::SendTimeout("channel send timed out".to_owned())),
        SendOutcome::ChannelClosed => Err(RTDError::SendTimeout("channel closed".to_owned())),
    }
}

/// The first message a registering caller takes from the session's state
/// channel decides how registration ends.
#[derive(Debug, Clone, PartialEq)]
pub enum FirstAuthWait {
    /// The engine closed the session before it opened: registration succeeds
    /// with an already-resolved `Closed` outcome and waits for nothing more.
    AlreadyClosed,
    /// The handshake failed: registration fails with the carried reason.
    Failed(String),
    /// The session opened (or the channel yielded nothing): registration
    /// succeeds and a detached monitor owns the rest of the channel.
    Proceed,
}

/// Decides registration from the first state-channel message.
pub fn first_auth_outcome(msg: Option<ClientState>) -> (r: FirstAuthWait)
    ensures
        msg == Some(ClientState::Closed) ==> r == FirstAuthWait::AlreadyClosed,
        msg matches Some(ClientState::Error(e)) ==> r == FirstAuthWait::Failed(e),
        msg == Some(ClientState::Opened) ==> r == FirstAuthWait::Proceed,
        msg is None ==> r == FirstAuthWait::Proceed,
{
    match msg {
        Some(ClientState::Closed) => FirstAuthWait::AlreadyClosed,
        Some(ClientState::Error(e)) => FirstAuthWait::Failed(e),
        Some(ClientState::Opened) => FirstAuthWait::Proceed,
        None => FirstAuthWait::Proceed,
    }
}

/// Decides a session's terminal state from the second state-channel message,
/// which the detached monitor awaits: a second `Opened` is a protocol
/// violation, a closed channel means the state can never be learnt, and
/// anything else is the terminal state itself.
pub fn terminal_outcome(next: Option<ClientState>) -> (r: ClientState)
    ensures
        (match next {
            Some(ClientState::Opened) => r matches ClientState::Error(m) && m@
                == "received Opened state again"@,
            Some(state) => r == state,
            None => r matches ClientState::Error(m) && m@ == "auth state channel closed"@,
        }),
        r.is_terminal(),
{
    match next {
        Some(ClientState::Opened) => ClientState::Error(
            "received Opened state again".to_owned(),
        ),
        Some(state) => state,
        None => ClientState::Error("auth state channel closed".to_owned()),
    }
}

/// Maps the first finished pump task to the worker's terminal state: a pump
/// that left its loop normally means the worker closed; a pump that failed
/// (or whose task was torn down) ends the run with that error.
pub fn run_outcome(result: Result<RTDResult<()>, String>) -> (r: ClientState)
    ensures
        (match result {
            Ok(Ok(_)) => r == ClientState::Closed,
            Ok(Err(e)) => r matches ClientState::Error(m) && m@ == e.spec_message(),
            Err(join_error) => r matches ClientState::Error(m) && m@ == join_error@,
        }),
        r.is_terminal(),
{
    match result {
        Ok(Ok(_)) => ClientState::Closed,
        Ok(Err(e)) => ClientState::Error(e.message()),
        Err(join_error) => ClientState::Error(join_error),
    }
}

/// Builder of a [`Worker`]. The timeouts are in milliseconds.
#[derive(Debug, Clone)]
pub struct WorkerBuilder<A: AuthStateHandler> {
    /// How long one blocking receive from the engine may wait.
    pub read_updates_timeout_ms: u64,
    /// How long one bounded channel send may wait.
    pub channels_send_timeout_ms: u64,
    /// The credential-acquisition strategy of the worker.
    pub auth_state_handler: A,
}

impl Default for WorkerBuilder<ConsoleAuthStateHandler> {
    /// The default strategy reads from the console; receives wait two
    /// seconds, sends five.
    fn default() -> (r: Self)
        ensures
            r.read_updates_timeout_ms == 2000,
            r.channels_send_timeout_ms == 5000,
    {
        WorkerBuilder {
            read_updates_timeout_ms: 2000,
            channels_send_timeout_ms: 5000,
            auth_state_handler: ConsoleAuthStateHandler::new(),
        }
    }
}

impl<A: AuthStateHandler> WorkerBuilder<A> {
    pub fn with_channels_send_timeout(self, timeout_ms: u64) -> (r: Self)
        ensures
            r.channels_send_timeout_ms == timeout_ms,
            r.read_updates_timeout_ms == self.read_updates_timeout_ms,
            r.auth_state_handler == self.auth_state_handler,
    {
        WorkerBuilder { channels_send_timeout_ms: timeout_ms, ..self }
    }

    pub fn with_read_updates_timeout(self, read_updates_timeout_ms: u64) -> (r: Self)
        ensures
            r.read_updates_timeout_ms == read_updates_timeout_ms,
            r.channels_send_timeout_ms == self.channels_send_timeout_ms,
            r.auth_state_handler == self.auth_state_handler,
    {
        WorkerBuilder { read_updates_timeout_ms, ..self }
    }

    /// Swaps the credential-acquisition strategy.
    pub fn with_auth_state_handler<N: AuthStateHandler>(self, auth_state_handler: N) -> (r:
        WorkerBuilder<N>)
        ensures
            r.auth_state_handler == auth_state_handler,
            r.read_updates_timeout_ms == self.read_updates_timeout_ms,
            r.channels_send_timeout_ms == self.channels_send_timeout_ms,
    {
        WorkerBuilder {
            auth_state_handler,
            read_updates_timeout_ms: self.read_updates_timeout_ms,
            channels_send_timeout_ms: self.channels_send_timeout_ms,
        }
    }

    pub fn build(self) -> (r: RTDResult<Worker<A>>)
        ensures
            r matches Ok(w) ==> {
                &&& w.spec_read_updates_timeout_ms() == self.read_updates_timeout_ms
                &&& w.spec_channels_send_timeout_ms() == self.channels_send_timeout_ms
                &&& w.spec_auth_state_handler() == self.auth_state_handler
                &&& w.spec_clients() == Map::<ClientId, Client>::empty()
                &&& !w.spec_stopped()
            },
            r is Ok,
    {
        Ok(
            Worker::new(
                self.auth_state_handler,
                self.read_updates_timeout_ms,
                self.channels_send_timeout_ms,
            ),
        )
    }
}

/// The multi-session worker: owns the client registry, the stop flag and the
/// credential strategy, and decides every step the two pumps take.
#[derive(Debug, Clone)]
pub struct Worker<A: AuthStateHandler> {
    stop_flag: bool,
    auth_state_handler: A,
    read_updates_timeout_ms: u64,
    channels_send_timeout_ms: u64,
    clients: ClientRegistry,
}

impl Worker<ConsoleAuthStateHandler> {
    pub fn builder() -> (r: WorkerBuilder<ConsoleAuthStateHandler>)
        ensures
            r.read_updates_timeout_ms == 2000,
            r.channels_send_timeout_ms == 5000,
    {
        WorkerBuilder::default()
    }
}

impl<A: AuthStateHandler> Worker<A> {
    /// The registered clients, by session id.
    pub closed spec fn spec_clients(self) -> Map<ClientId, Client> {
        self.clients@
    }

    /// Whether a stop was requested.
    pub closed spec fn spec_stopped(self) -> bool {
        self.stop_flag
    }

    /// The receive timeout, in milliseconds.
    pub closed spec fn spec_read_updates_timeout_ms(self) -> u64 {
        self.read_updates_timeout_ms
    }

    /// The send timeout, in milliseconds.
    pub closed spec fn spec_channels_send_timeout_ms(self) -> u64 {
        self.channels_send_timeout_ms
    }

    /// The credential-acquisition strategy.
    pub closed spec fn spec_auth_state_handler(self) -> A {
        self.auth_state_handler
    }

    /// A worker is created only through its builder.
    pub(crate) fn new(
        auth_state_handler: A,
        read_updates_timeout_ms: u64,
        channels_send_timeout_ms: u64,
    ) -> (r: Self)
        ensures
            r.spec_read_updates_timeout_ms() == read_updates_timeout_ms,
            r.spec_channels_send_timeout_ms() == channels_send_timeout_ms,
            r.spec_auth_state_handler() == auth_state_handler,
            r.spec_clients() == Map::<ClientId, Client>::empty(),
            !r.spec_stopped(),
    {
        Worker {
            stop_flag: false,
            auth_state_handler,
            read_updates_timeout_ms,
            channels_send_timeout_ms,
            clients: ClientRegistry::new(),
        }
    }

    /// The receive timeout, in milliseconds.
    pub fn read_updates_timeout_ms(&self) -> (r: u64)
        ensures
            r == self.spec_read_updates_timeout_ms(),
    {
        self.read_updates_timeout_ms
    }

    /// The send timeout, in milliseconds.
    pub fn channels_send_timeout_ms(&self) -> (r: u64)
        ensures
            r == self.spec_channels_send_timeout_ms(),
    {
        self.channels_send_timeout_ms
    }

    /// The credential-acquisition strategy.
    pub fn auth_state_handler(&self) -> (r: &A)
        ensures
            *r == self.spec_auth_state_handler(),
    {
        &self.auth_state_handler
    }

    /// Requests a cooperative stop: the event pump observes the flag at the
    /// top of its next iteration. Nothing else changes.
    pub fn stop(&mut self)
        ensures
            final(self).spec_stopped(),
            final(self).spec_clients() == old(self).spec_clients(),
            final(self).spec_read_updates_timeout_ms() == old(self).spec_read_updates_timeout_ms(),
            final(self).spec_channels_send_timeout_ms() == old(
                self,
            ).spec_channels_send_timeout_ms(),
            final(self).spec_auth_state_handler() == old(self).spec_auth_state_handler(),
    {
        self.stop_flag = true;
    }

    /// Whether a stop was requested.
    pub fn should_stop(&self) -> (r: bool)
        ensures
            r == self.spec_stopped(),
    {
        self.stop_flag
    }

    /// Binds a fresh engine-assigned session id to an unbound client and
    /// inserts the bound client into the registry. Fails, changing nothing,
    /// when the client is already bound or the id is already registered.
    pub fn register_client(&mut self, client_id: ClientId, client: Client) -> (r: RTDResult<
        Client,
    >)
        ensures
            final(self).spec_stopped() == old(self).spec_stopped(),
            final(self).spec_read_updates_timeout_ms() == old(self).spec_read_updates_timeout_ms(),
            final(self).spec_channels_send_timeout_ms() == old(
                self,
            ).spec_channels_send_timeout_ms(),
            final(self).spec_auth_state_handler() == old(self).spec_auth_state_handler(),
            client.client_id is Some ==> (r matches Err(RTDError::Internal(m)) && m@
                == "client id already assigned"@ && final(self).spec_clients() == old(
                self,
            ).spec_clients()),
            client.client_id is None && old(self).spec_clients().contains_key(client_id) ==> (r
                matches Err(RTDError::Internal(m)) && m@ == "client id already registered"@
                && final(self).spec_clients() == old(self).spec_clients()),
            client.client_id is None && !old(self).spec_clients().contains_key(client_id) ==> {
                let bound = Client { client_id: Some(client_id), ..client };
                &&& r == Ok::<Client, RTDError>(bound)
                &&& final(self).spec_clients() == old(self).spec_clients().insert(client_id, bound)
            },
    {
        let mut client = client;
        match client.set_client_id(client_id) {
            Err(e) => Err(e),
            Ok(_) => match self.clients.register(client_id, client.clone()) {
                Err(e) => Err(e),
                Ok(_) => Ok(client),
            },
        }
    }

    /// Looks a registered client up by session id.
    pub fn lookup_client(&self, client_id: ClientId) -> (r: Option<&Client>)
        ensures
            match r {
                Some(c) => self.spec_clients().contains_key(client_id) && *c
                    == self.spec_clients()[client_id],
                None => !self.spec_clients().contains_key(client_id),
            },
    {
        self.clients.lookup(client_id)
    }

    /// One decision of the event pump's loop: leave once a stop was
    /// requested; poll again when nothing arrived; fail the pump on a corrupt
    /// event; otherwise offer the decoded event to the correlation registry.
    pub fn updates_pump_step(&self, received: Option<RTDResult<TdType>>) -> (r: PumpStep)
        ensures
            self.spec_stopped() ==> r == PumpStep::Exit,
            !self.spec_stopped() ==> (match received {
                None => r == PumpStep::Idle,
                Some(Ok(event)) => r == PumpStep::Offer(event),
                Some(Err(e)) => r matches PumpStep::Fatal(m) && m@ == e.spec_message(),
            }),
    {
        if self.stop_flag {
            PumpStep::Exit
        } else {
            match received {
                None => PumpStep::Idle,
                Some(Ok(event)) => PumpStep::Offer(event),
                Some(Err(e)) => PumpStep::Fatal(e.message()),
            }
        }
    }

    /// Routes one decoded event that no pending caller consumed:
    /// authorization-state events go to the authorization channel, addressed
    /// updates to the addressed session's update channel, updates for an
    /// unknown id are dropped, and everything else is discarded.
    pub fn route_event(&self, event: TdType) -> (r: RouteAction)
        ensures
            r == spec_route(self.spec_clients(), event),
    {
        match event {
            TdType::Update(Update::AuthorizationState(u)) => RouteAction::ForwardAuthEvent(u),
            TdType::Update(Update::Common(c)) => match c.client_id {
                Some(client_id) => match self.clients.lookup(client_id) {
                    None => RouteAction::DropUnknownClient(client_id),
                    Some(client) => if client.has_updates_sender {
                        RouteAction::ForwardUpdate(client_id, Update::Common(c))
                    } else {
                        RouteAction::Discard
                    },
                },
                None => RouteAction::Discard,
            },
            TdType::Response(_) => RouteAction::Discard,
        }
    }

    /// Dispatches one authorization-state event: events for a registered
    /// session run the state machine, events for an unknown or missing id are
    /// dropped.
    pub fn auth_event_route(&self, event: &UpdateAuthorizationState) -> (r: AuthRoute)
        ensures
            r == spec_auth_route(self.spec_clients(), *event),
    {
        match event.client_id() {
            Some(client_id) => match self.clients.lookup(client_id) {
                Some(_) => AuthRoute::HandleFor(client_id),
                None => AuthRoute::UnknownClient(client_id),
            },
            None => AuthRoute::NoClientId,
        }
    }
}

/// Law: each session id maps to exactly one client. Registering a fresh id
/// adds exactly that binding and touches no other id, so no sequence of
/// registrations ever yields two clients under one id.
pub proof fn lemma_registry_maps_id_to_one_client(
    clients: Map<ClientId, Client>,
    client_id: ClientId,
    client: Client,
)
    requires
        !clients.contains_key(client_id),
    ensures
        clients.insert(client_id, client)[client_id] == client,
        clients.insert(client_id, client).contains_key(client_id),
        forall|other: ClientId|
            other != client_id ==> (#[trigger] clients.insert(client_id, client).contains_key(
                other,
            ) <==> clients.contains_key(other)),
        forall|other: ClientId|
            other != client_id && clients.contains_key(other) ==> #[trigger] clients.insert(
                client_id,
                client,
            )[other] == clients[other],
{
}

/// Law: an update addressed to an id the registry never held is dropped, and
/// routing of updates addressed to registered sessions does not depend on it:
/// delivery to valid sessions is unaffected.
pub proof fn lemma_unknown_id_dropped_without_interference(
    clients: Map<ClientId, Client>,
    unknown: ClientId,
    update: CommonUpdate,
)
    requires
        !clients.contains_key(unknown),
        update.client_id == Some(unknown),
    ensures
        spec_route(clients, TdType::Update(Update::Common(update)))
            == RouteAction::DropUnknownClient(unknown),
        forall|other: CommonUpdate|
            (match other.client_id {
                Some(other_id) => clients.contains_key(other_id)
                    && clients[other_id].has_updates_sender ==> #[trigger] spec_route(
                    clients,
                    TdType::Update(Update::Common(other)),
                ) == RouteAction::ForwardUpdate(other_id, Update::Common(other)),
                None => true,
            }),
{
}

/// Law: each authorization wait-step, fed the strategy's answer, produces
/// exactly the documented follow-up request, carrying that answer; the
/// remaining steps produce none.
pub proof fn lemma_wait_step_follow_up_requests(
    code: String,
    key: String,
    password: String,
    phone_number: String,
    first_name: String,
    last_name: String,
    wait_device_confirmation: AuthorizationStateWaitOtherDeviceConfirmation,
    parameters: TdlibParameters,
)
    ensures
        spec_auth_request(
            AuthorizationState::WaitCode(AuthorizationStateWaitCode {}),
            HandlerAnswer::Text(code),
            parameters,
        ) == Some(Request::CheckAuthenticationCode { code }),
        spec_auth_request(
            AuthorizationState::WaitEncryptionKey(AuthorizationStateWaitEncryptionKey {}),
            HandlerAnswer::Text(key),
            parameters,
        ) == Some(Request::CheckDatabaseEncryptionKey { encryption_key: key }),
        spec_auth_request(
            AuthorizationState::WaitPassword(AuthorizationStateWaitPassword {}),
            HandlerAnswer::Text(password),
            parameters,
        ) == Some(Request::CheckAuthenticationPassword { password }),
        spec_auth_request(
            AuthorizationState::WaitPhoneNumber(AuthorizationStateWaitPhoneNumber {}),
            HandlerAnswer::Text(phone_number),
            parameters,
        ) == Some(Request::SetAuthenticationPhoneNumber { phone_number }),
        spec_auth_request(
            AuthorizationState::WaitRegistration(AuthorizationStateWaitRegistration {}),
            HandlerAnswer::NamePair(first_name, last_name),
            parameters,
        ) == Some(Request::RegisterUser { first_name, last_name }),
        spec_auth_request(
            AuthorizationState::WaitTdlibParameters,
            HandlerAnswer::NoAnswer,
            parameters,
        ) == Some(Request::SetTdlibParameters { parameters }),
        forall|answer: HandlerAnswer|
            spec_auth_request(AuthorizationState::Ready, answer, parameters) is None
                && spec_auth_request(AuthorizationState::Closed, answer, parameters) is None
                && spec_auth_request(AuthorizationState::Closing, answer, parameters) is None
                && spec_auth_request(AuthorizationState::LoggingOut, answer, parameters) is None
                && spec_auth_request(AuthorizationState::_Default, answer, parameters) is None
                && spec_auth_request(
                AuthorizationState::WaitOtherDeviceConfirmation(wait_device_confirmation),
                answer,
                parameters,
            ) is None,
{
}

} // verus!
