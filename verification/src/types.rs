//! The slice of the engine's data model the runtime reads: session lifecycle
//! states, the authorization handshake steps, and the tagged events the event
//! pump demultiplexes.

use vstd::prelude::*;

use crate::errors::{RTDError, RTDResult};
use crate::json::{
    i64_field, json_i64_field, json_obj_field, json_parsed, json_str_field, obj_field, parse_value,
    str_field,
};

verus! {

/// Identifier the engine assigns to one client session. Process-unique,
/// immutable once assigned, and the sole routing key.
pub type ClientId = i32;

/// Lifecycle state of one logical client session. `Closed` and `Error` are
/// terminal; `Opened` is reached at most once per session.
#[derive(Debug, Clone, PartialEq)]
pub enum ClientState {
    /// The authorization handshake succeeded and the session is usable.
    Opened,
    /// The engine reports the session has fully shut down.
    Closed,
    /// The handshake or a pump failed for the given reason.
    Error(String),
}

impl ClientState {
    /// A session never transitions out of `Closed` or `Error`.
    pub open spec fn is_terminal(self) -> bool {
        !(self is Opened)
    }
}

/// Static handshake configuration a session hands to the engine when the
/// engine asks for its parameters.
#[derive(Debug, PartialEq)]
pub struct TdlibParameters {
    /// Application identifier issued by the engine's operator.
    pub api_id: i32,
    /// Application hash issued together with `api_id`.
    pub api_hash: String,
    /// Directory the engine may use for the session's data.
    pub database_directory: String,
}

impl Clone for TdlibParameters {
    fn clone(&self) -> (r: Self)
        ensures
            r == *self,
    {
        TdlibParameters {
            api_id: self.api_id,
            api_hash: self.api_hash.clone(),
            database_directory: self.database_directory.clone(),
        }
    }
}

/// The engine is waiting for an authentication code.
#[derive(Debug, Clone, PartialEq)]
pub struct AuthorizationStateWaitCode {}

/// The engine is waiting for the local database encryption key.
#[derive(Debug, Clone, PartialEq)]
pub struct AuthorizationStateWaitEncryptionKey {}

/// The engine is waiting for the user to confirm this session from another
/// device through the carried link.
#[derive(Debug, Clone, PartialEq)]
pub struct AuthorizationStateWaitOtherDeviceConfirmation {
    /// The confirmation link to present to the user.
    pub link: String,
}

impl AuthorizationStateWaitOtherDeviceConfirmation {
    pub fn new(link: String) -> (r: Self)
        ensures
            r.link@ == link@,
    {
        AuthorizationStateWaitOtherDeviceConfirmation { link }
    }

    pub fn link(&self) -> (r: &String)
        ensures
            r@ == self.link@,
    {
        &self.link
    }
}

/// The engine is waiting for the account password.
#[derive(Debug, Clone, PartialEq)]
pub struct AuthorizationStateWaitPassword {}

/// The engine is waiting for the account's phone number.
#[derive(Debug, Clone, PartialEq)]
pub struct AuthorizationStateWaitPhoneNumber {}

/// The engine is waiting for the registration data of a new account.
#[derive(Debug, Clone, PartialEq)]
pub struct AuthorizationStateWaitRegistration {}

/// One step of the engine's authorization handshake.
#[derive(Debug, Clone, PartialEq)]
pub enum AuthorizationState {
    /// Synthetic uninitialized step; never acted upon.
    _Default,
    /// The session has fully shut down.
    Closed,
    /// The session is shutting down.
    Closing,
    /// The session is logging out.
    LoggingOut,
    /// The handshake finished; the session is usable.
    Ready,
    /// Waiting for an authentication code.
    WaitCode(AuthorizationStateWaitCode),
    /// Waiting for the database encryption key.
    WaitEncryptionKey(AuthorizationStateWaitEncryptionKey),
    /// Waiting for confirmation from another device.
    WaitOtherDeviceConfirmation(AuthorizationStateWaitOtherDeviceConfirmation),
    /// Waiting for the account password.
    WaitPassword(AuthorizationStateWaitPassword),
    /// Waiting for the account's phone number.
    WaitPhoneNumber(AuthorizationStateWaitPhoneNumber),
    /// Waiting for registration data.
    WaitRegistration(AuthorizationStateWaitRegistration),
    /// The engine asks for the session's static parameters.
    WaitTdlibParameters,
    /// A reply to an explicit state query; it must have been consumed by a
    /// pending caller and never reach the state machine.
    GetAuthorizationState,
}

/// An authorization-state event for one session.
#[derive(Debug, Clone, PartialEq)]
pub struct UpdateAuthorizationState {
    /// The session the event is addressed to, when the engine tagged one.
    pub client_id: Option<ClientId>,
    /// The handshake step the event announces.
    pub authorization_state: AuthorizationState,
}

impl UpdateAuthorizationState {
    pub fn new(client_id: Option<ClientId>, authorization_state: AuthorizationState) -> (r: Self)
        ensures
            r.client_id == client_id,
            r.authorization_state == authorization_state,
    {
        UpdateAuthorizationState { client_id, authorization_state }
    }

    pub fn client_id(&self) -> (r: Option<ClientId>)
        ensures
            r == self.client_id,
    {
        self.client_id
    }

    pub fn authorization_state(&self) -> (r: &AuthorizationState)
        ensures
            r == self.authorization_state,
    {
        &self.authorization_state
    }
}

/// An ordinary per-session update that is not an authorization-state event.
/// The pump reads only its address; the payload is carried through.
#[derive(Debug, Clone, PartialEq)]
pub struct CommonUpdate {
    /// The session the update is addressed to, when the engine tagged one.
    pub client_id: Option<ClientId>,
    /// The event's type tag on the wire.
    pub td_name: String,
}

/// An update event from the engine's stream.
#[derive(Debug, Clone, PartialEq)]
pub enum Update {
    /// An authorization-state event, dispatched to the authorization pump.
    AuthorizationState(UpdateAuthorizationState),
    /// Any other update, dispatched to the addressed session.
    Common(CommonUpdate),
}

impl Update {
    /// The session the update is addressed to.
    pub fn client_id(&self) -> (r: Option<ClientId>)
        ensures
            r == self.spec_client_id(),
    {
        match self {
            Update::AuthorizationState(u) => u.client_id(),
            Update::Common(c) => c.client_id,
        }
    }

    /// The address `client_id` returns.
    pub open spec fn spec_client_id(self) -> Option<ClientId> {
        match self {
            Update::AuthorizationState(u) => u.client_id,
            Update::Common(c) => c.client_id,
        }
    }
}

/// A reply to a pending request, matched to its caller by the correlation
/// token the caller attached.
#[derive(Debug, Clone, PartialEq)]
pub struct Response {
    /// The event's type tag on the wire.
    pub td_name: String,
    /// The correlation token of the request this replies to.
    pub extra: String,
}

/// A decoded event from the engine's stream.
#[derive(Debug, Clone, PartialEq)]
pub enum TdType {
    /// An update, to be routed by the event pump.
    Update(Update),
    /// A reply, to be routed to the pending caller that awaits it.
    Response(Response),
}

/// A request the runtime submits to the engine.
#[derive(Debug, Clone, PartialEq)]
pub enum Request {
    /// Liveness probe issued right after a session is registered.
    GetApplicationConfig,
    /// Continue the handshake with the authentication code the user supplied.
    CheckAuthenticationCode { code: String },
    /// Continue the handshake with the database encryption key.
    CheckDatabaseEncryptionKey { encryption_key: String },
    /// Continue the handshake with the account password.
    CheckAuthenticationPassword { password: String },
    /// Continue the handshake with the account's phone number.
    SetAuthenticationPhoneNumber { phone_number: String },
    /// Continue the handshake by registering a new account.
    RegisterUser { first_name: String, last_name: String },
    /// Continue the handshake with the session's static parameters.
    SetTdlibParameters { parameters: TdlibParameters },
}

/// Compares two strings character by character.
pub fn str_eq(a: &str, b: &str) -> (r: bool)
    ensures
        r == (a@ == b@),
{
    let owned_a = a.to_owned();
    let owned_b = b.to_owned();
    owned_a == owned_b
}

/// The session id a raw event carries: `Some(None)` where the field is
/// absent, `Some(Some(id))` where it holds a representable id, and `None`
/// where it holds an integer no id can hold.
pub open spec fn spec_client_id_field(v: serde_json::Value) -> Option<Option<ClientId>> {
    match json_i64_field(v, "client_id"@) {
        None => Some(None),
        Some(x) => if i32::MIN <= x <= i32::MAX {
            Some(Some(x as ClientId))
        } else {
            None
        },
    }
}

/// How a decoded authorization step must relate to the raw `authorization_state`
/// subdocument it came from.
pub open spec fn spec_auth_state_matches(
    sub: serde_json::Value,
    r: Result<AuthorizationState, RTDError>,
) -> bool {
    match json_str_field(sub, "@type"@) {
        None => r is Err,
        Some(tag) => if tag == "authorizationStateWaitTdlibParameters"@ {
            r == Ok::<AuthorizationState, RTDError>(AuthorizationState::WaitTdlibParameters)
        } else if tag == "authorizationStateWaitEncryptionKey"@ {
            r == Ok::<AuthorizationState, RTDError>(
                AuthorizationState::WaitEncryptionKey(AuthorizationStateWaitEncryptionKey {}),
            )
        } else if tag == "authorizationStateWaitPhoneNumber"@ {
            r == Ok::<AuthorizationState, RTDError>(
                AuthorizationState::WaitPhoneNumber(AuthorizationStateWaitPhoneNumber {}),
            )
        } else if tag == "authorizationStateWaitCode"@ {
            r == Ok::<AuthorizationState, RTDError>(
                AuthorizationState::WaitCode(AuthorizationStateWaitCode {}),
            )
        } else if tag == "authorizationStateWaitOtherDeviceConfirmation"@ {
            match json_str_field(sub, "link"@) {
                None => r is Err,
                Some(link) => r matches Ok(AuthorizationState::WaitOtherDeviceConfirmation(w))
                    && w.link@ == link,
            }
        } else if tag == "authorizationStateWaitPassword"@ {
            r == Ok::<AuthorizationState, RTDError>(
                AuthorizationState::WaitPassword(AuthorizationStateWaitPassword {}),
            )
        } else if tag == "authorizationStateWaitRegistration"@ {
            r == Ok::<AuthorizationState, RTDError>(
                AuthorizationState::WaitRegistration(AuthorizationStateWaitRegistration {}),
            )
        } else if tag == "authorizationStateReady"@ {
            r == Ok::<AuthorizationState, RTDError>(AuthorizationState::Ready)
        } else if tag == "authorizationStateLoggingOut"@ {
            r == Ok::<AuthorizationState, RTDError>(AuthorizationState::LoggingOut)
        } else if tag == "authorizationStateClosing"@ {
            r == Ok::<AuthorizationState, RTDError>(AuthorizationState::Closing)
        } else if tag == "authorizationStateClosed"@ {
            r == Ok::<AuthorizationState, RTDError>(AuthorizationState::Closed)
        } else if tag == "getAuthorizationState"@ {
            r == Ok::<AuthorizationState, RTDError>(AuthorizationState::GetAuthorizationState)
        } else {
            r is Err
        },
    }
}

/// Decodes the `authorization_state` subdocument of an authorization event.
fn auth_state_from_value(sub: &serde_json::Value) -> (r: Result<AuthorizationState, RTDError>)
    ensures
        spec_auth_state_matches(*sub, r),
{
    let tag = match str_field(sub, "@type") {
        None => {
            return Err(RTDError::SerdeJson("authorization state without @type".to_owned()));
        },
        Some(tag) => tag,
    };
    if str_eq(tag.as_str(), "authorizationStateWaitTdlibParameters") {
        Ok(AuthorizationState::WaitTdlibParameters)
    } else if str_eq(tag.as_str(), "authorizationStateWaitEncryptionKey") {
        Ok(AuthorizationState::WaitEncryptionKey(AuthorizationStateWaitEncryptionKey {}))
    } else if str_eq(tag.as_str(), "authorizationStateWaitPhoneNumber") {
        Ok(AuthorizationState::WaitPhoneNumber(AuthorizationStateWaitPhoneNumber {}))
    } else if str_eq(tag.as_str(), "authorizationStateWaitCode") {
        Ok(AuthorizationState::WaitCode(AuthorizationStateWaitCode {}))
    } else if str_eq(tag.as_str(), "authorizationStateWaitOtherDeviceConfirmation") {
        match str_field(sub, "link") {
            None => Err(RTDError::SerdeJson("confirmation state without link".to_owned())),
            Some(link) => Ok(
                AuthorizationState::WaitOtherDeviceConfirmation(
                    AuthorizationStateWaitOtherDeviceConfirmation { link },
                ),
            ),
        }
    } else if str_eq(tag.as_str(), "authorizationStateWaitPassword") {
        Ok(AuthorizationState::WaitPassword(AuthorizationStateWaitPassword {}))
    } else if str_eq(tag.as_str(), "authorizationStateWaitRegistration") {
        Ok(AuthorizationState::WaitRegistration(AuthorizationStateWaitRegistration {}))
    } else if str_eq(tag.as_str(), "authorizationStateReady") {
        Ok(AuthorizationState::Ready)
    } else if str_eq(tag.as_str(), "authorizationStateLoggingOut") {
        Ok(AuthorizationState::LoggingOut)
    } else if str_eq(tag.as_str(), "authorizationStateClosing") {
        Ok(AuthorizationState::Closing)
    } else if str_eq(tag.as_str(), "authorizationStateClosed") {
        Ok(AuthorizationState::Closed)
    } else if str_eq(tag.as_str(), "getAuthorizationState") {
        Ok(AuthorizationState::GetAuthorizationState)
    } else {
        Err(RTDError::SerdeJson("unknown authorization state".to_owned()))
    }
}

/// How a decoded event must relate to the raw text it came from: the decoding
/// is a function of the text alone, spelt out over the parsed document's
/// fields. Text that is not valid JSON, carries no `@type`, names an unknown
/// authorization step, or holds an unrepresentable session id decodes to an
/// error.
pub open spec fn spec_decode_matches(s: Seq<char>, r: RTDResult<TdType>) -> bool {
    match json_parsed(s) {
        None => r is Err,
        Some(v) => match json_str_field(v, "@type"@) {
            None => r is Err,
            Some(tag) => if tag == "updateAuthorizationState"@ {
                match json_obj_field(v, "authorization_state"@) {
                    None => r is Err,
                    Some(sub) => match spec_client_id_field(v) {
                        None => r is Err,
                        Some(client_id) => match r {
                            Err(_) => !(exists|state: AuthorizationState|
                                spec_auth_state_matches(sub, Ok(state))),
                            Ok(event) => event matches TdType::Update(
                                Update::AuthorizationState(u),
                            ) && u.client_id == client_id && spec_auth_state_matches(
                                sub,
                                Ok(u.authorization_state),
                            ),
                        },
                    },
                }
            } else if json_str_field(v, "@extra"@) is Some {
                r matches Ok(TdType::Response(resp)) && resp.td_name@ == tag && Some(resp.extra@)
                    == json_str_field(v, "@extra"@)
            } else {
                match spec_client_id_field(v) {
                    None => r is Err,
                    Some(client_id) => r matches Ok(TdType::Update(Update::Common(c)))
                        && c.td_name@ == tag && c.client_id == client_id,
                }
            },
        },
    }
}

/// Decodes one raw event from the engine's stream into its tagged form.
/// The wire form is flat JSON: an `@type` tag names the event; replies carry
/// the `@extra` correlation token of their request; updates may carry the
/// addressed session under `client_id`; authorization events carry their step
/// under `authorization_state`.
pub fn from_json(s: &str) -> (r: RTDResult<TdType>)
    ensures
        spec_decode_matches(s@, r),
{
    let v = match parse_value(s) {
        Err(e) => {
            return Err(RTDError::SerdeJson(e));
        },
        Ok(v) => v,
    };
    let tag = match str_field(&v, "@type") {
        None => {
            return Err(RTDError::SerdeJson("event without @type".to_owned()));
        },
        Some(tag) => tag,
    };
    if str_eq(tag.as_str(), "updateAuthorizationState") {
        let sub = match obj_field(&v, "authorization_state") {
            None => {
                return Err(
                    RTDError::SerdeJson("authorization event without authorization_state".to_owned()),
                );
            },
            Some(sub) => sub,
        };
        let client_id = match i64_field(&v, "client_id") {
            None => None,
            Some(x) => {
                if x < i32::MIN as i64 || x > i32::MAX as i64 {
                    return Err(RTDError::SerdeJson("client id out of range".to_owned()));
                }
                Some(x as ClientId)
            },
        };
        match auth_state_from_value(&sub) {
            Err(e) => Err(e),
            Ok(state) => Ok(
                TdType::Update(
                    Update::AuthorizationState(
                        UpdateAuthorizationState { client_id, authorization_state: state },
                    ),
                ),
            ),
        }
    } else {
        match str_field(&v, "@extra") {
            Some(extra) => Ok(TdType::Response(Response { td_name: tag, extra })),
            None => {
                let client_id = match i64_field(&v, "client_id") {
                    None => None,
                    Some(x) => {
                        if x < i32::MIN as i64 || x > i32::MAX as i64 {
                            return Err(RTDError::SerdeJson("client id out of range".to_owned()));
                        }
                        Some(x as ClientId)
                    },
                };
                Ok(TdType::Update(Update::Common(CommonUpdate { client_id, td_name: tag })))
            },
        }
    }
}


} // verus!
