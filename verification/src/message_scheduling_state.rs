//! Contains information about the time when a scheduled message will be
//! sent: one of the flat value types exchanged with the engine as JSON.

use vstd::prelude::*;

use crate::errors::{RTDError, RTDResult};
use crate::json::{
    i64_field, json_i64_field, json_parsed, json_str_field, new_uuid_string, parse_value,
    str_field,
};
use crate::types::str_eq;
use crate::wire::{push_escaped, push_i64, spec_escaped, spec_i64_text};

verus! {

/// Marker for the concrete variants of [`MessageSchedulingState`].
pub trait TDMessageSchedulingState {

}

/// How a decoded optional correlation token must relate to the raw document:
/// present exactly where the document holds an `@extra` string.
pub open spec fn spec_extra_matches(v: serde_json::Value, extra: Option<String>) -> bool {
    match json_str_field(v, "@extra"@) {
        None => extra is None,
        Some(e) => extra matches Some(x) && x@ == e,
    }
}

/// The message will be sent at the specified date.
#[derive(Debug, PartialEq)]
pub struct MessageSchedulingStateSendAtDate {
    /// The value's type tag on the wire.
    pub td_name: String,
    /// Correlation token attached when the value travels in a request.
    pub extra: Option<String>,
    /// Date the message will be sent, as a unix time. The date must be
    /// within 367 days in the future.
    pub send_date: i64,
}

impl Clone for MessageSchedulingStateSendAtDate {
    fn clone(&self) -> (r: Self)
        ensures
            r == *self,
    {
        MessageSchedulingStateSendAtDate {
            td_name: self.td_name.clone(),
            extra: match &self.extra {
                Some(e) => Some(e.clone()),
                None => None,
            },
            send_date: self.send_date,
        }
    }
}

impl Default for MessageSchedulingStateSendAtDate {
    fn default() -> (r: Self)
        ensures
            r.td_name@ == Seq::<char>::empty(),
            r.extra is None,
            r.send_date == 0,
    {
        MessageSchedulingStateSendAtDate { td_name: String::new(), extra: None, send_date: 0 }
    }
}

impl TDMessageSchedulingState for MessageSchedulingStateSendAtDate {

}

/// How a decoded send-at-date value must relate to the raw text: the document
/// must hold an `@type` string and a `send_date` integer; the correlation
/// token is optional.
pub open spec fn spec_send_at_date_matches(
    s: Seq<char>,
    r: RTDResult<MessageSchedulingStateSendAtDate>,
) -> bool {
    match json_parsed(s) {
        None => r is Err,
        Some(v) => match json_str_field(v, "@type"@) {
            None => r is Err,
            Some(tag) => match json_i64_field(v, "send_date"@) {
                None => r is Err,
                Some(d) => r matches Ok(m) && m.td_name@ == tag && m.send_date == d
                    && spec_extra_matches(v, m.extra),
            },
        },
    }
}

/// Reads a send-at-date value out of a parsed document.
fn send_at_date_from_value(v: &serde_json::Value) -> (r: RTDResult<MessageSchedulingStateSendAtDate>)
    ensures
        (match json_str_field(*v, "@type"@) {
            None => r is Err,
            Some(tag) => match json_i64_field(*v, "send_date"@) {
                None => r is Err,
                Some(d) => r matches Ok(m) && m.td_name@ == tag && m.send_date == d
                    && spec_extra_matches(*v, m.extra),
            },
        }),
{
    let td_name = match str_field(v, "@type") {
        None => {
            return Err(RTDError::SerdeJson("value without @type".to_owned()));
        },
        Some(tag) => tag,
    };
    let send_date = match i64_field(v, "send_date") {
        None => {
            return Err(RTDError::SerdeJson("value without send_date".to_owned()));
        },
        Some(d) => d,
    };
    let extra = str_field(v, "@extra");
    Ok(MessageSchedulingStateSendAtDate { td_name, extra, send_date })
}

impl MessageSchedulingStateSendAtDate {
    /// Decodes the value from its JSON text.
    pub fn from_json(json: &str) -> (r: RTDResult<Self>)
        ensures
            spec_send_at_date_matches(json@, r),
    {
        match parse_value(json) {
            Err(e) => Err(RTDError::SerdeJson(e)),
            Ok(v) => send_at_date_from_value(&v),
        }
    }

    /// A builder whose value already carries the type tag and a fresh
    /// correlation token.
    pub fn builder() -> (r: RTDMessageSchedulingStateSendAtDateBuilder)
        ensures
            r.inner.td_name@ == "messageSchedulingStateSendAtDate"@,
            r.inner.extra is Some,
            r.inner.send_date == 0,
    {
        let mut inner = MessageSchedulingStateSendAtDate::default();
        inner.td_name = "messageSchedulingStateSendAtDate".to_owned();
        inner.extra = Some(new_uuid_string());
        RTDMessageSchedulingStateSendAtDateBuilder { inner }
    }

    /// Date the message will be sent, as a unix time.
    pub fn send_date(&self) -> (r: i64)
        ensures
            r == self.send_date,
    {
        self.send_date
    }

    /// The value's type tag on the wire.
    pub fn td_name(&self) -> (r: &str)
        ensures
            r@ == "messageSchedulingStateSendAtDate"@,
    {
        "messageSchedulingStateSendAtDate"
    }

    /// The correlation token, when one was attached.
    pub fn extra(&self) -> (r: Option<String>)
        ensures
            r == self.extra,
    {
        match &self.extra {
            Some(e) => Some(e.clone()),
            None => None,
        }
    }

    /// Encodes the value as its JSON text.
    pub fn to_json(&self) -> (r: RTDResult<String>)
        ensures
            r matches Ok(s) && s@ == spec_send_at_date_json(*self),
    {
        let mut out = String::from_str("{\"@type\":\"");
        push_escaped(&mut out, self.td_name.as_str());
        out.append("\",\"@extra\":");
        match &self.extra {
            Some(e) => {
                out.append("\"");
                push_escaped(&mut out, e.as_str());
                out.append("\"");
            },
            None => {
                out.append("null");
            },
        }
        out.append(",\"send_date\":");
        push_i64(&mut out, self.send_date);
        out.append("}");
        proof {
            assert(out@ =~= spec_send_at_date_json(*self));
        }
        Ok(out)
    }
}

/// The JSON text of a send-at-date value: the type tag, the correlation
/// token (`null` where none is attached) and the date, in that order, with
/// the strings escaped.
pub open spec fn spec_send_at_date_json(m: MessageSchedulingStateSendAtDate) -> Seq<char> {
    "{\"@type\":\""@ + spec_escaped(m.td_name@) + "\",\"@extra\":"@ + (match m.extra {
        Some(e) => "\""@ + spec_escaped(e@) + "\""@,
        None => "null"@,
    }) + ",\"send_date\":"@ + spec_i64_text(m.send_date as int) + "}"@
}

/// Builder of [`MessageSchedulingStateSendAtDate`].
#[derive(Debug)]
pub struct RTDMessageSchedulingStateSendAtDateBuilder {
    /// The value under construction.
    pub inner: MessageSchedulingStateSendAtDate,
}

impl RTDMessageSchedulingStateSendAtDateBuilder {
    pub fn build(&self) -> (r: MessageSchedulingStateSendAtDate)
        ensures
            r == self.inner,
    {
        self.inner.clone()
    }

    pub fn send_date(self, send_date: i64) -> (r: Self)
        ensures
            r.inner.send_date == send_date,
            r.inner.td_name == self.inner.td_name,
            r.inner.extra == self.inner.extra,
    {
        RTDMessageSchedulingStateSendAtDateBuilder {
            inner: MessageSchedulingStateSendAtDate { send_date, ..self.inner },
        }
    }
}

/// The message will be sent when the peer will be online. Applicable to
/// private chats only and when the exact online status of the peer is known.
#[derive(Debug, PartialEq)]
pub struct MessageSchedulingStateSendWhenOnline {
    /// The value's type tag on the wire.
    pub td_name: String,
    /// Correlation token attached when the value travels in a request.
    pub extra: Option<String>,
}

impl Clone for MessageSchedulingStateSendWhenOnline {
    fn clone(&self) -> (r: Self)
        ensures
            r == *self,
    {
        MessageSchedulingStateSendWhenOnline {
            td_name: self.td_name.clone(),
            extra: match &self.extra {
                Some(e) => Some(e.clone()),
                None => None,
            },
        }
    }
}

impl Default for MessageSchedulingStateSendWhenOnline {
    fn default() -> (r: Self)
        ensures
            r.td_name@ == Seq::<char>::empty(),
            r.extra is None,
    {
        MessageSchedulingStateSendWhenOnline { td_name: String::new(), extra: None }
    }
}

impl TDMessageSchedulingState for MessageSchedulingStateSendWhenOnline {

}

/// How a decoded send-when-online value must relate to the raw text.
pub open spec fn spec_send_when_online_matches(
    s: Seq<char>,
    r: RTDResult<MessageSchedulingStateSendWhenOnline>,
) -> bool {
    match json_parsed(s) {
        None => r is Err,
        Some(v) => match json_str_field(v, "@type"@) {
            None => r is Err,
            Some(tag) => r matches Ok(m) && m.td_name@ == tag && spec_extra_matches(v, m.extra),
        },
    }
}

impl MessageSchedulingStateSendWhenOnline {
    /// Decodes the value from its JSON text.
    pub fn from_json(json: &str) -> (r: RTDResult<Self>)
        ensures
            spec_send_when_online_matches(json@, r),
    {
        let v = match parse_value(json) {
            Err(e) => {
                return Err(RTDError::SerdeJson(e));
            },
            Ok(v) => v,
        };
        let td_name = match str_field(&v, "@type") {
            None => {
                return Err(RTDError::SerdeJson("value without @type".to_owned()));
            },
            Some(tag) => tag,
        };
        let extra = str_field(&v, "@extra");
        Ok(MessageSchedulingStateSendWhenOnline { td_name, extra })
    }

    /// A builder whose value already carries the type tag and a fresh
    /// correlation token.
    pub fn builder() -> (r: RTDMessageSchedulingStateSendWhenOnlineBuilder)
        ensures
            r.inner.td_name@ == "messageSchedulingStateSendWhenOnline"@,
            r.inner.extra is Some,
    {
        let mut inner = MessageSchedulingStateSendWhenOnline::default();
        inner.td_name = "messageSchedulingStateSendWhenOnline".to_owned();
        inner.extra = Some(new_uuid_string());
        RTDMessageSchedulingStateSendWhenOnlineBuilder { inner }
    }

    /// The value's type tag on the wire.
    pub fn td_name(&self) -> (r: &str)
        ensures
            r@ == "messageSchedulingStateSendWhenOnline"@,
    {
        "messageSchedulingStateSendWhenOnline"
    }

    /// The correlation token, when one was attached.
    pub fn extra(&self) -> (r: Option<String>)
        ensures
            r == self.extra,
    {
        match &self.extra {
            Some(e) => Some(e.clone()),
            None => None,
        }
    }

    /// Encodes the value as its JSON text.
    pub fn to_json(&self) -> (r: RTDResult<String>)
        ensures
            r matches Ok(s) && s@ == spec_send_when_online_json(*self),
    {
        let mut out = String::from_str("{\"@type\":\"");
        push_escaped(&mut out, self.td_name.as_str());
        out.append("\",\"@extra\":");
        match &self.extra {
            Some(e) => {
                out.append("\"");
                push_escaped(&mut out, e.as_str());
                out.append("\"");
            },
            None => {
                out.append("null");
            },
        }
        out.append("}");
        proof {
            assert(out@ =~= spec_send_when_online_json(*self));
        }
        Ok(out)
    }
}

/// The JSON text of a send-when-online value: the type tag and the
/// correlation token (`null` where none is attached), with the strings
/// escaped.
pub open spec fn spec_send_when_online_json(m: MessageSchedulingStateSendWhenOnline) -> Seq<char> {
    "{\"@type\":\""@ + spec_escaped(m.td_name@) + "\",\"@extra\":"@ + (match m.extra {
        Some(e) => "\""@ + spec_escaped(e@) + "\""@,
        None => "null"@,
    }) + "}"@
}

/// Builder of [`MessageSchedulingStateSendWhenOnline`].
#[derive(Debug)]
pub struct RTDMessageSchedulingStateSendWhenOnlineBuilder {
    /// The value under construction.
    pub inner: MessageSchedulingStateSendWhenOnline,
}

impl RTDMessageSchedulingStateSendWhenOnlineBuilder {
    pub fn build(&self) -> (r: MessageSchedulingStateSendWhenOnline)
        ensures
            r == self.inner,
    {
        self.inner.clone()
    }
}

/// Contains information about the time when a scheduled message will be sent.
#[derive(Debug, PartialEq)]
pub enum MessageSchedulingState {
    /// Synthetic uninitialized variant.
    _Default,
    /// The message will be sent at the specified date.
    SendAtDate(MessageSchedulingStateSendAtDate),
    /// The message will be sent when the peer will be online.
    SendWhenOnline(MessageSchedulingStateSendWhenOnline),
}

impl Clone for MessageSchedulingState {
    fn clone(&self) -> (r: Self)
        ensures
            r == *self,
    {
        match self {
            MessageSchedulingState::_Default => MessageSchedulingState::_Default,
            MessageSchedulingState::SendAtDate(t) => MessageSchedulingState::SendAtDate(t.clone()),
            MessageSchedulingState::SendWhenOnline(t) => MessageSchedulingState::SendWhenOnline(
                t.clone(),
            ),
        }
    }
}

impl Default for MessageSchedulingState {
    fn default() -> (r: Self)
        ensures
            r is _Default,
    {
        MessageSchedulingState::_Default
    }
}

/// How a decoded scheduling state must relate to the raw text: the `@type`
/// tag picks the variant; an unknown tag is an error.
pub open spec fn spec_scheduling_state_matches(
    s: Seq<char>,
    r: RTDResult<MessageSchedulingState>,
) -> bool {
    match json_parsed(s) {
        None => r is Err,
        Some(v) => match json_str_field(v, "@type"@) {
            None => r is Err,
            Some(tag) => if tag == "messageSchedulingStateSendAtDate"@ {
                match json_i64_field(v, "send_date"@) {
                    None => r is Err,
                    Some(d) => r matches Ok(MessageSchedulingState::SendAtDate(m)) && m.td_name@
                        == tag && m.send_date == d && spec_extra_matches(v, m.extra),
                }
            } else if tag == "messageSchedulingStateSendWhenOnline"@ {
                r matches Ok(MessageSchedulingState::SendWhenOnline(m)) && m.td_name@ == tag
                    && spec_extra_matches(v, m.extra)
            } else {
                r is Err
            },
        },
    }
}

impl MessageSchedulingState {
    /// Decodes a scheduling state from its JSON text, dispatching on the
    /// `@type` tag.
    pub fn from_json(json: &str) -> (r: RTDResult<Self>)
        ensures
            spec_scheduling_state_matches(json@, r),
    {
        let v = match parse_value(json) {
            Err(e) => {
                return Err(RTDError::SerdeJson(e));
            },
            Ok(v) => v,
        };
        let tag = match str_field(&v, "@type") {
            None => {
                return Err(RTDError::SerdeJson("value without @type".to_owned()));
            },
            Some(tag) => tag,
        };
        if str_eq(tag.as_str(), "messageSchedulingStateSendAtDate") {
            match send_at_date_from_value(&v) {
                Err(e) => Err(e),
                Ok(m) => Ok(MessageSchedulingState::SendAtDate(m)),
            }
        } else if str_eq(tag.as_str(), "messageSchedulingStateSendWhenOnline") {
            let extra = str_field(&v, "@extra");
            Ok(
                MessageSchedulingState::SendWhenOnline(
                    MessageSchedulingStateSendWhenOnline { td_name: tag, extra },
                ),
            )
        } else {
            Err(RTDError::SerdeJson("unknown scheduling state".to_owned()))
        }
    }

    /// Whether this is the synthetic uninitialized variant.
    pub fn _is_default(&self) -> (r: bool)
        ensures
            r == (*self is _Default),
    {
        matches!(self, MessageSchedulingState::_Default)
    }

    /// The value's type tag on the wire; the uninitialized variant has none.
    pub fn td_name(&self) -> (r: &str)
        ensures
            *self is SendAtDate ==> r@ == "messageSchedulingStateSendAtDate"@,
            *self is SendWhenOnline ==> r@ == "messageSchedulingStateSendWhenOnline"@,
            *self is _Default ==> r@ == "-1"@,
    {
        match self {
            MessageSchedulingState::SendAtDate(t) => t.td_name(),
            MessageSchedulingState::SendWhenOnline(t) => t.td_name(),
            MessageSchedulingState::_Default => "-1",
        }
    }

    /// Encodes the state as its JSON text; the synthetic uninitialized
    /// variant encodes as `null`.
    pub fn to_json(&self) -> (r: RTDResult<String>)
        ensures
            (match self {
                MessageSchedulingState::SendAtDate(t) => r matches Ok(s) && s@
                    == spec_send_at_date_json(*t),
                MessageSchedulingState::SendWhenOnline(t) => r matches Ok(s) && s@
                    == spec_send_when_online_json(*t),
                MessageSchedulingState::_Default => r matches Ok(s) && s@ == "null"@,
            }),
    {
        match self {
            MessageSchedulingState::SendAtDate(t) => t.to_json(),
            MessageSchedulingState::SendWhenOnline(t) => t.to_json(),
            MessageSchedulingState::_Default => Ok(String::from_str("null")),
        }
    }

    /// The correlation token of the carried value, when one was attached.
    pub fn extra(&self) -> (r: Option<String>)
        ensures
            (match self {
                MessageSchedulingState::SendAtDate(t) => r == t.extra,
                MessageSchedulingState::SendWhenOnline(t) => r == t.extra,
                MessageSchedulingState::_Default => r is None,
            }),
    {
        match self {
            MessageSchedulingState::SendAtDate(t) => t.extra(),
            MessageSchedulingState::SendWhenOnline(t) => t.extra(),
            MessageSchedulingState::_Default => None,
        }
    }
}

} // verus!
