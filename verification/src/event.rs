//! Events: what the browser reports, as a raw message and as the typed event
//! that the message decodes to.

use vstd::prelude::*;
use vstd::string::*;
use crate::json::{member, parse_value, parsed_members, value_members, Field, FieldView};
use crate::number::{is_float, is_float_text};
use crate::text::str_eq;

verus! {

/// The members of an inbound message.
#[derive(Debug, Clone, Copy, PartialEq, Eq, Structural)]
pub enum WireField {
    Event,
    Id,
    Type,
    Name,
    Value,
    Checked,
}

/// Why an inbound message was rejected.
#[derive(Debug, Clone, Copy, PartialEq, Eq, Structural)]
pub enum DecodeError {
    /// The text is no JSON document.
    Malformed,
    /// A member that the message needs is absent or `null`.
    Missing(WireField),
    /// A member holds a value of the wrong JSON type.
    Invalid(WireField),
    /// The value of a number field does not stand for a number.
    NotANumber,
}

/// The mathematical value of a [`Message`].
pub struct MessageView {
    pub event: Seq<char>,
    pub id: Seq<char>,
    pub type_: Seq<char>,
    pub name: Option<Seq<char>>,
    pub value: Option<Seq<char>>,
    pub checked: Option<bool>,
}

/// An inbound message as it came over the wire: the kind of event, the id and
/// the type of the element that reported it, and the payload that the kind of
/// element sends along.
#[derive(Debug, Clone, PartialEq, Eq)]
pub struct Message {
    pub event: String,
    pub id: String,
    pub type_: String,
    pub name: Option<String>,
    pub value: Option<String>,
    pub checked: Option<bool>,
}

/// The characters of an optional string.
pub open spec fn opt_view(s: Option<String>) -> Option<Seq<char>> {
    match s {
        Some(s) => Some(s@),
        None => None,
    }
}

impl View for Message {
    type V = MessageView;

    open spec fn view(&self) -> MessageView {
        MessageView {
            event: self.event@,
            id: self.id@,
            type_: self.type_@,
            name: opt_view(self.name),
            value: opt_view(self.value),
            checked: self.checked,
        }
    }
}

/// The mathematical value of an [`Event`].
pub enum EventView {
    Click { id: Seq<char> },
    NumberChanged { id: Seq<char>, value: Seq<char> },
    TextChanged { id: Seq<char>, value: Seq<char> },
    RadioChecked { id: Seq<char>, group_name: Seq<char> },
    CheckChanged { id: Seq<char>, checked: bool },
}

/// A user interaction.
#[derive(Debug, Clone, PartialEq, Eq)]
pub enum Event {
    /// A button was clicked.
    Click { id: String },
    /// A number field changed; `value` is the text of a floating-point number.
    NumberChanged { id: String, value: String },
    /// A text field changed.
    TextChanged { id: String, value: String },
    /// A radio button of the group `group_name` was chosen.
    RadioChecked { id: String, group_name: String },
    /// A checkbox was ticked or cleared.
    CheckChanged { id: String, checked: bool },
}

impl View for Event {
    type V = EventView;

    open spec fn view(&self) -> EventView {
        match self {
            Event::Click { id } => EventView::Click { id: id@ },
            Event::NumberChanged { id, value } => EventView::NumberChanged {
                id: id@,
                value: value@,
            },
            Event::TextChanged { id, value } => EventView::TextChanged { id: id@, value: value@ },
            Event::RadioChecked { id, group_name } => EventView::RadioChecked {
                id: id@,
                group_name: group_name@,
            },
            Event::CheckChanged { id, checked } => EventView::CheckChanged {
                id: id@,
                checked: *checked,
            },
        }
    }
}

/// The event that a message decodes to, or the reason why it decodes to none.
/// The rules apply in this order: a button click; a change of a radio button,
/// which needs the group's name; another change of a check, which needs the
/// state; a change of a number field, whose value must stand for a number; a
/// change of any other field.
pub open spec fn decoded(m: MessageView) -> Result<EventView, DecodeError> {
    if m.event == "button-click"@ {
        Ok(EventView::Click { id: m.id })
    } else if m.event == "check-changed"@ {
        if m.type_ == "radio"@ {
            match m.name {
                Some(name) => Ok(EventView::RadioChecked { id: m.id, group_name: name }),
                None => Err(DecodeError::Missing(WireField::Name)),
            }
        } else {
            match m.checked {
                Some(checked) => Ok(EventView::CheckChanged { id: m.id, checked: checked }),
                None => Err(DecodeError::Missing(WireField::Checked)),
            }
        }
    } else {
        match m.value {
            None => Err(DecodeError::Missing(WireField::Value)),
            Some(value) => if m.type_ == "number"@ {
                if is_float_text(value) {
                    Ok(EventView::NumberChanged { id: m.id, value: value })
                } else {
                    Err(DecodeError::NotANumber)
                }
            } else {
                Ok(EventView::TextChanged { id: m.id, value: value })
            },
        }
    }
}

/// The view of the outcome of decoding an event.
pub open spec fn event_result_view(r: Result<Event, DecodeError>) -> Result<
    EventView,
    DecodeError,
> {
    match r {
        Ok(e) => Ok(e@),
        Err(e) => Err(e),
    }
}

/// The view of the outcome of reading a message.
pub open spec fn message_result_view(r: Result<Message, DecodeError>) -> Result<
    MessageView,
    DecodeError,
> {
    match r {
        Ok(m) => Ok(m@),
        Err(e) => Err(e),
    }
}

/// Precedence: a change of a check that a radio button reports never decodes
/// to a changed checkbox, whatever else the message holds; it decodes to the
/// chosen radio button, or fails for want of the group's name.
pub proof fn lemma_radio_takes_precedence(m: MessageView)
    requires
        m.event == "check-changed"@,
        m.type_ == "radio"@,
    ensures
        !(decoded(m) matches Ok(EventView::CheckChanged { .. })),
        decoded(m) == match m.name {
            Some(name) => Ok::<EventView, DecodeError>(
                EventView::RadioChecked { id: m.id, group_name: name },
            ),
            None => Err::<EventView, DecodeError>(DecodeError::Missing(WireField::Name)),
        },
{
    reveal_strlit("check-changed");
    reveal_strlit("button-click");
    assert("check-changed"@.len() != "button-click"@.len());
}

/// Precedence: a button click decodes to a click, whatever else the message
/// holds.
pub proof fn lemma_click_takes_precedence(m: MessageView)
    requires
        m.event == "button-click"@,
    ensures
        decoded(m) == Ok::<EventView, DecodeError>(EventView::Click { id: m.id }),
{
}

/// Strictness: a changed number is reported only with a value that stands for
/// a number, and a value of a number field that stands for none is an error.
pub proof fn lemma_numbers_are_strict(m: MessageView)
    ensures
        decoded(m) matches Ok(EventView::NumberChanged { id, value }) ==> is_float_text(value)
            && m.value == Some(value),
        m.event != "button-click"@ && m.event != "check-changed"@ && m.type_ == "number"@
            && m.value is Some && !is_float_text(m.value->0) ==> decoded(m) == Err::<
            EventView,
            DecodeError,
        >(DecodeError::NotANumber),
{
}

/// Every event carries the id of the element that the message names.
pub proof fn lemma_event_keeps_id(m: MessageView)
    ensures
        match decoded(m) {
            Ok(EventView::Click { id }) => id == m.id,
            Ok(EventView::NumberChanged { id, .. }) => id == m.id,
            Ok(EventView::TextChanged { id, .. }) => id == m.id,
            Ok(EventView::RadioChecked { id, .. }) => id == m.id,
            Ok(EventView::CheckChanged { id, .. }) => id == m.id,
            Err(_) => true,
        },
{
}

impl Message {
    /// Decodes this message to the event it stands for.
    pub fn decode(&self) -> (r: Result<Event, DecodeError>)
        ensures
            event_result_view(r) == decoded(self@),
    {
        if str_eq(self.event.as_str(), "button-click") {
            Ok(Event::Click { id: self.id.clone() })
        } else if str_eq(self.event.as_str(), "check-changed") {
            if str_eq(self.type_.as_str(), "radio") {
                match &self.name {
                    Some(name) => Ok(
                        Event::RadioChecked { id: self.id.clone(), group_name: name.clone() },
                    ),
                    None => Err(DecodeError::Missing(WireField::Name)),
                }
            } else {
                match self.checked {
                    Some(checked) => Ok(
                        Event::CheckChanged { id: self.id.clone(), checked: checked },
                    ),
                    None => Err(DecodeError::Missing(WireField::Checked)),
                }
            }
        } else {
            match &self.value {
                None => Err(DecodeError::Missing(WireField::Value)),
                Some(value) => if str_eq(self.type_.as_str(), "number") {
                    if is_float(value.as_str()) {
                        Ok(Event::NumberChanged { id: self.id.clone(), value: value.clone() })
                    } else {
                        Err(DecodeError::NotANumber)
                    }
                } else {
                    Ok(Event::TextChanged { id: self.id.clone(), value: value.clone() })
                },
            }
        }
    }
}

/// The string that a message must hold under `key`.
pub open spec fn required_text(
    members: Map<Seq<char>, FieldView>,
    key: Seq<char>,
    field: WireField,
) -> Result<Seq<char>, DecodeError> {
    if !members.contains_key(key) {
        Err(DecodeError::Missing(field))
    } else {
        match members[key] {
            FieldView::Str(s) => Ok(s),
            FieldView::Null => Err(DecodeError::Missing(field)),
            _ => Err(DecodeError::Invalid(field)),
        }
    }
}

/// The string that a message may hold under `key`: none where the member is
/// absent or `null`.
pub open spec fn optional_text(
    members: Map<Seq<char>, FieldView>,
    key: Seq<char>,
    field: WireField,
) -> Result<Option<Seq<char>>, DecodeError> {
    if !members.contains_key(key) {
        Ok(None)
    } else {
        match members[key] {
            FieldView::Str(s) => Ok(Some(s)),
            FieldView::Null => Ok(None),
            _ => Err(DecodeError::Invalid(field)),
        }
    }
}

/// The boolean that a message may hold under `key`: none where the member is
/// absent or `null`.
pub open spec fn optional_flag(
    members: Map<Seq<char>, FieldView>,
    key: Seq<char>,
    field: WireField,
) -> Result<Option<bool>, DecodeError> {
    if !members.contains_key(key) {
        Ok(None)
    } else {
        match members[key] {
            FieldView::Bool(b) => Ok(Some(b)),
            FieldView::Null => Ok(None),
            _ => Err(DecodeError::Invalid(field)),
        }
    }
}

/// The message that the members of a JSON object make up. The members `event`,
/// `id` and `type` must hold strings; `name` and `value` may hold a string and
/// `checked` a boolean. The first member at fault, in this order, decides the
/// error. Members of other names are ignored.
pub open spec fn message_of_members(members: Map<Seq<char>, FieldView>) -> Result<
    MessageView,
    DecodeError,
> {
    let event = required_text(members, "event"@, WireField::Event);
    let id = required_text(members, "id"@, WireField::Id);
    let type_ = required_text(members, "type"@, WireField::Type);
    let name = optional_text(members, "name"@, WireField::Name);
    let value = optional_text(members, "value"@, WireField::Value);
    let checked = optional_flag(members, "checked"@, WireField::Checked);
    if event is Err {
        Err(event->Err_0)
    } else if id is Err {
        Err(id->Err_0)
    } else if type_ is Err {
        Err(type_->Err_0)
    } else if name is Err {
        Err(name->Err_0)
    } else if value is Err {
        Err(value->Err_0)
    } else if checked is Err {
        Err(checked->Err_0)
    } else {
        Ok(
            MessageView {
                event: event->Ok_0,
                id: id->Ok_0,
                type_: type_->Ok_0,
                name: name->Ok_0,
                value: value->Ok_0,
                checked: checked->Ok_0,
            },
        )
    }
}

/// The message that a text holds, given what the JSON parser makes of the text.
pub open spec fn message_of(parsed: Option<Map<Seq<char>, FieldView>>) -> Result<
    MessageView,
    DecodeError,
> {
    match parsed {
        None => Err(DecodeError::Malformed),
        Some(members) => message_of_members(members),
    }
}

/// The event that a text holds, given what the JSON parser makes of the text.
pub open spec fn event_of(parsed: Option<Map<Seq<char>, FieldView>>) -> Result<
    EventView,
    DecodeError,
> {
    match message_of(parsed) {
        Ok(m) => decoded(m),
        Err(e) => Err(e),
    }
}

/// Reads the string that a message must hold under `key`.
fn read_required_text(value: &serde_json::Value, key: &str, field: WireField) -> (r: Result<
    String,
    DecodeError,
>)
    ensures
        match r {
            Ok(s) => required_text(value_members(*value), key@, field) == Ok::<
                Seq<char>,
                DecodeError,
            >(s@),
            Err(e) => required_text(value_members(*value), key@, field) == Err::<
                Seq<char>,
                DecodeError,
            >(e),
        },
{
    match member(value, key) {
        None => Err(DecodeError::Missing(field)),
        Some(Field::Str(s)) => Ok(s),
        Some(Field::Null) => Err(DecodeError::Missing(field)),
        Some(_) => Err(DecodeError::Invalid(field)),
    }
}

/// Reads the string that a message may hold under `key`.
fn read_optional_text(value: &serde_json::Value, key: &str, field: WireField) -> (r: Result<
    Option<String>,
    DecodeError,
>)
    ensures
        match r {
            Ok(s) => optional_text(value_members(*value), key@, field) == Ok::<
                Option<Seq<char>>,
                DecodeError,
            >(opt_view(s)),
            Err(e) => optional_text(value_members(*value), key@, field) == Err::<
                Option<Seq<char>>,
                DecodeError,
            >(e),
        },
{
    match member(value, key) {
        None => Ok(None),
        Some(Field::Str(s)) => Ok(Some(s)),
        Some(Field::Null) => Ok(None),
        Some(_) => Err(DecodeError::Invalid(field)),
    }
}

/// Reads the boolean that a message may hold under `key`.
fn read_optional_flag(value: &serde_json::Value, key: &str, field: WireField) -> (r: Result<
    Option<bool>,
    DecodeError,
>)
    ensures
        r == optional_flag(value_members(*value), key@, field),
{
    match member(value, key) {
        None => Ok(None),
        Some(Field::Bool(b)) => Ok(Some(b)),
        Some(Field::Null) => Ok(None),
        Some(_) => Err(DecodeError::Invalid(field)),
    }
}

impl Message {
    /// Reads a message from the text of a JSON object.
    pub fn from_json(text: &str) -> (r: Result<Message, DecodeError>)
        ensures
            message_result_view(r) == message_of(parsed_members(text@)),
    {
        let value = match parse_value(text) {
            Ok(value) => value,
            Err(_) => {
                return Err(DecodeError::Malformed);
            },
        };
        let event = match read_required_text(&value, "event", WireField::Event) {
            Ok(s) => s,
            Err(e) => {
                return Err(e);
            },
        };
        let id = match read_required_text(&value, "id", WireField::Id) {
            Ok(s) => s,
            Err(e) => {
                return Err(e);
            },
        };
        let type_ = match read_required_text(&value, "type", WireField::Type) {
            Ok(s) => s,
            Err(e) => {
                return Err(e);
            },
        };
        let name = match read_optional_text(&value, "name", WireField::Name) {
            Ok(s) => s,
            Err(e) => {
                return Err(e);
            },
        };
        let payload = match read_optional_text(&value, "value", WireField::Value) {
            Ok(s) => s,
            Err(e) => {
                return Err(e);
            },
        };
        let checked = match read_optional_flag(&value, "checked", WireField::Checked) {
            Ok(s) => s,
            Err(e) => {
                return Err(e);
            },
        };
        Ok(
            Message {
                event: event,
                id: id,
                type_: type_,
                name: name,
                value: payload,
                checked: checked,
            },
        )
    }
}

/// Decodes the text of an inbound message to the event it stands for.
pub fn decode_message(text: &str) -> (r: Result<Event, DecodeError>)
    ensures
        event_result_view(r) == event_of(parsed_members(text@)),
{
    match Message::from_json(text) {
        Ok(message) => message.decode(),
        Err(e) => Err(e),
    }
}

} // verus!
