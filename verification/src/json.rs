//! JSON as the wire needs it: documents that the library writes, and the
//! members of the object that an inbound message holds.

use vstd::prelude::*;
use vstd::string::*;
use crate::text::{join, join_as_strings, str_eq, strings_view};

verus! {

/// A JSON document as parsed by `serde_json`.
#[verifier::external_type_specification]
#[verifier::external_body]
pub struct ExValue(serde_json::Value);

/// The error that `serde_json` reports for text that is no JSON document.
#[verifier::external_type_specification]
#[verifier::external_body]
pub struct ExError(serde_json::Error);

/// The mathematical value of a [`Field`].
pub enum FieldView {
    Null,
    Bool(bool),
    Str(Seq<char>),
    Other,
}

/// The value of one member of an inbound object, as far as messages use it:
/// `null`, a boolean, a string, or anything else.
#[derive(Debug, Clone, PartialEq, Eq)]
pub enum Field {
    Null,
    Bool(bool),
    Str(String),
    Other,
}

impl View for Field {
    type V = FieldView;

    open spec fn view(&self) -> FieldView {
        match self {
            Field::Null => FieldView::Null,
            Field::Bool(b) => FieldView::Bool(*b),
            Field::Str(s) => FieldView::Str(s@),
            Field::Other => FieldView::Other,
        }
    }
}

/// What `serde_json::from_str` makes of a text: `None` where the text is no
/// JSON document, else the members of the document's top-level object by key
/// (no members where the document is not an object). A member is `null`, a
/// boolean, a string with its characters, or `Other` for a number, an array
/// or an object.
pub uninterp spec fn parsed_members(text: Seq<char>) -> Option<Map<Seq<char>, FieldView>>;

/// The members of a parsed document's top-level object by key, each seen as
/// [`parsed_members`] sees it; no members where the document is not an object.
pub uninterp spec fn value_members(value: serde_json::Value) -> Map<Seq<char>, FieldView>;

/// The text of a JSON string literal for `s`, as `serde_json::to_string` writes
/// it: in double quotes, with the escapes that JSON asks for.
pub uninterp spec fn quoted(s: Seq<char>) -> Seq<char>;

/// `serde_json::from_str` at the type `serde_json::Value`: fails exactly on the
/// texts that are no JSON document, and else returns the document.
#[verifier::external_body]
pub(crate) fn parse_value(text: &str) -> (r: Result<serde_json::Value, serde_json::Error>)
    ensures
        match r {
            Ok(value) => parsed_members(text@) == Some(value_members(value)),
            Err(_) => parsed_members(text@) is None,
        },
{
    serde_json::from_str::<serde_json::Value>(text)
}

/// `serde_json::Value::get` with a string key: the member of that key, where the
/// document is an object that has one.
#[verifier::external_body]
pub(crate) fn member(value: &serde_json::Value, key: &str) -> (r: Option<Field>)
    ensures
        match r {
            Some(field) => value_members(*value).contains_key(key@) && value_members(*value)[key@]
                == field@,
            None => !value_members(*value).contains_key(key@),
        },
{
    match value.get(key) {
        None => None,
        Some(serde_json::Value::Null) => Some(Field::Null),
        Some(serde_json::Value::Bool(b)) => Some(Field::Bool(*b)),
        Some(serde_json::Value::String(s)) => Some(Field::Str(s.clone())),
        Some(serde_json::Value::Number(_)) => Some(Field::Other),
        Some(serde_json::Value::Array(_)) => Some(Field::Other),
        Some(serde_json::Value::Object(_)) => Some(Field::Other),
    }
}

/// `serde_json::to_string` on a string slice: the JSON string literal for it.
#[verifier::external_body]
pub(crate) fn quote(s: &str) -> (out: String)
    ensures
        out@ == quoted(s@),
{
    serde_json::to_string(s).unwrap_or_default()
}

/// The mathematical value of a [`Member`].
pub struct MemberView {
    pub key: Seq<char>,
    pub value: JsonView,
}

/// The mathematical value of a [`Json`] document.
pub enum JsonView {
    Null,
    Bool(bool),
    Number(Seq<char>),
    Str(Seq<char>),
    Array(Seq<JsonView>),
    Object(Seq<MemberView>),
}

/// One member of an object: a key and the value under it.
#[derive(Debug, PartialEq, Eq)]
pub struct Member {
    pub key: String,
    pub value: Json,
}

/// A JSON document, as the library writes it. The members of an object keep
/// the order in which they were given. A number holds its text, which is
/// written as it is.
#[derive(Debug, PartialEq, Eq)]
pub enum Json {
    Null,
    Bool(bool),
    Number(String),
    Str(String),
    Array(Vec<Json>),
    Object(Vec<Member>),
}

/// The mathematical value of a document: the same shape, with every string and
/// vector replaced by the sequence it holds.
pub open spec fn json_view(j: Json) -> JsonView
    decreases j,
{
    match j {
        Json::Null => JsonView::Null,
        Json::Bool(b) => JsonView::Bool(b),
        Json::Number(n) => JsonView::Number(n@),
        Json::Str(s) => JsonView::Str(s@),
        Json::Array(items) => JsonView::Array(
            Seq::new(
                items@.len(),
                |i: int|
                    if 0 <= i < items@.len() {
                        json_view(items@[i])
                    } else {
                        JsonView::Null
                    },
            ),
        ),
        Json::Object(members) => JsonView::Object(
            Seq::new(
                members@.len(),
                |i: int|
                    if 0 <= i < members@.len() {
                        MemberView { key: members@[i].key@, value: json_view(members@[i].value) }
                    } else {
                        MemberView { key: Seq::empty(), value: JsonView::Null }
                    },
            ),
        ),
    }
}

impl View for Json {
    type V = JsonView;

    open spec fn view(&self) -> JsonView {
        json_view(*self)
    }
}

impl View for Member {
    type V = MemberView;

    open spec fn view(&self) -> MemberView {
        MemberView { key: self.key@, value: self.value@ }
    }
}

/// The views of a sequence of documents, in order.
pub open spec fn items_view(items: Seq<Json>) -> Seq<JsonView> {
    Seq::new(items.len(), |i: int| items[i]@)
}

/// The views of a sequence of members, in order.
pub open spec fn members_view(members: Seq<Member>) -> Seq<MemberView> {
    Seq::new(members.len(), |i: int| members[i]@)
}

/// The view of an array holds the views of its items, and the view of an object
/// the views of its members, in order.
pub proof fn lemma_json_view(j: Json)
    ensures
        j is Array ==> j@ == JsonView::Array(items_view(j->Array_0@)),
        j is Object ==> j@ == JsonView::Object(members_view(j->Object_0@)),
{
    if j is Array {
        assert(j@->Array_0 =~= items_view(j->Array_0@));
    }
    if j is Object {
        assert(j@->Object_0 =~= members_view(j->Object_0@));
    }
}

/// The text of a document: no white space, a number as its text stands,
/// array items and object members in order and separated by commas, each
/// member as its quoted key, a colon and its value.
pub open spec fn json_text(j: JsonView) -> Seq<char>
    decreases j,
{
    match j {
        JsonView::Null => "null"@,
        JsonView::Bool(b) => if b {
            "true"@
        } else {
            "false"@
        },
        JsonView::Number(n) => n,
        JsonView::Str(s) => quoted(s),
        JsonView::Array(items) => "["@ + join(items_text(items), ","@) + "]"@,
        JsonView::Object(members) => "{"@ + join(members_text(members), ","@) + "}"@,
    }
}

/// The text of each item of an array, in order.
pub open spec fn items_text(items: Seq<JsonView>) -> Seq<Seq<char>>
    decreases items,
{
    if items.len() == 0 {
        Seq::empty()
    } else {
        items_text(items.drop_last()).push(json_text(items.last()))
    }
}

/// The text of one member of an object: the quoted key, a colon and the value.
pub open spec fn member_text(member: MemberView) -> Seq<char>
    decreases member,
{
    quoted(member.key) + ":"@ + json_text(member.value)
}

/// The text of each member of an object, in order.
pub open spec fn members_text(members: Seq<MemberView>) -> Seq<Seq<char>>
    decreases members,
{
    if members.len() == 0 {
        Seq::empty()
    } else {
        members_text(members.drop_last()).push(member_text(members.last()))
    }
}

/// The texts of the items are as many as the items, each the text of its item.
pub proof fn lemma_items_text(items: Seq<JsonView>)
    ensures
        items_text(items).len() == items.len(),
        forall|i: int| 0 <= i < items.len() ==> #[trigger] items_text(items)[i] == json_text(items[i]),
    decreases items.len(),
{
    if items.len() > 0 {
        lemma_items_text(items.drop_last());
    }
}

/// The texts of the members are as many as the members, each the text of its
/// member.
pub proof fn lemma_members_text(members: Seq<MemberView>)
    ensures
        members_text(members).len() == members.len(),
        forall|i: int|
            0 <= i < members.len() ==> #[trigger] members_text(members)[i] == member_text(
                members[i],
            ),
    decreases members.len(),
{
    if members.len() > 0 {
        lemma_members_text(members.drop_last());
    }
}

impl Json {
    /// The text of this document.
    pub fn render(&self) -> (out: String)
        ensures
            out@ == json_text(self@),
        decreases self,
    {
        proof {
            lemma_json_view(*self);
        }
        match self {
            Json::Null => String::from_str("null"),
            Json::Bool(b) => if *b {
                String::from_str("true")
            } else {
                String::from_str("false")
            },
            Json::Number(n) => n.clone(),
            Json::Str(s) => quote(s.as_str()),
            Json::Array(items) => {
                let parts = Json::render_items(items);
                let inner = join_as_strings(&parts, ",");
                let mut out = String::from_str("[");
                out.append(inner.as_str());
                out.append("]");
                out
            },
            Json::Object(members) => {
                let parts = Json::render_members(members);
                let inner = join_as_strings(&parts, ",");
                let mut out = String::from_str("{");
                out.append(inner.as_str());
                out.append("}");
                out
            },
        }
    }

    /// The text of each document of the list, in order.
    pub fn render_items(items: &Vec<Json>) -> (parts: Vec<String>)
        ensures
            strings_view(parts@) == items_text(items_view(items@)),
        decreases items,
    {
        let mut parts: Vec<String> = Vec::new();
        let mut i: usize = 0;
        while i < items.len()
            invariant
                i <= items.len(),
                parts@.len() == i,
                forall|k: int| 0 <= k < i ==> (#[trigger] parts@[k])@ == json_text(items@[k]@),
            decreases items.len() - i,
        {
            parts.push(items[i].render());
            i = i + 1;
        }
        proof {
            lemma_items_text(items_view(items@));
            assert(strings_view(parts@) =~= items_text(items_view(items@)));
        }
        parts
    }

    /// The text of each member of the list, in order.
    pub fn render_members(members: &Vec<Member>) -> (parts: Vec<String>)
        ensures
            strings_view(parts@) == members_text(members_view(members@)),
        decreases members,
    {
        let mut parts: Vec<String> = Vec::new();
        let mut i: usize = 0;
        while i < members.len()
            invariant
                i <= members.len(),
                parts@.len() == i,
                forall|k: int|
                    0 <= k < i ==> (#[trigger] parts@[k])@ == quoted(members@[k].key@) + ":"@
                        + json_text(members@[k].value@),
            decreases members.len() - i,
        {
            let mut part = quote(members[i].key.as_str());
            proof {
                assert(decreases_to!(*members => members@[i as int]));
                assert(decreases_to!(members@[i as int] => members@[i as int].value));
            }
            let value = members[i].value.render();
            part.append(":");
            part.append(value.as_str());
            parts.push(part);
            i = i + 1;
        }
        proof {
            lemma_members_text(members_view(members@));
            assert(strings_view(parts@) =~= members_text(members_view(members@)));
        }
        parts
    }
}

/// An object member with a string under `key`.
pub open spec fn str_member(key: Seq<char>, value: Seq<char>) -> MemberView {
    MemberView { key: key, value: JsonView::Str(value) }
}

/// A member that holds a string.
pub fn string_member(key: &str, value: &str) -> (m: Member)
    ensures
        m@ == str_member(key@, value@),
{
    let m = Member { key: String::from_str(key), value: Json::Str(String::from_str(value)) };
    m
}

/// An object of the given members.
pub fn object_of(members: Vec<Member>) -> (j: Json)
    ensures
        j@ == JsonView::Object(members_view(members@)),
{
    let j = Json::Object(members);
    proof {
        lemma_json_view(j);
    }
    j
}

/// An array of the given items.
pub fn array_of(items: Vec<Json>) -> (j: Json)
    ensures
        j@ == JsonView::Array(items_view(items@)),
{
    let j = Json::Array(items);
    proof {
        lemma_json_view(j);
    }
    j
}

/// The position of the first member with the given key at or after `from`, or
/// the number of members where there is none.
pub open spec fn member_position(members: Seq<MemberView>, key: Seq<char>, from: int) -> int
    decreases members.len() - from,
{
    if from < 0 || from >= members.len() {
        members.len() as int
    } else if members[from].key == key {
        from
    } else {
        member_position(members, key, from + 1)
    }
}

/// The value of the first member with the given key, if any.
pub open spec fn member_value(members: Seq<MemberView>, key: Seq<char>) -> Option<JsonView> {
    let at = member_position(members, key, 0);
    if at < members.len() {
        Some(members[at].value)
    } else {
        None
    }
}

/// The position of the first member with the given key, if any.
pub fn find_member(members: &Vec<Member>, key: &str) -> (at: Option<usize>)
    ensures
        match at {
            Some(i) => i < members@.len() && i == member_position(
                members_view(members@),
                key@,
                0,
            ),
            None => member_position(members_view(members@), key@, 0) == members@.len(),
        },
{
    let ghost views = members_view(members@);
    let mut i: usize = 0;
    while i < members.len()
        invariant
            i <= members.len(),
            views == members_view(members@),
            member_position(views, key@, 0) == member_position(views, key@, i as int),
        decreases members.len() - i,
    {
        if str_eq(members[i].key.as_str(), key) {
            return Some(i);
        }
        i = i + 1;
    }
    None
}

} // verus!
