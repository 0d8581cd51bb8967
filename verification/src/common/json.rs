//! JSON documents as trees, and the calls into `serde_json` that read a tree
//! from text.
//!
//! The wire formats of this crate are stated over [`JsonView`], the
//! mathematical form of a document. Reading text is left to `serde_json`;
//! what it makes of a text is not restated here but named
//! ([`json_of_text`]), so that contracts can speak of it.

use vstd::prelude::*;

verus! {

/// A JSON document.
#[derive(Debug, PartialEq, Eq)]
pub enum Json {
    /// `null`.
    Null,
    /// `true` or `false`.
    Bool(bool),
    /// A whole number that is not below zero.
    Unsigned(u64),
    /// A whole number below zero.
    Signed(i64),
    /// Any other number, kept as its decimal text.
    Real(String),
    /// A string.
    Str(String),
    /// An array.
    Array(Vec<Json>),
    /// An object: its members, each a name and a value.
    Object(Vec<(String, Json)>),
}

/// The mathematical form of a [`Json`] document.
pub enum JsonView {
    Null,
    Bool(bool),
    Unsigned(u64),
    Signed(i64),
    Real(Seq<char>),
    Str(Seq<char>),
    Array(Seq<JsonView>),
    Object(Seq<(Seq<char>, JsonView)>),
}

impl Json {
    /// The mathematical form of this document.
    pub open spec fn tree(self) -> JsonView
        decreases self,
    {
        match self {
            Json::Null => JsonView::Null,
            Json::Bool(b) => JsonView::Bool(b),
            Json::Unsigned(n) => JsonView::Unsigned(n),
            Json::Signed(n) => JsonView::Signed(n),
            Json::Real(text) => JsonView::Real(text@),
            Json::Str(s) => JsonView::Str(s@),
            Json::Array(items) => JsonView::Array(
                Seq::new(
                    items.len() as nat,
                    |i: int|
                        if 0 <= i < items.len() {
                            items[i].tree()
                        } else {
                            JsonView::Null
                        },
                ),
            ),
            Json::Object(members) => JsonView::Object(
                Seq::new(
                    members.len() as nat,
                    |i: int|
                        if 0 <= i < members.len() {
                            (members[i].0@, members[i].1.tree())
                        } else {
                            (Seq::empty(), JsonView::Null)
                        },
                ),
            ),
        }
    }
}

impl View for Json {
    type V = JsonView;

    open spec fn view(&self) -> JsonView {
        self.tree()
    }
}

impl Clone for Json {
    #[verifier::loop_isolation(false)]
    fn clone(&self) -> (copy: Self)
        ensures
            copy@ == self@,
        decreases self,
    {
        match self {
            Json::Null => Json::Null,
            Json::Bool(b) => Json::Bool(*b),
            Json::Unsigned(n) => Json::Unsigned(*n),
            Json::Signed(n) => Json::Signed(*n),
            Json::Real(text) => Json::Real(text.clone()),
            Json::Str(s) => Json::Str(s.clone()),
            Json::Array(items) => {
                let mut copies: Vec<Json> = Vec::new();
                let mut i: usize = 0;
                while i < items.len()
                    invariant
                        i <= items.len(),
                        copies.len() == i,
                        forall|j: int| 0 <= j < i ==> (#[trigger] copies[j])@ == items[j]@,
                    decreases items.len() - i,
                {
                    copies.push(items[i].clone());
                    i += 1;
                }
                let copy = Json::Array(copies);
                proof {
                    Self::lemma_array_view(copies);
                    Self::lemma_array_view(*items);
                    assert(copy@->Array_0 =~= self@->Array_0);
                }
                copy
            },
            Json::Object(members) => {
                let mut copies: Vec<(String, Json)> = Vec::new();
                let mut i: usize = 0;
                while i < members.len()
                    invariant
                        i <= members.len(),
                        copies.len() == i,
                        forall|j: int|
                            0 <= j < i ==> (#[trigger] copies[j]).0@ == members[j].0@
                                && copies[j].1@ == members[j].1@,
                    decreases members.len() - i,
                {
                    copies.push((members[i].0.clone(), members[i].1.clone()));
                    i += 1;
                }
                let copy = Json::Object(copies);
                proof {
                    Self::lemma_object_view(copies);
                    Self::lemma_object_view(*members);
                    assert(copy@->Object_0 =~= self@->Object_0);
                }
                copy
            },
        }
    }
}

impl DeepView for Json {
    type V = JsonView;

    open spec fn deep_view(&self) -> JsonView {
        self@
    }
}

/// The members of an object in mathematical form.
pub open spec fn members_view(members: Vec<(String, Json)>) -> Seq<(Seq<char>, JsonView)> {
    Seq::new(members.len() as nat, |i: int| (members[i].0@, members[i].1@))
}

/// `members` with one more member at the end.
pub open spec fn with_member(
    members: Seq<(Seq<char>, JsonView)>,
    name: Seq<char>,
    value: JsonView,
) -> Seq<(Seq<char>, JsonView)> {
    members.push((name, value))
}

/// `members` with one more member at the end where `value` is given, and
/// unchanged where it is not.
pub open spec fn with_optional_member(
    members: Seq<(Seq<char>, JsonView)>,
    name: Seq<char>,
    value: Option<JsonView>,
) -> Seq<(Seq<char>, JsonView)> {
    match value {
        Some(value) => members.push((name, value)),
        None => members,
    }
}

/// The strings of `items` as a JSON array.
pub open spec fn string_array(items: Seq<Seq<char>>) -> JsonView {
    JsonView::Array(Seq::new(items.len(), |i: int| JsonView::Str(items[i])))
}

impl JsonView {
    /// The value of the first of `members` that is called `name`; `None`
    /// where none is.
    pub open spec fn lookup(members: Seq<(Seq<char>, JsonView)>, name: Seq<char>) -> Option<
        JsonView,
    >
        decreases members.len(),
    {
        if members.len() == 0 {
            None
        } else {
            match Self::lookup(members.drop_last(), name) {
                Some(value) => Some(value),
                None => if members.last().0 == name {
                    Some(members.last().1)
                } else {
                    None
                },
            }
        }
    }

    /// The value of the first member called `name`; `None` where this is no
    /// object or has no such member.
    pub open spec fn member(self, name: Seq<char>) -> Option<JsonView> {
        match self {
            JsonView::Object(members) => Self::lookup(members, name),
            _ => None,
        }
    }

    /// What is found among the first `n` members is what is found among
    /// all of them.
    pub proof fn lemma_lookup_prefix(members: Seq<(Seq<char>, JsonView)>, n: int, name: Seq<char>)
        requires
            0 <= n <= members.len(),
            Self::lookup(members.take(n), name) is Some,
        ensures
            Self::lookup(members, name) == Self::lookup(members.take(n), name),
        decreases members.len() - n,
    {
        if n < members.len() {
            assert(members.take(n + 1).drop_last() =~= members.take(n));
            Self::lemma_lookup_prefix(members, n + 1, name);
        } else {
            assert(members.take(n) =~= members);
        }
    }

    /// What is found is the value of one of the members.
    pub proof fn lemma_lookup_finds_a_member(members: Seq<(Seq<char>, JsonView)>, name: Seq<char>)
        ensures
            Self::lookup(members, name) matches Some(value) ==> exists|i: int|
                0 <= i < members.len() && (#[trigger] members[i]) == (name, value),
        decreases members.len(),
    {
        if members.len() > 0 {
            let earlier = members.drop_last();
            Self::lemma_lookup_finds_a_member(earlier, name);
            match Self::lookup(earlier, name) {
                Some(value) => {
                    let i = choose|i: int|
                        0 <= i < earlier.len() && (#[trigger] earlier[i]) == (name, value);
                    assert(members[i] == earlier[i]);
                },
                None => {
                    if members.last().0 == name {
                        assert(members[members.len() - 1] == (name, members.last().1));
                    }
                },
            }
        }
    }

    /// A member's value is a part of the object, so recursion may descend
    /// into it.
    pub proof fn lemma_member_decreases(json: JsonView, name: Seq<char>)
        ensures
            json.member(name) matches Some(value) ==> decreases_to!(json => value),
            json.optional_member(name) matches Some(value) ==> decreases_to!(json => value),
    {
        match json {
            JsonView::Object(members) => {
                Self::lemma_lookup_finds_a_member(members, name);
                match Self::lookup(members, name) {
                    Some(value) => {
                        let i = choose|i: int|
                            0 <= i < members.len() && (#[trigger] members[i]) == (name, value);
                        assert(decreases_to!(json => members));
                        assert(decreases_to!(members => members[i]));
                        assert(decreases_to!(members[i] => members[i].1));
                    },
                    None => {},
                }
            },
            _ => {},
        }
    }

    /// An object without members has no member of any name.
    pub broadcast proof fn lemma_member_of_none(key: Seq<char>)
        ensures
            #[trigger] JsonView::Object(Seq::empty()).member(key) is None,
    {
    }

    /// Looking a name up in an object that got one more member at its end:
    /// what was found before is still found, and the new member is found
    /// under its name where that name was free.
    pub broadcast proof fn lemma_member_after_push(
        members: Seq<(Seq<char>, JsonView)>,
        name: Seq<char>,
        value: JsonView,
        key: Seq<char>,
    )
        ensures
            #[trigger] JsonView::Object(members.push((name, value))).member(key) == if JsonView::Object(
                members,
            ).member(key) is Some {
                JsonView::Object(members).member(key)
            } else if name == key {
                Some(value)
            } else {
                None
            },
    {
        assert(members.push((name, value)).drop_last() =~= members);
    }

    /// A member that may be left out: `None` where it is absent or `null`.
    pub open spec fn optional_member(self, name: Seq<char>) -> Option<JsonView> {
        match self.member(name) {
            Some(JsonView::Null) => None,
            other => other,
        }
    }

    /// The characters of a JSON string; `None` for any other document.
    pub open spec fn as_str(self) -> Option<Seq<char>> {
        match self {
            JsonView::Str(s) => Some(s),
            _ => None,
        }
    }

    /// A JSON boolean's value; `None` for any other document.
    pub open spec fn as_bool(self) -> Option<bool> {
        match self {
            JsonView::Bool(b) => Some(b),
            _ => None,
        }
    }

    /// A whole number that fits `usize`; `None` for any other document.
    pub open spec fn as_usize(self) -> Option<usize> {
        match self {
            JsonView::Unsigned(n) => if n <= usize::MAX {
                Some(n as usize)
            } else {
                None
            },
            _ => None,
        }
    }

    /// The items of a JSON array; `None` for any other document.
    pub open spec fn as_array(self) -> Option<Seq<JsonView>> {
        match self {
            JsonView::Array(items) => Some(items),
            _ => None,
        }
    }

    /// A required member that must be a string.
    pub open spec fn string_member(self, name: Seq<char>) -> Option<Seq<char>> {
        match self.member(name) {
            Some(value) => value.as_str(),
            None => None,
        }
    }

    /// A required member that must be a whole number fitting `usize`.
    pub open spec fn usize_member(self, name: Seq<char>) -> Option<usize> {
        match self.member(name) {
            Some(value) => value.as_usize(),
            None => None,
        }
    }

    /// A member that may be left out and must else be a string. The outer
    /// `None` says that it is there and is no string.
    pub open spec fn optional_string_member(self, name: Seq<char>) -> Option<Option<Seq<char>>> {
        match self.optional_member(name) {
            Some(value) => match value.as_str() {
                Some(s) => Some(Some(s)),
                None => None,
            },
            None => Some(None),
        }
    }

    /// A member that may be left out and must else be a whole number fitting
    /// `usize`. The outer `None` says that it is there and is no such number.
    pub open spec fn optional_usize_member(self, name: Seq<char>) -> Option<Option<usize>> {
        match self.optional_member(name) {
            Some(value) => match value.as_usize() {
                Some(n) => Some(Some(n)),
                None => None,
            },
            None => Some(None),
        }
    }

    /// A member that may be left out and must else be a boolean. The outer
    /// `None` says that it is there and is no boolean.
    pub open spec fn optional_bool_member(self, name: Seq<char>) -> Option<Option<bool>> {
        match self.optional_member(name) {
            Some(value) => match value.as_bool() {
                Some(b) => Some(Some(b)),
                None => None,
            },
            None => Some(None),
        }
    }
}

/// The tree that `serde_json` reads from `text`; `None` where it rejects the
/// text.
pub uninterp spec fn json_of_text(text: Seq<char>) -> Option<JsonView>;

/// The tree that a `serde_json::Value` holds.
pub uninterp spec fn value_tree(value: serde_json::Value) -> JsonView;

#[verifier::external_type_specification]
#[verifier::external_body]
pub struct ExValue(serde_json::Value);

#[verifier::external_type_specification]
#[verifier::external_body]
pub struct ExJsonError(serde_json::Error);

/// Trusted: `serde_json::from_str`, asked for a `Value`, returns the value
/// that holds the text's tree, or an error where the text is no JSON
/// document.
#[verifier::external_body]
fn value_from_str(text: &str) -> (parsed: Result<serde_json::Value, serde_json::Error>)
    ensures
        match parsed {
            Ok(value) => json_of_text(text@) == Some(value_tree(value)),
            Err(_) => json_of_text(text@) is None,
        },
{
    serde_json::from_str::<serde_json::Value>(text)
}

/// Trusted: moves the content of a `serde_json::Value` into a [`Json`],
/// variant by variant. A number comes out as `Unsigned` where `as_u64`
/// gives it, as `Signed` where `as_i64` does, and else as the text that its
/// `Display` prints. An object's members come in the order in which its map
/// hands them out.
#[verifier::external_body]
fn json_from_value(value: serde_json::Value) -> (json: Json)
    ensures
        json@ == value_tree(value),
{
    match value {
        serde_json::Value::Null => Json::Null,
        serde_json::Value::Bool(b) => Json::Bool(b),
        serde_json::Value::Number(n) => match (n.as_u64(), n.as_i64()) {
            (Some(u), _) => Json::Unsigned(u),
            (_, Some(i)) => Json::Signed(i),
            _ => Json::Real(n.to_string()),
        },
        serde_json::Value::String(s) => Json::Str(s),
        serde_json::Value::Array(a) => Json::Array(a.into_iter().map(json_from_value).collect()),
        serde_json::Value::Object(m) => Json::Object(
            m.into_iter().map(|(k, v)| (k, json_from_value(v))).collect(),
        ),
    }
}

/// The `serde_json::Value` that stands for a tree: the tree's own values,
/// an object's members by name (of two with one name the later), and for a
/// number kept as text the number that `serde_json` reads from that text,
/// `null` where it reads none.
pub uninterp spec fn value_of_tree(json: JsonView) -> serde_json::Value;

/// The text that `serde_json::to_string` prints for a value; `None` where
/// it fails.
pub uninterp spec fn compact_text(value: serde_json::Value) -> Option<Seq<char>>;

/// The text that `serde_json::to_string_pretty` prints for a value; `None`
/// where it fails.
pub uninterp spec fn pretty_text(value: serde_json::Value) -> Option<Seq<char>>;

/// Trusted: builds the `serde_json::Value` for a [`Json`], variant by
/// variant. A number kept as text is read back with `serde_json::from_str`
/// and becomes `null` where that fails; an object's members are inserted
/// into a map in their order.
#[verifier::external_body]
fn value_from_json(json: &Json) -> (value: serde_json::Value)
    ensures
        value == value_of_tree(json@),
{
    match json {
        Json::Null => serde_json::Value::Null,
        Json::Bool(b) => serde_json::Value::Bool(*b),
        Json::Unsigned(n) => serde_json::Value::from(*n),
        Json::Signed(n) => serde_json::Value::from(*n),
        Json::Real(text) => serde_json::from_str(text).unwrap_or(serde_json::Value::Null),
        Json::Str(s) => serde_json::Value::String(s.clone()),
        Json::Array(items) => serde_json::Value::Array(items.iter().map(value_from_json).collect()),
        Json::Object(members) => serde_json::Value::Object(
            members.iter().map(|m| (m.0.clone(), value_from_json(&m.1))).collect(),
        ),
    }
}

/// Trusted: `serde_json::to_string` prints a value as JSON text without
/// white space between its parts.
#[verifier::external_body]
fn value_to_string(value: &serde_json::Value) -> (text: Result<String, serde_json::Error>)
    ensures
        match text {
            Ok(text) => compact_text(*value) == Some(text@),
            Err(_) => compact_text(*value) is None,
        },
{
    serde_json::to_string(value)
}

/// Trusted: `serde_json::to_string_pretty` prints a value as JSON text
/// with one member or item to a line, indented by two spaces a level.
#[verifier::external_body]
fn value_to_string_pretty(value: &serde_json::Value) -> (text: Result<String, serde_json::Error>)
    ensures
        match text {
            Ok(text) => pretty_text(*value) == Some(text@),
            Err(_) => pretty_text(*value) is None,
        },
{
    serde_json::to_string_pretty(value)
}

/// Trusted: an error of `serde_json` that carries `message`, made by its
/// `serde::de::Error::custom`.
#[verifier::external_body]
pub(crate) fn json_error(message: &str) -> serde_json::Error {
    <serde_json::Error as serde::de::Error>::custom(message)
}

/// Adds the member `name` with the value `value` at the end of `members`.
pub fn put(members: &mut Vec<(String, Json)>, name: &str, value: Json)
    ensures
        members_view(*final(members)) == with_member(members_view(*old(members)), name@, value@),
{
    members.push((name.to_owned(), value));
    assert(members_view(*members) =~= with_member(members_view(*old(members)), name@, value@));
}

/// Adds the member `name` at the end of `members` where `value` is given.
pub fn put_optional(members: &mut Vec<(String, Json)>, name: &str, value: Option<Json>)
    ensures
        members_view(*final(members)) == with_optional_member(
            members_view(*old(members)),
            name@,
            value.deep_view(),
        ),
{
    match value {
        Some(value) => {
            put(members, name, value);
        },
        None => {},
    }
}

impl Json {
    /// An object with the given members.
    pub fn object(members: Vec<(String, Json)>) -> (json: Json)
        ensures
            json@ == JsonView::Object(members_view(members)),
    {
        proof {
            Self::lemma_object_view(members);
            assert(Json::Object(members)@->Object_0 =~= members_view(members));
        }
        Json::Object(members)
    }

    /// An array with the given items.
    pub fn array(items: Vec<Json>) -> (json: Json)
        ensures
            json@ == JsonView::Array(items.deep_view()),
    {
        proof {
            Self::lemma_array_view(items);
        }
        Json::Array(items)
    }

    /// The string `s`.
    pub fn string(s: &str) -> (json: Json)
        ensures
            json@ == JsonView::Str(s@),
    {
        Json::Str(s.to_owned())
    }

    /// The string `s`, where there is one.
    pub fn optional_string(s: &Option<String>) -> (json: Option<Json>)
        ensures
            json.deep_view() == match s.deep_view() {
                Some(s) => Some(JsonView::Str(s)),
                None => None,
            },
    {
        match s {
            Some(s) => Some(Json::Str(s.clone())),
            None => None,
        }
    }

    /// The strings of `items` as an array.
    pub fn string_array(items: &Vec<String>) -> (json: Json)
        ensures
            json@ == string_array(items.deep_view()),
    {
        let mut strings: Vec<Json> = Vec::new();
        let mut i: usize = 0;
        while i < items.len()
            invariant
                i <= items.len(),
                strings.len() == i,
                forall|j: int| 0 <= j < i ==> (#[trigger] strings[j])@ == JsonView::Str(items[j]@),
            decreases items.len() - i,
        {
            strings.push(Json::Str(items[i].clone()));
            i += 1;
        }
        proof {
            assert(strings.deep_view() =~= string_array(items.deep_view())->Array_0);
        }
        Json::array(strings)
    }

    /// The whole number `n`.
    pub fn number(n: usize) -> (json: Json)
        ensures
            json@ == JsonView::Unsigned(n as u64),
    {
        Json::Unsigned(n as u64)
    }

    /// The document as JSON text without white space between its parts.
    pub fn to_text(&self) -> (text: Result<String, serde_json::Error>)
        ensures
            match text {
                Ok(text) => compact_text(value_of_tree(self@)) == Some(text@),
                Err(_) => compact_text(value_of_tree(self@)) is None,
            },
    {
        let value = value_from_json(self);
        value_to_string(&value)
    }

    /// The document as JSON text laid out for reading.
    pub fn to_text_pretty(&self) -> (text: Result<String, serde_json::Error>)
        ensures
            match text {
                Ok(text) => pretty_text(value_of_tree(self@)) == Some(text@),
                Err(_) => pretty_text(value_of_tree(self@)) is None,
            },
    {
        let value = value_from_json(self);
        value_to_string_pretty(&value)
    }

    /// Reads a document from text.
    pub fn parse(text: &str) -> (parsed: Result<Json, serde_json::Error>)
        ensures
            match parsed {
                Ok(json) => json_of_text(text@) == Some(json@),
                Err(_) => json_of_text(text@) is None,
            },
    {
        match value_from_str(text) {
            Ok(value) => Ok(json_from_value(value)),
            Err(error) => Err(error),
        }
    }

    /// The view of an object, member by member.
    pub proof fn lemma_object_view(members: Vec<(String, Json)>)
        ensures
            Json::Object(members)@ is Object,
            Json::Object(members)@->Object_0.len() == members.len(),
            forall|i: int|
                0 <= i < members.len() ==> #[trigger] Json::Object(members)@->Object_0[i] == (
                    members[i].0@,
                    members[i].1@,
                ),
    {
        reveal_with_fuel(Json::tree, 2);
        let seen = Json::Object(members)@->Object_0;
        assert(seen.len() == members.len());
    }

    /// The view of an array, item by item.
    pub proof fn lemma_array_view(items: Vec<Json>)
        ensures
            Json::Array(items)@ is Array,
            Json::Array(items)@->Array_0.len() == items.len(),
            forall|i: int|
                0 <= i < items.len() ==> #[trigger] Json::Array(items)@->Array_0[i] == items[i]@,
            Json::Array(items)@->Array_0 == items.deep_view(),
    {
        reveal_with_fuel(Json::tree, 2);
        assert(Json::Array(items)@->Array_0 =~= items.deep_view());
    }

    /// The value of the first member called `name`.
    #[verifier::loop_isolation(false)]
    pub fn member(&self, name: &str) -> (found: Option<&Json>)
        ensures
            found.deep_view() == self@.member(name@),
            found matches Some(value) ==> decreases_to!(self => value),
    {
        match self {
            Json::Object(members) => {
                let ghost seen = self@->Object_0;
                proof {
                    Self::lemma_object_view(*members);
                    assert(seen.take(0) =~= Seq::empty());
                }
                let wanted = name.to_owned();
                let mut i: usize = 0;
                while i < members.len()
                    invariant
                        i <= members.len(),
                        JsonView::lookup(seen.take(i as int), name@) is None,
                    decreases members.len() - i,
                {
                    proof {
                        assert(seen.take(i + 1).drop_last() =~= seen.take(i as int));
                    }
                    if members[i].0 == wanted {
                        proof {
                            JsonView::lemma_lookup_prefix(seen, i + 1, name@);
                        }
                        return Some(&members[i].1);
                    }
                    i += 1;
                }
                proof {
                    assert(seen.take(i as int) =~= seen);
                }
                None
            },
            _ => None,
        }
    }

    /// A member that may be left out: `None` where it is absent or `null`.
    pub fn optional_member(&self, name: &str) -> (found: Option<&Json>)
        ensures
            found.deep_view() == self@.optional_member(name@),
            found matches Some(value) ==> decreases_to!(self => value),
    {
        match self.member(name) {
            Some(Json::Null) => None,
            other => other,
        }
    }

    /// The characters of a JSON string.
    pub fn as_str(&self) -> (s: Option<&str>)
        ensures
            s.deep_view() == self@.as_str(),
    {
        match self {
            Json::Str(s) => Some(s.as_str()),
            _ => None,
        }
    }

    /// A JSON boolean's value.
    pub fn as_bool(&self) -> (b: Option<bool>)
        ensures
            b == self@.as_bool(),
    {
        match self {
            Json::Bool(b) => Some(*b),
            _ => None,
        }
    }

    /// A whole number that fits `usize`.
    pub fn as_usize(&self) -> (n: Option<usize>)
        ensures
            n == self@.as_usize(),
    {
        match self {
            Json::Unsigned(n) => if *n <= usize::MAX as u64 {
                Some(*n as usize)
            } else {
                None
            },
            _ => None,
        }
    }

    /// The items of a JSON array.
    pub fn as_array(&self) -> (items: Option<&Vec<Json>>)
        ensures
            items.deep_view() == self@.as_array(),
            items matches Some(list) ==> decreases_to!(self => list),
    {
        match self {
            Json::Array(items) => {
                proof {
                    Self::lemma_array_view(*items);
                }
                Some(items)
            },
            _ => None,
        }
    }

    /// A required member that must be a string.
    pub fn string_member(&self, name: &str) -> (s: Option<String>)
        ensures
            s.deep_view() == self@.string_member(name@),
    {
        match self.member(name) {
            Some(value) => match value.as_str() {
                Some(s) => Some(s.to_owned()),
                None => None,
            },
            None => None,
        }
    }

    /// A required member that must be a whole number fitting `usize`.
    pub fn usize_member(&self, name: &str) -> (n: Option<usize>)
        ensures
            n == self@.usize_member(name@),
    {
        match self.member(name) {
            Some(value) => value.as_usize(),
            None => None,
        }
    }

    /// A member that may be left out and must else be a string.
    pub fn optional_string_member(&self, name: &str) -> (s: Option<Option<String>>)
        ensures
            s.deep_view() == self@.optional_string_member(name@),
    {
        match self.optional_member(name) {
            Some(value) => match value.as_str() {
                Some(s) => Some(Some(s.to_owned())),
                None => None,
            },
            None => Some(None),
        }
    }

    /// A member that may be left out and must else be a whole number fitting
    /// `usize`.
    pub fn optional_usize_member(&self, name: &str) -> (n: Option<Option<usize>>)
        ensures
            n == self@.optional_usize_member(name@),
    {
        match self.optional_member(name) {
            Some(value) => match value.as_usize() {
                Some(n) => Some(Some(n)),
                None => None,
            },
            None => Some(None),
        }
    }

    /// A member that may be left out and must else be a boolean.
    pub fn optional_bool_member(&self, name: &str) -> (b: Option<Option<bool>>)
        ensures
            b == self@.optional_bool_member(name@),
    {
        match self.optional_member(name) {
            Some(value) => match value.as_bool() {
                Some(b) => Some(Some(b)),
                None => None,
            },
            None => Some(None),
        }
    }
}

} // verus!
