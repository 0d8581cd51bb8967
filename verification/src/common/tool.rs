//! Descriptions of the tools that the model may ask for.
//!
//! A [`Tool`] has a name, a description and a schema of its input. The
//! schema lists properties by name. Such a list is a map from names to
//! definitions. It is kept as a vector of pairs in which no name stands
//! twice ([`distinct_names`]): a property that is added under a name that
//! is taken replaces the one that was there, and a new name goes to the
//! end. A vector can be walked, which printing needs, and may hold
//! definitions that hold such lists in turn. The functions that make or
//! grow a list see to it that its names stay distinct.

use crate::common::json::{
    members_view, put, put_optional, string_array, with_member, with_optional_member, Json,
    JsonView,
};
use vstd::prelude::*;

verus! {

/// Marks a tool as a point up to which the prompt may be cached.
#[derive(Debug)]
pub struct CacheControl {
    /// The kind of caching; the service knows `"ephemeral"`.
    pub kind: String,
}

/// The mathematical form of a [`CacheControl`].
pub struct CacheControlView {
    pub kind: Seq<char>,
}

impl View for CacheControl {
    type V = CacheControlView;

    open spec fn view(&self) -> CacheControlView {
        CacheControlView { kind: self.kind@ }
    }
}

impl DeepView for CacheControl {
    type V = CacheControlView;

    open spec fn deep_view(&self) -> CacheControlView {
        self@
    }
}

impl Clone for CacheControl {
    fn clone(&self) -> (copy: Self)
        ensures
            copy@ == self@,
    {
        CacheControl { kind: self.kind.clone() }
    }
}

impl CacheControlView {
    /// Ephemeral caching.
    pub open spec fn ephemeral() -> CacheControlView {
        CacheControlView { kind: "ephemeral"@ }
    }

    /// The JSON form: an object with the member `type`.
    pub open spec fn to_json(self) -> JsonView {
        JsonView::Object(seq![("type"@, JsonView::Str(self.kind))])
    }
}

impl CacheControl {
    /// Ephemeral caching.
    pub fn ephemeral() -> (control: Self)
        ensures
            control@ == CacheControlView::ephemeral(),
    {
        CacheControl { kind: "ephemeral".to_owned() }
    }

    /// The JSON form of the cache control.
    pub fn to_json(&self) -> (json: Json)
        ensures
            json@ == self@.to_json(),
    {
        let mut members: Vec<(String, Json)> = Vec::new();
        put(&mut members, "type", Json::string(self.kind.as_str()));
        assert(members_view(members) =~= seq![("type"@, JsonView::Str(self.kind@))]);
        Json::object(members)
    }
}

/// The definition of one property of a schema.
#[derive(Debug)]
pub struct PropertyDef {
    /// The JSON type of the property, such as `"string"`.
    pub kind: String,
    /// What the property is for.
    pub description: Option<String>,
    /// The values that a string property may take.
    pub enum_values: Option<Vec<String>>,
    /// The definition of the items of an array property.
    pub items: Option<Box<PropertyDef>>,
    /// The properties of an object property, by name.
    pub properties: Option<Vec<(String, PropertyDef)>>,
    /// The names of the properties that an object property must have.
    pub required: Option<Vec<String>>,
    /// The value that the property has where none is given.
    pub default_value: Option<Json>,
}

/// The mathematical form of a [`PropertyDef`].
pub struct PropertyDefView {
    pub kind: Seq<char>,
    pub description: Option<Seq<char>>,
    pub enum_values: Option<Seq<Seq<char>>>,
    pub items: Option<Box<PropertyDefView>>,
    pub properties: Option<Seq<(Seq<char>, PropertyDefView)>>,
    pub required: Option<Seq<Seq<char>>>,
    pub default_value: Option<JsonView>,
}

/// Whether no name stands twice in `entries`.
pub open spec fn distinct_names(entries: Seq<(Seq<char>, PropertyDefView)>) -> bool {
    forall|i: int, j: int|
        0 <= i < j < entries.len() ==> (#[trigger] entries[i]).0 != (#[trigger] entries[j]).0
}

/// Whether `entries` holds a property called `name`.
pub open spec fn has_name(entries: Seq<(Seq<char>, PropertyDefView)>, name: Seq<char>) -> bool {
    exists|i: int| 0 <= i < entries.len() && (#[trigger] entries[i]).0 == name
}

/// Where the first property called `name` stands in `entries`.
pub open spec fn position(entries: Seq<(Seq<char>, PropertyDefView)>, name: Seq<char>) -> int {
    choose|i: int|
        0 <= i < entries.len() && (#[trigger] entries[i]).0 == name && forall|j: int|
            0 <= j < i ==> (#[trigger] entries[j]).0 != name
}

/// `entries` after `property` was put in under `name`: in the place of the
/// property of that name where there is one, else at the end.
pub open spec fn inserted(
    entries: Seq<(Seq<char>, PropertyDefView)>,
    name: Seq<char>,
    property: PropertyDefView,
) -> Seq<(Seq<char>, PropertyDefView)> {
    if has_name(entries, name) {
        entries.update(position(entries, name), (name, property))
    } else {
        entries.push((name, property))
    }
}

/// Putting a property in keeps the names distinct, makes the name known,
/// and changes the number of entries only where the name is new.
pub proof fn lemma_inserted_keeps_names_distinct(
    entries: Seq<(Seq<char>, PropertyDefView)>,
    name: Seq<char>,
    property: PropertyDefView,
)
    requires
        distinct_names(entries),
    ensures
        distinct_names(inserted(entries, name, property)),
        has_name(inserted(entries, name, property), name),
        inserted(entries, name, property).len() == if has_name(entries, name) {
            entries.len()
        } else {
            entries.len() + 1
        },
        forall|other: Seq<char>|
            other != name ==> has_name(inserted(entries, name, property), other) == has_name(
                entries,
                other,
            ),
{
    let after = inserted(entries, name, property);
    if has_name(entries, name) {
        let at = position(entries, name);
        assert(after[at].0 == name);
        assert forall|other: Seq<char>| other != name implies has_name(after, other) == has_name(
            entries,
            other,
        ) by {
            if has_name(entries, other) {
                let k = choose|k: int| 0 <= k < entries.len() && (#[trigger] entries[k]).0 == other;
                assert(after[k].0 == other);
            }
            if has_name(after, other) {
                let k = choose|k: int| 0 <= k < after.len() && (#[trigger] after[k]).0 == other;
                assert(entries[k].0 == other);
            }
        }
    } else {
        assert(after[entries.len() as int].0 == name);
        assert forall|i: int, j: int| 0 <= i < j < after.len() implies (#[trigger] after[i]).0 != (
        #[trigger] after[j]).0 by {
            if j == entries.len() {
                assert(entries[i].0 != name);
            }
        }
        assert forall|other: Seq<char>| other != name implies has_name(after, other) == has_name(
            entries,
            other,
        ) by {
            if has_name(entries, other) {
                let k = choose|k: int| 0 <= k < entries.len() && (#[trigger] entries[k]).0 == other;
                assert(after[k].0 == other);
            }
            if has_name(after, other) {
                let k = choose|k: int| 0 <= k < after.len() && (#[trigger] after[k]).0 == other;
                assert(entries[k].0 == other);
            }
        }
    }
}

/// What comes of putting the entries of `entries` into an empty list one
/// after the other: of two entries with one name the later takes the place
/// of the earlier.
pub open spec fn collected(entries: Seq<(Seq<char>, PropertyDefView)>) -> Seq<
    (Seq<char>, PropertyDefView),
>
    decreases entries.len(),
{
    if entries.len() == 0 {
        Seq::empty()
    } else {
        inserted(collected(entries.drop_last()), entries.last().0, entries.last().1)
    }
}

/// What was collected has no name twice, and has a name exactly where the
/// entries had it.
pub proof fn lemma_collected_is_distinct(entries: Seq<(Seq<char>, PropertyDefView)>)
    ensures
        distinct_names(collected(entries)),
        forall|name: Seq<char>| has_name(collected(entries), name) == has_name(entries, name),
    decreases entries.len(),
{
    if entries.len() > 0 {
        let earlier = entries.drop_last();
        let last = entries.last();
        lemma_collected_is_distinct(earlier);
        lemma_inserted_keeps_names_distinct(collected(earlier), last.0, last.1);
        assert forall|name: Seq<char>| has_name(collected(entries), name) == has_name(
            entries,
            name,
        ) by {
            if has_name(entries, name) {
                let k = choose|k: int| 0 <= k < entries.len() && (#[trigger] entries[k]).0 == name;
                if k < earlier.len() {
                    assert(earlier[k].0 == name);
                }
            }
            if has_name(earlier, name) {
                let k = choose|k: int| 0 <= k < earlier.len() && (#[trigger] earlier[k]).0 == name;
                assert(entries[k].0 == name);
            }
            if name == last.0 {
                assert(entries[entries.len() - 1].0 == name);
            }
        }
    }
}

/// Entries whose names are distinct are collected as they stand.
pub proof fn lemma_collected_of_distinct(entries: Seq<(Seq<char>, PropertyDefView)>)
    requires
        distinct_names(entries),
    ensures
        collected(entries) == entries,
    decreases entries.len(),
{
    if entries.len() > 0 {
        let earlier = entries.drop_last();
        let last = entries.last();
        assert forall|i: int, j: int| 0 <= i < j < earlier.len() implies (#[trigger] earlier[i]).0
            != (#[trigger] earlier[j]).0 by {
            assert(entries[i].0 != entries[j].0);
        }
        lemma_collected_of_distinct(earlier);
        if has_name(earlier, last.0) {
            let k = choose|k: int| 0 <= k < earlier.len() && (#[trigger] earlier[k]).0 == last.0;
            assert(entries[k].0 != entries[entries.len() - 1].0);
        }
        assert(earlier.push((last.0, last.1)) =~= entries);
    } else {
        assert(entries =~= Seq::empty());
    }
}

impl PropertyDef {
    /// The mathematical form of this definition.
    pub open spec fn model(self) -> PropertyDefView
        decreases self,
    {
        PropertyDefView {
            kind: self.kind@,
            description: self.description.deep_view(),
            enum_values: self.enum_values.deep_view(),
            items: match self.items {
                Some(items) => Some(Box::new(items.model())),
                None => None,
            },
            properties: match self.properties {
                Some(entries) => Some(
                    Seq::new(
                        entries.len() as nat,
                        |i: int|
                            if 0 <= i < entries.len() {
                                (entries[i].0@, entries[i].1.model())
                            } else {
                                (Seq::empty(), PropertyDefView::plain(Seq::empty(), None))
                            },
                    ),
                ),
                None => None,
            },
            required: self.required.deep_view(),
            default_value: self.default_value.deep_view(),
        }
    }
}

impl View for PropertyDef {
    type V = PropertyDefView;

    open spec fn view(&self) -> PropertyDefView {
        self.model()
    }
}

impl DeepView for PropertyDef {
    type V = PropertyDefView;

    open spec fn deep_view(&self) -> PropertyDefView {
        self@
    }
}

/// The entries of a list of properties in mathematical form.
pub open spec fn entries_view(entries: Vec<(String, PropertyDef)>) -> Seq<
    (Seq<char>, PropertyDefView),
> {
    Seq::new(entries.len() as nat, |i: int| (entries[i].0@, entries[i].1@))
}

/// The entries of a list of properties that may be absent.
pub open spec fn optional_entries_view(entries: Option<Vec<(String, PropertyDef)>>) -> Option<
    Seq<(Seq<char>, PropertyDefView)>,
> {
    match entries {
        Some(entries) => Some(entries_view(entries)),
        None => None,
    }
}

impl PropertyDefView {
    /// A property of the JSON type `kind` with nothing but a description.
    pub open spec fn plain(kind: Seq<char>, description: Option<Seq<char>>) -> PropertyDefView {
        PropertyDefView {
            kind,
            description,
            enum_values: None,
            items: None,
            properties: None,
            required: None,
            default_value: None,
        }
    }

    /// The JSON forms of the properties in `entries`, as the members of an
    /// object.
    pub open spec fn entries_to_json(entries: Seq<(Seq<char>, PropertyDefView)>) -> JsonView
        decreases entries,
    {
        JsonView::Object(
            Seq::new(
                entries.len(),
                |i: int|
                    if 0 <= i < entries.len() {
                        (entries[i].0, entries[i].1.to_json())
                    } else {
                        (Seq::empty(), JsonView::Null)
                    },
            ),
        )
    }

    /// The JSON form: an object with the member `type` and, each where it
    /// is given, `description`, `enum`, `items`, `properties`, `required`
    /// and `default`.
    pub open spec fn to_json(self) -> JsonView
        decreases self,
    {
        let members = seq![("type"@, JsonView::Str(self.kind))];
        let members = with_optional_member(
            members,
            "description"@,
            match self.description {
                Some(description) => Some(JsonView::Str(description)),
                None => None,
            },
        );
        let members = with_optional_member(
            members,
            "enum"@,
            match self.enum_values {
                Some(values) => Some(string_array(values)),
                None => None,
            },
        );
        let members = with_optional_member(
            members,
            "items"@,
            match self.items {
                Some(items) => Some(items.to_json()),
                None => None,
            },
        );
        let members = with_optional_member(
            members,
            "properties"@,
            match self.properties {
                Some(entries) => Some(Self::entries_to_json(entries)),
                None => None,
            },
        );
        let members = with_optional_member(
            members,
            "required"@,
            match self.required {
                Some(names) => Some(string_array(names)),
                None => None,
            },
        );
        let members = with_optional_member(members, "default"@, self.default_value);
        JsonView::Object(members)
    }
}

impl PropertyDef {
    /// The model of a definition, field by field.
    pub proof fn lemma_model(self)
        ensures
            self@.kind == self.kind@,
            self@.description == self.description.deep_view(),
            self@.enum_values == self.enum_values.deep_view(),
            self@.items == match self.items {
                Some(items) => Some(Box::new(items@)),
                None => None,
            },
            self@.properties == optional_entries_view(self.properties),
            self@.required == self.required.deep_view(),
            self@.default_value == self.default_value.deep_view(),
    {
        reveal_with_fuel(PropertyDef::model, 2);
        match self.properties {
            Some(entries) => {
                assert(self@.properties->Some_0 =~= entries_view(entries));
            },
            None => {},
        }
    }

    /// A property of the JSON type `kind` with nothing but a description.
    fn plain(kind: &str, description: Option<String>) -> (property: Self)
        ensures
            property@ == PropertyDefView::plain(kind@, description.deep_view()),
    {
        let property = PropertyDef {
            kind: kind.to_owned(),
            description,
            enum_values: None,
            items: None,
            properties: None,
            required: None,
            default_value: None,
        };
        proof {
            property.lemma_model();
        }
        property
    }

    /// A string property.
    pub fn string(description: Option<String>) -> (property: Self)
        ensures
            property@ == PropertyDefView::plain("string"@, description.deep_view()),
    {
        PropertyDef::plain("string", description)
    }

    /// A number property.
    pub fn number(description: Option<String>) -> (property: Self)
        ensures
            property@ == PropertyDefView::plain("number"@, description.deep_view()),
    {
        PropertyDef::plain("number", description)
    }

    /// An integer property.
    pub fn integer(description: Option<String>) -> (property: Self)
        ensures
            property@ == PropertyDefView::plain("integer"@, description.deep_view()),
    {
        PropertyDef::plain("integer", description)
    }

    /// A boolean property.
    pub fn boolean(description: Option<String>) -> (property: Self)
        ensures
            property@ == PropertyDefView::plain("boolean"@, description.deep_view()),
    {
        PropertyDef::plain("boolean", description)
    }

    /// A string property that may take one of `values` only.
    pub fn enum_type(description: Option<String>, values: Vec<String>) -> (property: Self)
        ensures
            property@ == (PropertyDefView {
                enum_values: Some(values.deep_view()),
                ..PropertyDefView::plain("string"@, description.deep_view())
            }),
    {
        let property = PropertyDef {
            kind: "string".to_owned(),
            description,
            enum_values: Some(values),
            items: None,
            properties: None,
            required: None,
            default_value: None,
        };
        proof {
            property.lemma_model();
        }
        property
    }

    /// An array property whose items are as `items` says.
    pub fn array(description: Option<String>, items: PropertyDef) -> (property: Self)
        ensures
            property@ == (PropertyDefView {
                items: Some(Box::new(items@)),
                ..PropertyDefView::plain("array"@, description.deep_view())
            }),
    {
        let property = PropertyDef {
            kind: "array".to_owned(),
            description,
            enum_values: None,
            items: Some(Box::new(items)),
            properties: None,
            required: None,
            default_value: None,
        };
        proof {
            property.lemma_model();
        }
        property
    }

    /// An object property with the given properties, put into its list
    /// one after the other: of two that are given under one name the later
    /// takes the place of the earlier, so that no name stands twice. Where
    /// the names are distinct the list is kept as it is given.
    pub fn object(description: Option<String>, properties: Vec<(String, PropertyDef)>) -> (property:
        Self)
        ensures
            property@ == (PropertyDefView {
                properties: Some(collected(entries_view(properties))),
                ..PropertyDefView::plain("object"@, description.deep_view())
            }),
            distinct_names(collected(entries_view(properties))),
            distinct_names(entries_view(properties)) ==> collected(entries_view(properties))
                == entries_view(properties),
    {
        let ghost given = entries_view(properties);
        let mut left = properties;
        let mut kept: Vec<(String, PropertyDef)> = Vec::new();
        let ghost mut done: int = 0;
        proof {
            assert(entries_view(kept) =~= collected(given.take(0)));
            assert(entries_view(left) =~= given.skip(0));
        }
        while left.len() > 0
            invariant
                0 <= done <= given.len(),
                entries_view(left) == given.skip(done),
                entries_view(kept) == collected(given.take(done)),
            decreases left.len(),
        {
            let ghost before = entries_view(left);
            let ghost pairs = left@;
            proof {
                assert(before.len() == left.len());
                assert(given.skip(done).len() == given.len() - done);
                assert(before[0] == given.skip(done)[0]);
            }
            let entry = left.remove(0);
            proof {
                assert(entry == pairs[0]);
                assert(entry.0@ == given[done].0 && entry.1@ == given[done].1);
                assert forall|i: int| 0 <= i < left.len() implies #[trigger] entries_view(left)[i]
                    == given.skip(done + 1)[i] by {
                    assert(left@[i] == pairs[i + 1]);
                    assert(before[i + 1] == given.skip(done)[i + 1]);
                }
                assert(entries_view(left) =~= given.skip(done + 1));
                assert(given.take(done + 1).drop_last() =~= given.take(done));
                done = done + 1;
            }
            insert_property(&mut kept, entry.0.as_str(), entry.1);
        }
        let property = PropertyDef {
            kind: "object".to_owned(),
            description,
            enum_values: None,
            items: None,
            properties: Some(kept),
            required: None,
            default_value: None,
        };
        proof {
            property.lemma_model();
            assert(given.take(done) =~= given);
            lemma_collected_is_distinct(given);
            if distinct_names(given) {
                lemma_collected_of_distinct(given);
            }
        }
        property
    }

    /// The JSON forms of the properties in `entries`, as the members of an
    /// object.
    #[verifier::loop_isolation(false)]
    pub fn entries_to_json(entries: &Vec<(String, PropertyDef)>) -> (json: Json)
        ensures
            json@ == PropertyDefView::entries_to_json(entries_view(*entries)),
        decreases entries,
    {
        let ghost wanted = PropertyDefView::entries_to_json(entries_view(*entries))->Object_0;
        let mut members: Vec<(String, Json)> = Vec::new();
        let mut i: usize = 0;
        while i < entries.len()
            invariant
                i <= entries.len(),
                members.len() == i,
                forall|j: int|
                    0 <= j < i ==> (#[trigger] members[j]).0@ == wanted[j].0 && members[j].1@
                        == wanted[j].1,
            decreases entries.len() - i,
        {
            let value = entries[i].1.to_json();
            members.push((entries[i].0.clone(), value));
            i += 1;
        }
        assert(members_view(members) =~= wanted);
        Json::object(members)
    }

    /// The JSON form of the definition.
    pub fn to_json(&self) -> (json: Json)
        ensures
            json@ == self@.to_json(),
        decreases self,
    {
        proof {
            self.lemma_model();
        }
        let mut members: Vec<(String, Json)> = Vec::new();
        put(&mut members, "type", Json::string(self.kind.as_str()));
        assert(members_view(members) =~= seq![("type"@, JsonView::Str(self.kind@))]);
        put_optional(&mut members, "description", Json::optional_string(&self.description));
        let enum_values = match &self.enum_values {
            Some(values) => Some(Json::string_array(values)),
            None => None,
        };
        put_optional(&mut members, "enum", enum_values);
        let items = match &self.items {
            Some(items) => Some(items.to_json()),
            None => None,
        };
        put_optional(&mut members, "items", items);
        let properties = match &self.properties {
            Some(entries) => Some(PropertyDef::entries_to_json(entries)),
            None => None,
        };
        put_optional(&mut members, "properties", properties);
        let required = match &self.required {
            Some(names) => Some(Json::string_array(names)),
            None => None,
        };
        put_optional(&mut members, "required", required);
        let default_value = match &self.default_value {
            Some(value) => Some(value.clone()),
            None => None,
        };
        put_optional(&mut members, "default", default_value);
        Json::object(members)
    }

    /// Gives the property the value that it has where none is given.
    pub fn with_default(&mut self, value: Json) -> (this: &mut Self)
        ensures
            this@ == (PropertyDefView { default_value: Some(value@), ..old(self)@ }),
            *final(self) == *final(this),
    {
        proof {
            self.lemma_model();
        }
        self.default_value = Some(value);
        proof {
            self.lemma_model();
        }
        self
    }
}

/// The schema of a tool's input.
#[derive(Debug)]
pub struct JsonSchema {
    /// The JSON type that the schema describes; `"object"` for a tool.
    pub kind: String,
    /// The properties of the input, by name.
    pub properties: Option<Vec<(String, PropertyDef)>>,
    /// The names of the properties that the input must have.
    pub required: Option<Vec<String>>,
    /// Whether the input may have properties that the schema does not name.
    pub additional_properties: Option<bool>,
}

/// The mathematical form of a [`JsonSchema`].
pub struct JsonSchemaView {
    pub kind: Seq<char>,
    pub properties: Option<Seq<(Seq<char>, PropertyDefView)>>,
    pub required: Option<Seq<Seq<char>>>,
    pub additional_properties: Option<bool>,
}

impl View for JsonSchema {
    type V = JsonSchemaView;

    open spec fn view(&self) -> JsonSchemaView {
        JsonSchemaView {
            kind: self.kind@,
            properties: optional_entries_view(self.properties),
            required: self.required.deep_view(),
            additional_properties: self.additional_properties,
        }
    }
}

impl DeepView for JsonSchema {
    type V = JsonSchemaView;

    open spec fn deep_view(&self) -> JsonSchemaView {
        self@
    }
}

impl JsonSchemaView {
    /// The schema of an object without properties: an empty list of them.
    pub open spec fn object() -> JsonSchemaView {
        JsonSchemaView {
            kind: "object"@,
            properties: Some(Seq::empty()),
            required: None,
            additional_properties: None,
        }
    }

    /// The schema of an object that says nothing of its properties.
    pub open spec fn empty_object() -> JsonSchemaView {
        JsonSchemaView {
            kind: "object"@,
            properties: None,
            required: None,
            additional_properties: None,
        }
    }

    /// Whether the schema is well formed: no name stands twice in its list
    /// of properties.
    pub open spec fn well_formed(self) -> bool {
        distinct_names(self.entries())
    }

    /// Adding a property keeps a schema well formed and makes the name
    /// known; the properties under other names stay known or unknown as
    /// they were.
    pub proof fn lemma_with_property_keeps_well_formed(
        self,
        name: Seq<char>,
        property: PropertyDefView,
        required: bool,
    )
        requires
            self.well_formed(),
        ensures
            self.with_property(name, property, required).well_formed(),
            has_name(self.with_property(name, property, required).entries(), name),
            forall|other: Seq<char>|
                other != name ==> has_name(
                    self.with_property(name, property, required).entries(),
                    other,
                ) == has_name(self.entries(), other),
    {
        lemma_inserted_keeps_names_distinct(self.entries(), name, property);
    }

    /// The properties of the schema; none where the list is absent.
    pub open spec fn entries(self) -> Seq<(Seq<char>, PropertyDefView)> {
        match self.properties {
            Some(entries) => entries,
            None => Seq::empty(),
        }
    }

    /// The schema after `property` was added under `name`: the property
    /// goes into the list of properties, which comes into being where it
    /// was absent; where the property is required, its name goes to the end
    /// of the list of required names, which comes into being likewise.
    pub open spec fn with_property(
        self,
        name: Seq<char>,
        property: PropertyDefView,
        required: bool,
    ) -> JsonSchemaView {
        JsonSchemaView {
            properties: Some(inserted(self.entries(), name, property)),
            required: if required {
                Some(
                    match self.required {
                        Some(names) => names.push(name),
                        None => seq![name],
                    },
                )
            } else {
                self.required
            },
            ..self
        }
    }

    /// The JSON form: an object with the member `type` and, each where it
    /// is given, `properties`, `required` and `additional_properties`.
    pub open spec fn to_json(self) -> JsonView {
        let members = seq![("type"@, JsonView::Str(self.kind))];
        let members = with_optional_member(
            members,
            "properties"@,
            match self.properties {
                Some(entries) => Some(PropertyDefView::entries_to_json(entries)),
                None => None,
            },
        );
        let members = with_optional_member(
            members,
            "required"@,
            match self.required {
                Some(names) => Some(string_array(names)),
                None => None,
            },
        );
        let members = with_optional_member(
            members,
            "additional_properties"@,
            match self.additional_properties {
                Some(allowed) => Some(JsonView::Bool(allowed)),
                None => None,
            },
        );
        JsonView::Object(members)
    }
}

impl JsonSchema {
    /// The schema of an object without properties.
    pub fn object() -> (schema: Self)
        ensures
            schema@ == JsonSchemaView::object(),
            schema@.well_formed(),
    {
        let properties: Vec<(String, PropertyDef)> = Vec::new();
        assert(entries_view(properties) =~= Seq::empty());
        JsonSchema {
            kind: "object".to_owned(),
            properties: Some(properties),
            required: None,
            additional_properties: None,
        }
    }

    /// The schema of an object that says nothing of its properties.
    pub fn empty_object() -> (schema: Self)
        ensures
            schema@ == JsonSchemaView::empty_object(),
            schema@.well_formed(),
    {
        JsonSchema {
            kind: "object".to_owned(),
            properties: None,
            required: None,
            additional_properties: None,
        }
    }

    /// The JSON form of the schema.
    pub fn to_json(&self) -> (json: Json)
        ensures
            json@ == self@.to_json(),
    {
        let mut members: Vec<(String, Json)> = Vec::new();
        put(&mut members, "type", Json::string(self.kind.as_str()));
        assert(members_view(members) =~= seq![("type"@, JsonView::Str(self.kind@))]);
        let properties = match &self.properties {
            Some(entries) => Some(PropertyDef::entries_to_json(entries)),
            None => None,
        };
        put_optional(&mut members, "properties", properties);
        let required = match &self.required {
            Some(names) => Some(Json::string_array(names)),
            None => None,
        };
        put_optional(&mut members, "required", required);
        let additional = match self.additional_properties {
            Some(allowed) => Some(Json::Bool(allowed)),
            None => None,
        };
        put_optional(&mut members, "additional_properties", additional);
        Json::object(members)
    }
}

/// Puts `property` into `entries` under `name`.
fn insert_property(entries: &mut Vec<(String, PropertyDef)>, name: &str, property: PropertyDef)
    ensures
        entries_view(*final(entries)) == inserted(entries_view(*old(entries)), name@, property@),
{
    let ghost before = entries_view(*entries);
    let wanted = name.to_owned();
    let mut i: usize = 0;
    while i < entries.len()
        invariant
            i <= entries.len(),
            *entries == *old(entries),
            wanted@ == name@,
            before == entries_view(*entries),
            forall|j: int| 0 <= j < i ==> (#[trigger] before[j]).0 != name@,
        decreases entries.len() - i,
    {
        if entries[i].0 == wanted {
            assert(before[i as int].0 == name@);
            entries[i].1 = property;
            assert(entries_view(*entries) =~= before.update(i as int, (name@, property@)));
            return ;
        }
        i += 1;
    }
    entries.push((wanted, property));
    assert(entries_view(*entries) =~= before.push((name@, property@)));
}

/// A tool that the model may ask for.
#[derive(Debug)]
pub struct Tool {
    /// The name by which the model asks for the tool.
    pub name: String,
    /// What the tool does.
    pub description: Option<String>,
    /// The schema of the tool's input.
    pub input_schema: JsonSchema,
    /// Whether the prompt may be cached up to this tool.
    pub cache_control: Option<CacheControl>,
}

/// The mathematical form of a [`Tool`].
pub struct ToolView {
    pub name: Seq<char>,
    pub description: Option<Seq<char>>,
    pub input_schema: JsonSchemaView,
    pub cache_control: Option<CacheControlView>,
}

impl View for Tool {
    type V = ToolView;

    open spec fn view(&self) -> ToolView {
        ToolView {
            name: self.name@,
            description: self.description.deep_view(),
            input_schema: self.input_schema@,
            cache_control: self.cache_control.deep_view(),
        }
    }
}

impl DeepView for Tool {
    type V = ToolView;

    open spec fn deep_view(&self) -> ToolView {
        self@
    }
}

impl ToolView {
    /// The tool after `property` was added to its schema under `name`.
    pub open spec fn with_property(
        self,
        name: Seq<char>,
        property: PropertyDefView,
        required: bool,
    ) -> ToolView {
        ToolView { input_schema: self.input_schema.with_property(name, property, required), ..self }
    }

    /// The JSON form: an object with the members `name` and
    /// `input_schema` and, each where it is given, `description` and
    /// `cache_control`.
    pub open spec fn to_json(self) -> JsonView {
        let members = seq![("name"@, JsonView::Str(self.name))];
        let members = with_optional_member(
            members,
            "description"@,
            match self.description {
                Some(description) => Some(JsonView::Str(description)),
                None => None,
            },
        );
        let members = with_member(members, "input_schema"@, self.input_schema.to_json());
        let members = with_optional_member(
            members,
            "cache_control"@,
            match self.cache_control {
                Some(control) => Some(control.to_json()),
                None => None,
            },
        );
        JsonView::Object(members)
    }
}

impl Tool {
    /// A tool called `name` whose input is an object without properties.
    pub fn new(name: &str) -> (tool: Self)
        ensures
            tool@ == (ToolView {
                name: name@,
                description: None,
                input_schema: JsonSchemaView::object(),
                cache_control: None,
            }),
            tool@.input_schema.well_formed(),
    {
        Tool {
            name: name.to_owned(),
            description: None,
            input_schema: JsonSchema::object(),
            cache_control: None,
        }
    }

    /// Says what the tool does.
    pub fn description(&mut self, desc: &str) -> (this: &mut Self)
        ensures
            this@ == (ToolView { description: Some(desc@), ..old(self)@ }),
            *final(self) == *final(this),
    {
        self.description = Some(desc.to_owned());
        self
    }

    /// Adds `property` to the schema under `name`.
    fn add_property(&mut self, name: &str, property: PropertyDef, required: bool) -> (this:
        &mut Self)
        ensures
            this@ == old(self)@.with_property(name@, property@, required),
            old(self)@.input_schema.well_formed() ==> this@.input_schema.well_formed(),
            *final(self) == *final(this),
    {
        proof {
            if old(self)@.input_schema.well_formed() {
                old(self)@.input_schema.lemma_with_property_keeps_well_formed(
                    name@,
                    property@,
                    required,
                );
            }
        }
        if self.input_schema.properties.is_none() {
            let properties: Vec<(String, PropertyDef)> = Vec::new();
            assert(entries_view(properties) =~= Seq::empty());
            self.input_schema.properties = Some(properties);
        }
        match &mut self.input_schema.properties {
            Some(entries) => {
                insert_property(entries, name, property);
            },
            None => {},
        }
        if required {
            if self.input_schema.required.is_none() {
                self.input_schema.required = Some(Vec::new());
            }
            match &mut self.input_schema.required {
                Some(names) => {
                    names.push(name.to_owned());
                },
                None => {},
            }
            assert(self.input_schema.required.deep_view()->Some_0 =~= old(
                self,
            )@.with_property(name@, property@, required).input_schema.required->Some_0);
        }
        self
    }

    /// Adds a string property.
    pub fn add_string_property(&mut self, name: &str, description: Option<&str>, required: bool) -> (this:
        &mut Self)
        ensures
            this@ == old(self)@.with_property(
                name@,
                PropertyDefView::plain("string"@, description.deep_view()),
                required,
            ),
            old(self)@.input_schema.well_formed() ==> this@.input_schema.well_formed(),
            *final(self) == *final(this),
    {
        self.add_property(name, PropertyDef::string(owned(description)), required)
    }

    /// Adds a number property.
    pub fn add_number_property(&mut self, name: &str, description: Option<&str>, required: bool) -> (this:
        &mut Self)
        ensures
            this@ == old(self)@.with_property(
                name@,
                PropertyDefView::plain("number"@, description.deep_view()),
                required,
            ),
            old(self)@.input_schema.well_formed() ==> this@.input_schema.well_formed(),
            *final(self) == *final(this),
    {
        self.add_property(name, PropertyDef::number(owned(description)), required)
    }

    /// Adds a boolean property.
    pub fn add_boolean_property(&mut self, name: &str, description: Option<&str>, required: bool) -> (this:
        &mut Self)
        ensures
            this@ == old(self)@.with_property(
                name@,
                PropertyDefView::plain("boolean"@, description.deep_view()),
                required,
            ),
            old(self)@.input_schema.well_formed() ==> this@.input_schema.well_formed(),
            *final(self) == *final(this),
    {
        self.add_property(name, PropertyDef::boolean(owned(description)), required)
    }

    /// Adds a string property that may take one of `values` only.
    pub fn add_enum_property(
        &mut self,
        name: &str,
        description: Option<&str>,
        values: Vec<&str>,
        required: bool,
    ) -> (this: &mut Self)
        ensures
            this@ == old(self)@.with_property(
                name@,
                PropertyDefView {
                    enum_values: Some(values.deep_view()),
                    ..PropertyDefView::plain("string"@, description.deep_view())
                },
                required,
            ),
            old(self)@.input_schema.well_formed() ==> this@.input_schema.well_formed(),
            *final(self) == *final(this),
    {
        let mut owned_values: Vec<String> = Vec::new();
        let mut i: usize = 0;
        while i < values.len()
            invariant
                i <= values.len(),
                owned_values.len() == i,
                forall|j: int| 0 <= j < i ==> (#[trigger] owned_values[j])@ == values[j]@,
            decreases values.len() - i,
        {
            owned_values.push(values[i].to_owned());
            i += 1;
        }
        assert(owned_values.deep_view() =~= values.deep_view());
        self.add_property(name, PropertyDef::enum_type(owned(description), owned_values), required)
    }

    /// Adds an array property whose items are as `items` says.
    pub fn add_array_property(
        &mut self,
        name: &str,
        description: Option<&str>,
        items: PropertyDef,
        required: bool,
    ) -> (this: &mut Self)
        ensures
            this@ == old(self)@.with_property(
                name@,
                PropertyDefView {
                    items: Some(Box::new(items@)),
                    ..PropertyDefView::plain("array"@, description.deep_view())
                },
                required,
            ),
            old(self)@.input_schema.well_formed() ==> this@.input_schema.well_formed(),
            *final(self) == *final(this),
    {
        self.add_property(name, PropertyDef::array(owned(description), items), required)
    }

    /// Lets the prompt be cached up to this tool.
    pub fn with_cache(&mut self) -> (this: &mut Self)
        ensures
            this@ == (ToolView {
                cache_control: Some(CacheControlView::ephemeral()),
                ..old(self)@
            }),
            *final(self) == *final(this),
    {
        self.cache_control = Some(CacheControl::ephemeral());
        self
    }

    /// The JSON form of the tool, as a request carries it.
    pub fn to_value(&self) -> (json: Json)
        ensures
            json@ == self@.to_json(),
    {
        let mut members: Vec<(String, Json)> = Vec::new();
        put(&mut members, "name", Json::string(self.name.as_str()));
        assert(members_view(members) =~= seq![("name"@, JsonView::Str(self.name@))]);
        put_optional(&mut members, "description", Json::optional_string(&self.description));
        put(&mut members, "input_schema", self.input_schema.to_json());
        let cache_control = match &self.cache_control {
            Some(control) => Some(control.to_json()),
            None => None,
        };
        put_optional(&mut members, "cache_control", cache_control);
        Json::object(members)
    }

    /// The finished tool.
    pub fn build(self) -> (tool: Self)
        ensures
            tool == self,
    {
        self
    }
}

/// An owned copy of a text that may be absent.
fn owned(text: Option<&str>) -> (copy: Option<String>)
    ensures
        copy.deep_view() == text.deep_view(),
{
    match text {
        Some(text) => Some(text.to_owned()),
        None => None,
    }
}

} // verus!
