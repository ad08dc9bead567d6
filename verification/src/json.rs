//! JSON documents as plain values.
use crate::text::same;
use vstd::prelude::*;
use vstd::string::*;

verus! {

/// A JSON value. A number is held by what it is as an unsigned integer of 64
/// bits, where it is one.
#[derive(Debug, PartialEq, Eq)]
pub enum Json {
    Null,
    Bool(bool),
    Number(Option<u64>),
    Text(String),
    Array(Vec<Json>),
    /// The fields, ordered by their names; no name occurs twice.
    Object(Vec<(String, Json)>),
}

#[verifier::external_type_specification]
#[verifier::external_body]
pub struct ExValue(serde_json::Value);

/// What a text is as a JSON document, or else why it is none.
pub uninterp spec fn document(raw: Seq<char>) -> Result<Json, Seq<char>>;

/// Reads a JSON document, by `serde_json::from_str` into `serde_json::Value`.
/// The value, or else the error's own sentence, depends on the text alone.
#[verifier::external_body]
pub(crate) fn parse_document(raw: &str) -> (r: Result<Json, String>)
    ensures
        match r {
            Ok(value) => document(raw@) == Ok::<Json, Seq<char>>(value),
            Err(e) => document(raw@) == Err::<Json, Seq<char>>(e@),
        },
{
    match serde_json::from_str::<serde_json::Value>(raw) {
        Ok(value) => Ok(plain(value)),
        Err(err) => Err(err.to_string()),
    }
}

/// A `serde_json::Value` as a plain value, variant by variant; of a number,
/// what `serde_json::Number::as_u64` gives.
#[verifier::external_body]
fn plain(value: serde_json::Value) -> Json {
    match value {
        serde_json::Value::Null => Json::Null,
        serde_json::Value::Bool(b) => Json::Bool(b),
        serde_json::Value::Number(n) => Json::Number(n.as_u64()),
        serde_json::Value::String(s) => Json::Text(s),
        serde_json::Value::Array(items) => Json::Array(items.into_iter().map(plain).collect()),
        serde_json::Value::Object(fields) => {
            Json::Object(fields.into_iter().map(|(name, field)| (name, plain(field))).collect())
        },
    }
}

/// The value of the first field with that name.
pub open spec fn field(fields: Seq<(String, Json)>, name: Seq<char>) -> Option<Json>
    decreases fields.len(),
{
    if fields.len() == 0 {
        None
    } else if fields[0].0@ == name {
        Some(fields[0].1)
    } else {
        field(fields.drop_first(), name)
    }
}

/// The value of the field with that name.
pub fn get_field<'a>(fields: &'a Vec<(String, Json)>, name: &str) -> (r: Option<&'a Json>)
    ensures
        match r {
            Some(v) => field(fields@, name@) == Some(*v),
            None => field(fields@, name@) is None,
        },
{
    let mut i: usize = 0;
    assert(fields@.skip(0) =~= fields@);
    while i < fields.len()
        invariant
            i <= fields@.len(),
            field(fields@, name@) == field(fields@.skip(i as int), name@),
        decreases fields@.len() - i,
    {
        assert(fields@.skip(i as int).drop_first() =~= fields@.skip(i + 1));
        if same(fields[i].0.as_str(), name) {
            return Some(&fields[i].1);
        }
        i = i + 1;
    }
    None
}

impl Json {
    /// The fields of an object.
    pub open spec fn fields(self) -> Option<Seq<(String, Json)>> {
        match self {
            Json::Object(fields) => Some(fields@),
            _ => None,
        }
    }

    /// The value of a field; none where this is no object or has no such
    /// field.
    pub open spec fn at(self, name: Seq<char>) -> Option<Json> {
        match self {
            Json::Object(fields) => field(fields@, name),
            _ => None,
        }
    }

    /// The text, where this is one.
    pub open spec fn text(self) -> Option<Seq<char>> {
        match self {
            Json::Text(s) => Some(s@),
            _ => None,
        }
    }

    /// The text in a field; none where there is no such field or it is no text.
    pub open spec fn text_at(self, name: Seq<char>) -> Option<Seq<char>> {
        match self.at(name) {
            Some(v) => v.text(),
            None => None,
        }
    }

    /// The text in a field of the object in a field.
    pub open spec fn text_within(self, outer: Seq<char>, name: Seq<char>) -> Option<Seq<char>> {
        match self.at(outer) {
            Some(v) => v.text_at(name),
            None => None,
        }
    }

    pub fn get(&self, name: &str) -> (r: Option<&Json>)
        ensures
            match r {
                Some(v) => self.at(name@) == Some(*v),
                None => self.at(name@) is None,
            },
    {
        match self {
            Json::Object(fields) => get_field(fields, name),
            _ => None,
        }
    }

    /// A copy of the text in a field.
    pub fn get_text(&self, name: &str) -> (r: Option<String>)
        ensures
            r.deep_view() == self.text_at(name@),
    {
        match self.get(name) {
            Some(Json::Text(s)) => Some(s.clone()),
            _ => None,
        }
    }

    /// A copy of the text in a field of the object in a field.
    pub fn get_text_within(&self, outer: &str, name: &str) -> (r: Option<String>)
        ensures
            r.deep_view() == self.text_within(outer@, name@),
    {
        match self.get(outer) {
            Some(v) => v.get_text(name),
            None => None,
        }
    }
}

/// A field is found exactly where some field has its name, and then with what
/// the first such field holds.
pub proof fn law_fields_are_found_by_their_names(value: Json, name: &str, r: Option<&Json>, k: int)
    requires
        call_ensures(Json::get, (&value, name), r),
        value matches Json::Object(fields) && 0 <= k < fields@.len() && fields@[k].0@ == name@
            && forall|i: int| 0 <= i < k ==> (#[trigger] fields@[i]).0@ != name@,
    ensures
        r matches Some(v) && *v == value->Object_0@[k].1,
{
    lemma_field_at(value->Object_0@, name@, k);
}

proof fn lemma_field_at(fields: Seq<(String, Json)>, name: Seq<char>, k: int)
    requires
        0 <= k < fields.len(),
        fields[k].0@ == name,
        forall|i: int| 0 <= i < k ==> (#[trigger] fields[i]).0@ != name,
    ensures
        field(fields, name) == Some(fields[k].1),
    decreases k,
{
    if k > 0 {
        assert(fields[0].0@ != name);
        let rest = fields.drop_first();
        assert forall|i: int| 0 <= i < k - 1 implies (#[trigger] rest[i]).0@ != name by {
            assert(rest[i] == fields[i + 1]);
        }
        lemma_field_at(rest, name, k - 1);
    }
}

/// A text is read from a field exactly where the field is there and holds one.
pub proof fn law_texts_are_read_from_fields(
    value: Json,
    name: &str,
    found: Option<&Json>,
    r: Option<String>,
)
    requires
        call_ensures(Json::get, (&value, name), found),
        call_ensures(Json::get_text, (&value, name), r),
    ensures
        r is Some <==> (found matches Some(v) && *v is Text),
        r matches Some(t) ==> (found matches Some(v) && (*v matches Json::Text(s) && s@ == t@)),
        !(value is Object) ==> found is None && r is None,
{
}

proof fn lemma_first_field(fields: Seq<(String, Json)>, name: Seq<char>, i: int)
    requires
        0 <= i < fields.len(),
        fields[i].0@ == name,
        forall|k: int| 0 <= k < i ==> (#[trigger] fields[k]).0@ != name,
    ensures
        field(fields, name) == Some(fields[i].1),
    decreases fields.len(),
{
    if i > 0 {
        let rest = fields.drop_first();
        assert(fields[0].0@ != name);
        assert(rest[i - 1] == fields[i]);
        assert forall|k: int| 0 <= k < i - 1 implies (#[trigger] rest[k]).0@ != name by {
            assert(rest[k] == fields[k + 1]);
        }
        lemma_first_field(rest, name, i - 1);
    }
}

proof fn lemma_no_field(fields: Seq<(String, Json)>, name: Seq<char>)
    requires
        forall|k: int| 0 <= k < fields.len() ==> (#[trigger] fields[k]).0@ != name,
    ensures
        field(fields, name) is None,
    decreases fields.len(),
{
    if fields.len() > 0 {
        let rest = fields.drop_first();
        assert forall|k: int| 0 <= k < rest.len() implies (#[trigger] rest[k]).0@ != name by {
            assert(rest[k] == fields[k + 1]);
        }
        assert(fields[0].0@ != name);
        lemma_no_field(rest, name);
    }
}

/// A field is found by its name, the first of that name where there are more, and
/// a name that no field bears finds none.
pub proof fn law_a_field_is_found_by_its_name(
    fields: Vec<(String, Json)>,
    name: &str,
    r: Option<&Json>,
    i: int,
)
    requires
        call_ensures(get_field, (&fields, name), r),
    ensures
        0 <= i < fields@.len() && fields@[i].0@ == name@ && (forall|k: int|
            0 <= k < i ==> (#[trigger] fields@[k]).0@ != name@) ==> (r matches Some(v) && *v
            == fields@[i].1),
        (forall|k: int| 0 <= k < fields@.len() ==> (#[trigger] fields@[k]).0@ != name@) ==> r is None,
{
    if 0 <= i < fields@.len() && fields@[i].0@ == name@ && (forall|k: int|
        0 <= k < i ==> (#[trigger] fields@[k]).0@ != name@) {
        lemma_first_field(fields@, name@, i);
    }
    if forall|k: int| 0 <= k < fields@.len() ==> (#[trigger] fields@[k]).0@ != name@ {
        lemma_no_field(fields@, name@);
    }
}

} // verus!
