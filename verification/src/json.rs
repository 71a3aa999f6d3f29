//! The library's own JSON tree. The house layout is rendered to and read
//! from this tree; an adapter outside the library turns it into the text
//! form of whatever JSON crate carries it over the wire.
//!
//! Numbers are unsigned integers: every number in the layout model is a
//! count or a length in centimeters.
use vstd::prelude::*;

use crate::http::str_eq;

verus! {

/// Why a JSON value could not be read back into a layout value.
#[derive(Debug, Clone, Copy, PartialEq, Eq, Structural)]
pub enum LayoutError {
    /// A named entry was expected.
    NotAnObject,
    /// A required field is missing.
    MissingField,
    /// A field expected to be a number is something else.
    NumberExpected,
    /// A field expected to be text is something else.
    TextExpected,
    /// A field expected to be an array is something else.
    ArrayExpected,
    /// An array element could not be read.
    InvalidElement,
}

/// One JSON value: a named entry, an object of entries, an array, or a
/// leaf.
#[derive(Debug)]
pub enum JsonValue {
    Null,
    Bool(bool),
    Number(u64),
    Text(String),
    Array(Vec<JsonValue>),
    Entry { name: String, value: Box<JsonValue> },
    Object(Vec<JsonValue>),
}

/// The spec-level image of a JSON value.
#[verifier::ext_equal]
pub ghost enum JsonView {
    Null,
    Bool(bool),
    Number(u64),
    Text(Seq<char>),
    Array(Seq<JsonView>),
    Entry { name: Seq<char>, value: Box<JsonView> },
    Object(Seq<JsonView>),
}

/// The spec-level image of a JSON value.
pub open spec fn spec_json_view(j: JsonValue) -> JsonView
    decreases j,
{
    match j {
        JsonValue::Null => JsonView::Null,
        JsonValue::Bool(b) => JsonView::Bool(b),
        JsonValue::Number(n) => JsonView::Number(n),
        JsonValue::Text(s) => JsonView::Text(s@),
        JsonValue::Array(items) => JsonView::Array(spec_json_views(items@)),
        JsonValue::Entry { name, value } => JsonView::Entry {
            name: name@,
            value: Box::new(spec_json_view(*value)),
        },
        JsonValue::Object(items) => JsonView::Object(spec_json_views(items@)),
    }
}

/// The spec-level images of a list of JSON values, elementwise.
pub open spec fn spec_json_views(items: Seq<JsonValue>) -> Seq<JsonView>
    decreases items,
{
    if items.len() == 0 {
        Seq::empty()
    } else {
        seq![spec_json_view(items[0])] + spec_json_views(items.subrange(1, items.len() as int))
    }
}

/// The images of a list are as long as the list.
pub broadcast proof fn lemma_json_views_len(items: Seq<JsonValue>)
    ensures
        #[trigger] spec_json_views(items).len() == items.len(),
    decreases items.len(),
{
    if items.len() > 0 {
        lemma_json_views_len(items.subrange(1, items.len() as int));
    }
}

/// The image of a list holds each element's image, in place.
pub broadcast proof fn lemma_json_views_index(items: Seq<JsonValue>, i: int)
    requires
        0 <= i < items.len(),
    ensures
        #[trigger] spec_json_views(items)[i] == spec_json_view(items[i]),
    decreases items.len(),
{
    lemma_json_views_len(items);
    if i > 0 {
        lemma_json_views_index(items.subrange(1, items.len() as int), i - 1);
    }
}

impl View for JsonValue {
    type V = JsonView;

    open spec fn view(&self) -> JsonView {
        spec_json_view(*self)
    }
}

/// A list whose elements' images match a given list elementwise has that
/// list as its image.
pub proof fn lemma_views_elems(items: Seq<JsonValue>, want: Seq<JsonView>)
    requires
        items.len() == want.len(),
        forall|i: int| 0 <= i < items.len() ==> spec_json_view(#[trigger] items[i]) == want[i],
    ensures
        spec_json_views(items) == want,
{
    lemma_json_views_len(items);
    assert forall|i: int| 0 <= i < items.len() implies #[trigger] spec_json_views(items)[i]
        == want[i] by {
        lemma_json_views_index(items, i);
    }
    assert(spec_json_views(items) =~= want);
}

/// The first entry with the given name, at or after position `i`.
pub open spec fn spec_entries_get_from(items: Seq<JsonView>, name: Seq<char>, i: int) -> Option<
    JsonView,
>
    decreases items.len() - i,
{
    if i < 0 || i >= items.len() {
        None
    } else if items[i] matches JsonView::Entry { name: n, .. } && n == name {
        Some(items[i])
    } else {
        spec_entries_get_from(items, name, i + 1)
    }
}

/// What looking a field up in a JSON value yields: the first entry of that
/// name in an object, or in the object a named entry holds; `None` on any
/// other shape.
pub open spec fn spec_json_get(j: JsonView, name: Seq<char>) -> Option<JsonView> {
    match j {
        JsonView::Object(items) => spec_entries_get_from(items, name, 0),
        JsonView::Entry { name: _, value } => match *value {
            JsonView::Object(items) => spec_entries_get_from(items, name, 0),
            _ => None,
        },
        _ => None,
    }
}

/// The value a named entry holds; the value itself when it is no entry.
pub open spec fn spec_json_peel(j: JsonView) -> JsonView {
    match j {
        JsonView::Entry { name: _, value } => *value,
        _ => j,
    }
}

/// The first entry with the given name in a list, exactly as
/// `spec_entries_get_from` says.
fn entries_get<'a>(items: &'a Vec<JsonValue>, search: &str) -> (r: Option<&'a JsonValue>)
    ensures
        match r {
            Some(v) => spec_entries_get_from(spec_json_views(items@), search@, 0) == Some(v@),
            None => spec_entries_get_from(spec_json_views(items@), search@, 0) is None,
        },
{
    let ghost iv = spec_json_views(items@);
    proof {
        lemma_json_views_len(items@);
    }
    let mut i: usize = 0;
    while i < items.len()
        invariant
            i <= items@.len(),
            iv == spec_json_views(items@),
            iv.len() == items@.len(),
            spec_entries_get_from(iv, search@, 0) == spec_entries_get_from(iv, search@, i as int),
        decreases items@.len() - i,
    {
        proof {
            lemma_json_views_index(items@, i as int);
        }
        match &items[i] {
            JsonValue::Entry { name, value: _ } => {
                if str_eq(name.as_str(), search) {
                    proof {
                        assert(spec_entries_get_from(iv, search@, i as int) == Some(
                            iv[i as int],
                        ));
                    }
                    return Some(&items[i]);
                }
            },
            _ => {},
        }
        i = i + 1;
        proof {
            assert(spec_entries_get_from(iv, search@, i - 1) == spec_entries_get_from(
                iv,
                search@,
                i as int,
            ));
        }
    }
    None
}

impl JsonValue {
    /// The first entry with the given name in an object, or in the object
    /// a named entry holds, exactly as `spec_json_get` says. Any other
    /// shape has no fields.
    pub fn get<'a>(&'a self, search: &str) -> (r: Option<&'a JsonValue>)
        ensures
            match r {
                Some(v) => spec_json_get(self@, search@) == Some(v@),
                None => spec_json_get(self@, search@) is None,
            },
    {
        match self {
            JsonValue::Object(items) => {
                proof {
                    assert(self@ == JsonView::Object(spec_json_views(items@)));
                }
                entries_get(items, search)
            },
            JsonValue::Entry { name: _, value } => match &**value {
                JsonValue::Object(items) => {
                    proof {
                        assert((**value)@ == JsonView::Object(spec_json_views(items@)));
                        assert(self@ matches JsonView::Entry { name: _, value: v } && *v == (
                        **value)@);
                    }
                    entries_get(items, search)
                },
                _ => None,
            },
            _ => None,
        }
    }

    /// The value a named entry holds; the value itself when it is no
    /// entry, exactly as `spec_json_peel` says.
    pub fn peel<'a>(&'a self) -> (r: &'a JsonValue)
        ensures
            r@ == spec_json_peel(self@),
    {
        match self {
            JsonValue::Entry { name: _, value } => &**value,
            _ => self,
        }
    }
}

/// What reading a numeric field yields: the number a named entry of that
/// name holds, `None` when the field is absent, and `NumberExpected` when
/// the field holds anything but a number.
pub open spec fn spec_json_number_field(j: JsonView, name: Seq<char>) -> Result<
    Option<u64>,
    LayoutError,
> {
    match spec_json_get(j, name) {
        None => Ok(None),
        Some(e) => match spec_json_peel(e) {
            JsonView::Number(n) => Ok(Some(n)),
            _ => Err(LayoutError::NumberExpected),
        },
    }
}

/// Reads a numeric field, exactly as `spec_json_number_field` says.
pub fn json_number_field(j: &JsonValue, name: &str) -> (r: Result<Option<u64>, LayoutError>)
    ensures
        match r {
            Ok(n) => spec_json_number_field(j@, name@) == Ok::<Option<u64>, LayoutError>(n),
            Err(e) => spec_json_number_field(j@, name@) == Err::<Option<u64>, LayoutError>(e),
        },
{
    match j.get(name) {
        None => Ok(None),
        Some(e) => match e.peel() {
            JsonValue::Number(n) => Ok(Some(*n)),
            _ => Err(LayoutError::NumberExpected),
        },
    }
}

/// What reading an array field yields: the elements a named entry of that
/// name holds, `None` when the field is absent or null, and
/// `ArrayExpected` when the field holds anything else.
pub open spec fn spec_json_array_field(j: JsonView, name: Seq<char>) -> Result<
    Option<Seq<JsonView>>,
    LayoutError,
> {
    match spec_json_get(j, name) {
        None => Ok(None),
        Some(e) => match spec_json_peel(e) {
            JsonView::Array(items) => Ok(Some(items)),
            JsonView::Null => Ok(None),
            _ => Err(LayoutError::ArrayExpected),
        },
    }
}

/// Reads an array field, exactly as `spec_json_array_field` says.
pub fn json_array_field<'a>(j: &'a JsonValue, name: &str) -> (r: Result<
    Option<&'a Vec<JsonValue>>,
    LayoutError,
>)
    ensures
        match r {
            Ok(Some(items)) => spec_json_array_field(j@, name@) matches Ok(o) && o matches Some(s)
                && s == spec_json_views(items@),
            Ok(None) => spec_json_array_field(j@, name@) matches Ok(o) && o is None,
            Err(e) => spec_json_array_field(j@, name@) == Err::<Option<Seq<JsonView>>, LayoutError>(
                e,
            ),
        },
{
    match j.get(name) {
        None => Ok(None),
        Some(e) => match e.peel() {
            JsonValue::Array(items) => Ok(Some(items)),
            JsonValue::Null => Ok(None),
            _ => Err(LayoutError::ArrayExpected),
        },
    }
}

} // verus!
