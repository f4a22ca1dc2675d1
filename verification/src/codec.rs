use vstd::prelude::*;

use rustc_serialize::json::ParserError;

use crate::json::JsonSpec;
use crate::json::JsonValue;
use crate::json::written;

verus! {

/// Why a JSON document does not have the shape that was asked for.
#[derive(Debug)]
pub enum DecoderError {
    /// The text is no JSON at all.
    ParseError(ParserError),
    /// A value of the first kind was asked for; the second text was found.
    ExpectedError(String, String),
    /// The object lacks a member that cannot be left out.
    MissingFieldError(String),
    /// The document was refused before it was read, for the reason given.
    ApplicationError(String),
}

/// The mathematical value of a [`DecoderError`].
pub enum DecoderErrorView {
    ParseError(ParserError),
    ExpectedError(Seq<char>, Seq<char>),
    MissingFieldError(Seq<char>),
    ApplicationError(Seq<char>),
}

impl DeepView for DecoderError {
    type V = DecoderErrorView;

    open spec fn deep_view(&self) -> DecoderErrorView {
        match self {
            DecoderError::ParseError(e) => DecoderErrorView::ParseError(*e),
            DecoderError::ExpectedError(kind, found) => DecoderErrorView::ExpectedError(kind@, found@),
            DecoderError::MissingFieldError(name) => DecoderErrorView::MissingFieldError(name@),
            DecoderError::ApplicationError(reason) => DecoderErrorView::ApplicationError(reason@),
        }
    }
}

/// A result seen through the values of what it holds.
pub open spec fn result_view<T: DeepView, E: DeepView>(r: Result<T, E>) -> Result<T::V, E::V> {
    match r {
        Ok(v) => Ok(v.deep_view()),
        Err(e) => Err(e.deep_view()),
    }
}

/// The number that `str::parse::<u64>` reads from a text, if it reads one.
pub uninterp spec fn parse_unsigned(text: Seq<char>) -> Option<u64>;

/// How a value that was found is shown in an error: as its JSON text, or
/// as three dots where it is nested too deeply to be written.
pub open spec fn shown(found: JsonSpec) -> Seq<char> {
    match written(found) {
        Some(text) => text,
        None => "..."@,
    }
}

/// The error that tells which kind was asked for and shows what was found.
pub open spec fn expected(kind: Seq<char>, found: JsonSpec) -> DecoderErrorView {
    DecoderErrorView::ExpectedError(kind, shown(found))
}

/// A text value read as a text.
pub open spec fn read_string(j: JsonSpec) -> Result<Seq<char>, DecoderErrorView> {
    match j {
        JsonSpec::String(s) => Ok(s),
        _ => Err(expected("String"@, j)),
    }
}

/// A truth value read as one.
pub open spec fn read_boolean(j: JsonSpec) -> Result<bool, DecoderErrorView> {
    match j {
        JsonSpec::Boolean(b) => Ok(b),
        _ => Err(expected("Boolean"@, j)),
    }
}

/// A number read as an unsigned integer. A text that spells one is taken
/// for it.
pub open spec fn read_unsigned(j: JsonSpec) -> Result<u64, DecoderErrorView> {
    match j {
        JsonSpec::I64(i) => if i >= 0 {
            Ok(i as u64)
        } else {
            Err(expected("Number"@, j))
        },
        JsonSpec::U64(u) => Ok(u),
        JsonSpec::F64(t) => Err(DecoderErrorView::ExpectedError("Integer"@, t)),
        JsonSpec::String(s) => match parse_unsigned(s) {
            Some(n) => Ok(n),
            None => Err(DecoderErrorView::ExpectedError("Number"@, s)),
        },
        _ => Err(expected("Number"@, j)),
    }
}

/// A value that may be `null`, which reads as nothing.
pub open spec fn read_option<T>(
    j: JsonSpec,
    read: spec_fn(JsonSpec) -> Result<T, DecoderErrorView>,
) -> Result<Option<T>, DecoderErrorView> {
    match j {
        JsonSpec::Null => Ok(None),
        _ => match read(j) {
            Ok(v) => Ok(Some(v)),
            Err(e) => Err(e),
        },
    }
}

/// The items read one by one; the first that fails decides.
pub open spec fn read_items<T>(
    items: Seq<JsonSpec>,
    read: spec_fn(JsonSpec) -> Result<T, DecoderErrorView>,
) -> Result<Seq<T>, DecoderErrorView>
    decreases items.len(),
{
    if items.len() == 0 {
        Ok(Seq::empty())
    } else {
        match read_items(items.drop_last(), read) {
            Err(e) => Err(e),
            Ok(head) => match read(items.last()) {
                Err(e) => Err(e),
                Ok(v) => Ok(head.push(v)),
            },
        }
    }
}

/// An array read item by item.
pub open spec fn read_list<T>(
    j: JsonSpec,
    read: spec_fn(JsonSpec) -> Result<T, DecoderErrorView>,
) -> Result<Seq<T>, DecoderErrorView> {
    match j {
        JsonSpec::Array(items) => read_items(items, read),
        _ => Err(expected("Array"@, j)),
    }
}

/// The member `name` of an object, read with `read`. A member that is
/// missing reads as `null` does, and where `null` will not do it is reported
/// as missing.
pub open spec fn field<T>(
    obj: JsonSpec,
    name: Seq<char>,
    read: spec_fn(JsonSpec) -> Result<T, DecoderErrorView>,
) -> Result<T, DecoderErrorView> {
    match obj {
        JsonSpec::Object(_) => match obj.find(name) {
            Some(j) => read(j),
            None => match read(JsonSpec::Null) {
                Ok(v) => Ok(v),
                Err(_) => Err(DecoderErrorView::MissingFieldError(name)),
            },
        },
        _ => Err(expected("Object"@, obj)),
    }
}

/// The text of a member that must be there.
pub open spec fn string_field(obj: JsonSpec, name: Seq<char>) -> Result<Seq<char>, DecoderErrorView> {
    field(obj, name, |j: JsonSpec| read_string(j))
}

/// The text of a member that may be left out.
pub open spec fn opt_string_field(obj: JsonSpec, name: Seq<char>) -> Result<
    Option<Seq<char>>,
    DecoderErrorView,
> {
    field(obj, name, |j: JsonSpec| read_option(j, |x: JsonSpec| read_string(x)))
}

/// The truth value of a member that must be there.
pub open spec fn boolean_field(obj: JsonSpec, name: Seq<char>) -> Result<bool, DecoderErrorView> {
    field(obj, name, |j: JsonSpec| read_boolean(j))
}

/// The truth value of a member that may be left out.
pub open spec fn opt_boolean_field(obj: JsonSpec, name: Seq<char>) -> Result<
    Option<bool>,
    DecoderErrorView,
> {
    field(obj, name, |j: JsonSpec| read_option(j, |x: JsonSpec| read_boolean(x)))
}

/// The number of a member that must be there.
pub open spec fn unsigned_field(obj: JsonSpec, name: Seq<char>) -> Result<u64, DecoderErrorView> {
    field(obj, name, |j: JsonSpec| read_unsigned(j))
}

/// The number of a member that may be left out.
pub open spec fn opt_unsigned_field(obj: JsonSpec, name: Seq<char>) -> Result<
    Option<u64>,
    DecoderErrorView,
> {
    field(obj, name, |j: JsonSpec| read_option(j, |x: JsonSpec| read_unsigned(x)))
}

/// The texts of a member that may be left out and holds an array of them.
pub open spec fn opt_strings_field(obj: JsonSpec, name: Seq<char>) -> Result<
    Option<Seq<Seq<char>>>,
    DecoderErrorView,
> {
    field(
        obj,
        name,
        |j: JsonSpec| read_option(j, |x: JsonSpec| read_list(x, |y: JsonSpec| read_string(y))),
    )
}

/// `str::parse::<u64>`: the number that a text spells, or nothing. The
/// contract gives the outcome a name.
#[verifier::external_body]
fn text_to_unsigned(text: &str) -> (r: Option<u64>)
    ensures
        r == parse_unsigned(text@),
{
    text.parse::<u64>().ok()
}

/// The error that tells which kind was asked for and shows what was found.
pub fn expected_error(kind: &str, found: &JsonValue) -> (r: DecoderError)
    ensures
        r.deep_view() == expected(kind@, found.deep_view()),
{
    let text = match found.encode() {
        Some(text) => text,
        None => "...".to_owned(),
    };
    DecoderError::ExpectedError(kind.to_owned(), text)
}

/// Reads a text value.
pub fn to_text(j: &JsonValue) -> (r: Result<String, DecoderError>)
    ensures
        result_view(r) == read_string(j.deep_view()),
{
    match j {
        JsonValue::String(s) => Ok(s.clone()),
        _ => Err(expected_error("String", j)),
    }
}

/// Reads a truth value.
pub fn to_boolean(j: &JsonValue) -> (r: Result<bool, DecoderError>)
    ensures
        result_view(r) == read_boolean(j.deep_view()),
{
    match j {
        JsonValue::Boolean(b) => Ok(*b),
        _ => Err(expected_error("Boolean", j)),
    }
}

/// Reads an unsigned integer.
pub fn to_unsigned(j: &JsonValue) -> (r: Result<u64, DecoderError>)
    ensures
        result_view(r) == read_unsigned(j.deep_view()),
{
    match j {
        JsonValue::I64(i) => {
            if *i >= 0 {
                Ok(*i as u64)
            } else {
                Err(expected_error("Number", j))
            }
        },
        JsonValue::U64(u) => Ok(*u),
        JsonValue::F64(t) => Err(DecoderError::ExpectedError("Integer".to_owned(), t.clone())),
        JsonValue::String(s) => match text_to_unsigned(s.as_str()) {
            Some(n) => Ok(n),
            None => Err(DecoderError::ExpectedError("Number".to_owned(), s.clone())),
        },
        _ => Err(expected_error("Number", j)),
    }
}

/// Reads an array of text values.
pub fn to_texts(j: &JsonValue) -> (r: Result<Vec<String>, DecoderError>)
    ensures
        result_view(r) == read_list(j.deep_view(), |y: JsonSpec| read_string(y)),
{
    match j {
        JsonValue::Array(items) => {
            let ghost all = j.model()->Array_0;
            let ghost read = |y: JsonSpec| read_string(y);
            let mut out: Vec<String> = Vec::new();
            let mut i: usize = 0;
            assert(all.take(0) =~= Seq::empty());
            assert(out.deep_view() =~= Seq::empty());
            while i < items.len()
                invariant
                    i <= items.len(),
                    all.len() == items.len(),
                    j.model() == JsonSpec::Array(all),
                    forall|k: int| 0 <= k < items.len() ==> #[trigger] all[k] == items[k].model(),
                    read == (|y: JsonSpec| read_string(y)),
                    read_items(all.take(i as int), read) == Ok::<Seq<Seq<char>>, DecoderErrorView>(
                        out.deep_view(),
                    ),
                decreases items.len() - i,
            {
                let ghost before = out.deep_view();
                assert(all.take(i + 1).drop_last() =~= all.take(i as int));
                assert(all.take(i + 1).last() == items[i as int].model());
                match to_text(&items[i]) {
                    Ok(s) => {
                        out.push(s);
                        assert(out.deep_view() =~= before.push(s@));
                    },
                    Err(e) => {
                        proof {
                            lemma_read_items_fails(all, read, i + 1);
                        }
                        return Err(e);
                    },
                }
                i += 1;
            }
            assert(all.take(i as int) =~= all);
            Ok(out)
        },
        _ => Err(expected_error("Array", j)),
    }
}

/// Once a prefix of the items fails, the whole fails in the same way.
pub proof fn lemma_read_items_fails<T>(
    items: Seq<JsonSpec>,
    read: spec_fn(JsonSpec) -> Result<T, DecoderErrorView>,
    n: int,
)
    requires
        0 <= n <= items.len(),
        read_items(items.take(n), read) is Err,
    ensures
        read_items(items, read) == read_items(items.take(n), read),
    decreases items.len() - n,
{
    if n == items.len() {
        assert(items.take(n) =~= items);
    } else {
        assert(items.take(n + 1).drop_last() =~= items.take(n));
        lemma_read_items_fails(items, read, n + 1);
    }
}

/// Reads the text of a member that must be there.
pub fn get_string(obj: &JsonValue, name: &str) -> (r: Result<String, DecoderError>)
    ensures
        result_view(r) == string_field(obj.deep_view(), name@),
{
    match obj {
        JsonValue::Object(_) => match obj.find(name) {
            Some(j) => to_text(j),
            None => Err(DecoderError::MissingFieldError(name.to_owned())),
        },
        _ => Err(expected_error("Object", obj)),
    }
}

/// Reads the text of a member that may be left out.
pub fn get_opt_string(obj: &JsonValue, name: &str) -> (r: Result<Option<String>, DecoderError>)
    ensures
        result_view(r) == opt_string_field(obj.deep_view(), name@),
{
    match obj {
        JsonValue::Object(_) => match obj.find(name) {
            Some(JsonValue::Null) => Ok(None),
            Some(j) => match to_text(j) {
                Ok(s) => Ok(Some(s)),
                Err(e) => Err(e),
            },
            None => Ok(None),
        },
        _ => Err(expected_error("Object", obj)),
    }
}

/// Reads the truth value of a member that must be there.
pub fn get_boolean(obj: &JsonValue, name: &str) -> (r: Result<bool, DecoderError>)
    ensures
        result_view(r) == boolean_field(obj.deep_view(), name@),
{
    match obj {
        JsonValue::Object(_) => match obj.find(name) {
            Some(j) => to_boolean(j),
            None => Err(DecoderError::MissingFieldError(name.to_owned())),
        },
        _ => Err(expected_error("Object", obj)),
    }
}

/// Reads the truth value of a member that may be left out.
pub fn get_opt_boolean(obj: &JsonValue, name: &str) -> (r: Result<Option<bool>, DecoderError>)
    ensures
        result_view(r) == opt_boolean_field(obj.deep_view(), name@),
{
    match obj {
        JsonValue::Object(_) => match obj.find(name) {
            Some(JsonValue::Null) => Ok(None),
            Some(j) => match to_boolean(j) {
                Ok(b) => Ok(Some(b)),
                Err(e) => Err(e),
            },
            None => Ok(None),
        },
        _ => Err(expected_error("Object", obj)),
    }
}

/// Reads the number of a member that must be there.
pub fn get_unsigned(obj: &JsonValue, name: &str) -> (r: Result<u64, DecoderError>)
    ensures
        result_view(r) == unsigned_field(obj.deep_view(), name@),
{
    match obj {
        JsonValue::Object(_) => match obj.find(name) {
            Some(j) => to_unsigned(j),
            None => Err(DecoderError::MissingFieldError(name.to_owned())),
        },
        _ => Err(expected_error("Object", obj)),
    }
}

/// Reads the number of a member that may be left out.
pub fn get_opt_unsigned(obj: &JsonValue, name: &str) -> (r: Result<Option<u64>, DecoderError>)
    ensures
        result_view(r) == opt_unsigned_field(obj.deep_view(), name@),
{
    match obj {
        JsonValue::Object(_) => match obj.find(name) {
            Some(JsonValue::Null) => Ok(None),
            Some(j) => match to_unsigned(j) {
                Ok(n) => Ok(Some(n)),
                Err(e) => Err(e),
            },
            None => Ok(None),
        },
        _ => Err(expected_error("Object", obj)),
    }
}

/// Reads the texts of a member that may be left out and holds an array of
/// them.
pub fn get_opt_strings(obj: &JsonValue, name: &str) -> (r: Result<Option<Vec<String>>, DecoderError>)
    ensures
        result_view(r) == opt_strings_field(obj.deep_view(), name@),
{
    match obj {
        JsonValue::Object(_) => match obj.find(name) {
            Some(JsonValue::Null) => Ok(None),
            Some(j) => match to_texts(j) {
                Ok(list) => Ok(Some(list)),
                Err(e) => Err(e),
            },
            None => Ok(None),
        },
        _ => Err(expected_error("Object", obj)),
    }
}

} // verus!
