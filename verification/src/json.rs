use vstd::prelude::*;

use rustc_serialize::json::Json;
use rustc_serialize::json::ParserError;

use crate::codec::DecoderError;
use crate::codec::DecoderErrorView;
use crate::codec::result_view;
use crate::lazy::Lazy;
use crate::text::chars_of;
use crate::text::str_eq;

verus! {

#[verifier::external_type_specification]
#[verifier::external_body]
pub struct ExJson(Json);

#[verifier::external_type_specification]
#[verifier::external_body]
pub struct ExParserError(ParserError);

/// A JSON document as the library reads and builds it. The members of an
/// object are kept in the order in which they were given.
#[derive(Debug)]
pub enum JsonValue {
    I64(i64),
    U64(u64),
    /// A number with a fraction or an exponent, held as its decimal text.
    F64(String),
    String(String),
    Boolean(bool),
    Array(Vec<JsonValue>),
    Object(Vec<(String, JsonValue)>),
    Null,
}

/// The mathematical value of a [`JsonValue`].
pub enum JsonSpec {
    I64(i64),
    U64(u64),
    F64(Seq<char>),
    String(Seq<char>),
    Boolean(bool),
    Array(Seq<JsonSpec>),
    Object(Seq<(Seq<char>, JsonSpec)>),
    Null,
}

/// The value of the first member named `key` at or after position `from`.
pub open spec fn find_from(fields: Seq<(Seq<char>, JsonSpec)>, key: Seq<char>, from: int) -> Option<
    JsonSpec,
>
    decreases fields.len() - from,
{
    if from < 0 || from >= fields.len() {
        None
    } else if fields[from].0 == key {
        Some(fields[from].1)
    } else {
        find_from(fields, key, from + 1)
    }
}

/// The member that an absent value leaves out and a present one fills.
pub open spec fn member(key: Seq<char>, value: Option<JsonSpec>) -> Seq<(Seq<char>, JsonSpec)> {
    match value {
        Some(v) => seq![(key, v)],
        None => Seq::empty(),
    }
}

/// The member that a field of a resource puts into a partial update: none
/// while the field is not loaded.
pub open spec fn lazy_member(key: Seq<char>, field: Lazy<JsonSpec>) -> Seq<(Seq<char>, JsonSpec)> {
    match field {
        Lazy::Available(v) => seq![(key, v)],
        Lazy::NotLoaded => Seq::empty(),
    }
}

/// The member of a field that holds a text.
pub open spec fn lazy_string(key: Seq<char>, field: Lazy<Seq<char>>) -> Seq<(Seq<char>, JsonSpec)> {
    lazy_member(
        key,
        match field {
            Lazy::Available(v) => Lazy::Available(JsonSpec::String(v)),
            Lazy::NotLoaded => Lazy::NotLoaded,
        },
    )
}

/// The member of a field that holds a text or nothing.
pub open spec fn lazy_opt_string(key: Seq<char>, field: Lazy<Option<Seq<char>>>) -> Seq<
    (Seq<char>, JsonSpec),
> {
    lazy_member(
        key,
        match field {
            Lazy::Available(v) => Lazy::Available(JsonSpec::opt_string(v)),
            Lazy::NotLoaded => Lazy::NotLoaded,
        },
    )
}

/// The member of a field that holds a number.
pub open spec fn lazy_unsigned(key: Seq<char>, field: Lazy<u64>) -> Seq<(Seq<char>, JsonSpec)> {
    lazy_member(
        key,
        match field {
            Lazy::Available(v) => Lazy::Available(JsonSpec::U64(v)),
            Lazy::NotLoaded => Lazy::NotLoaded,
        },
    )
}

/// The member of a field that holds a number or nothing.
pub open spec fn lazy_opt_unsigned(key: Seq<char>, field: Lazy<Option<u64>>) -> Seq<
    (Seq<char>, JsonSpec),
> {
    lazy_member(
        key,
        match field {
            Lazy::Available(v) => Lazy::Available(JsonSpec::opt_unsigned(v)),
            Lazy::NotLoaded => Lazy::NotLoaded,
        },
    )
}

/// The member of a field that holds a truth value.
pub open spec fn lazy_boolean(key: Seq<char>, field: Lazy<bool>) -> Seq<(Seq<char>, JsonSpec)> {
    lazy_member(
        key,
        match field {
            Lazy::Available(v) => Lazy::Available(JsonSpec::Boolean(v)),
            Lazy::NotLoaded => Lazy::NotLoaded,
        },
    )
}

/// The member of a field that holds a truth value or nothing.
pub open spec fn lazy_opt_boolean(key: Seq<char>, field: Lazy<Option<bool>>) -> Seq<
    (Seq<char>, JsonSpec),
> {
    lazy_member(
        key,
        match field {
            Lazy::Available(v) => Lazy::Available(JsonSpec::opt_boolean(v)),
            Lazy::NotLoaded => Lazy::NotLoaded,
        },
    )
}

impl JsonSpec {
    /// The value of the first member named `key`, if this is an object that
    /// has one.
    pub open spec fn find(self, key: Seq<char>) -> Option<JsonSpec> {
        match self {
            JsonSpec::Object(fields) => find_from(fields, key, 0),
            _ => None,
        }
    }

    /// A text, or `null` where there is none.
    pub open spec fn opt_string(value: Option<Seq<char>>) -> JsonSpec {
        match value {
            Some(s) => JsonSpec::String(s),
            None => JsonSpec::Null,
        }
    }

    /// A number, or `null` where there is none.
    pub open spec fn opt_unsigned(value: Option<u64>) -> JsonSpec {
        match value {
            Some(n) => JsonSpec::U64(n),
            None => JsonSpec::Null,
        }
    }

    /// A truth value, or `null` where there is none.
    pub open spec fn opt_boolean(value: Option<bool>) -> JsonSpec {
        match value {
            Some(b) => JsonSpec::Boolean(b),
            None => JsonSpec::Null,
        }
    }

    /// The value of a text that may be missing.
    pub open spec fn some_string(value: Option<Seq<char>>) -> Option<JsonSpec> {
        match value {
            Some(s) => Some(JsonSpec::String(s)),
            None => None,
        }
    }

    /// The value of a number that may be missing.
    pub open spec fn some_unsigned(value: Option<u64>) -> Option<JsonSpec> {
        match value {
            Some(n) => Some(JsonSpec::U64(n)),
            None => None,
        }
    }

    /// An array of texts.
    pub open spec fn strings(items: Seq<Seq<char>>) -> JsonSpec {
        JsonSpec::Array(Seq::new(items.len(), |i: int| JsonSpec::String(items[i])))
    }
}

impl JsonValue {
    /// The mathematical value of this document.
    pub open spec fn model(&self) -> JsonSpec
        decreases self,
    {
        match self {
            JsonValue::I64(n) => JsonSpec::I64(*n),
            JsonValue::U64(n) => JsonSpec::U64(*n),
            JsonValue::F64(t) => JsonSpec::F64(t@),
            JsonValue::String(s) => JsonSpec::String(s@),
            JsonValue::Boolean(b) => JsonSpec::Boolean(*b),
            JsonValue::Array(items) => JsonSpec::Array(
                Seq::new(
                    items.len() as nat,
                    |i: int|
                        if 0 <= i < items.len() {
                            items[i].model()
                        } else {
                            JsonSpec::Null
                        },
                ),
            ),
            JsonValue::Object(fields) => JsonSpec::Object(
                Seq::new(
                    fields.len() as nat,
                    |i: int|
                        if 0 <= i < fields.len() {
                            (fields[i].0@, fields[i].1.model())
                        } else {
                            (Seq::empty(), JsonSpec::Null)
                        },
                ),
            ),
            JsonValue::Null => JsonSpec::Null,
        }
    }
}

impl DeepView for JsonValue {
    type V = JsonSpec;

    open spec fn deep_view(&self) -> JsonSpec {
        self.model()
    }
}

/// How far a text has come towards spelling a decimal number: a sign if
/// any, digits, and then perhaps a point and more digits.
#[derive(Debug, Clone, Copy, PartialEq, Eq, Structural)]
pub enum Shape {
    Start,
    Sign,
    Whole,
    Point,
    Fraction,
    Other,
}

/// Whether a character is a digit from 0 to 9.
pub open spec fn is_digit(c: char) -> bool {
    '0' <= c <= '9'
}

/// How far a text has come after one more character.
pub open spec fn shape_step(s: Shape, c: char) -> Shape {
    match s {
        Shape::Start => if c == '-' {
            Shape::Sign
        } else if is_digit(c) {
            Shape::Whole
        } else {
            Shape::Other
        },
        Shape::Sign => if is_digit(c) {
            Shape::Whole
        } else {
            Shape::Other
        },
        Shape::Whole => if is_digit(c) {
            Shape::Whole
        } else if c == '.' {
            Shape::Point
        } else {
            Shape::Other
        },
        Shape::Point => if is_digit(c) {
            Shape::Fraction
        } else {
            Shape::Other
        },
        Shape::Fraction => if is_digit(c) {
            Shape::Fraction
        } else {
            Shape::Other
        },
        Shape::Other => Shape::Other,
    }
}

/// How far a text has come towards spelling a decimal number.
pub open spec fn shape(text: Seq<char>) -> Shape
    decreases text.len(),
{
    if text.len() == 0 {
        Shape::Start
    } else {
        shape_step(shape(text.drop_last()), text.last())
    }
}

/// Whether a text spells a decimal number: `-` if any, one digit or more,
/// and then nothing, or a point and one digit or more.
pub open spec fn decimal(text: Seq<char>) -> bool {
    shape(text) is Whole || shape(text) is Fraction
}

/// Whether a document can be written: its arrays and objects are nested no
/// deeper than `limit`, and each number that it holds as text spells a
/// decimal number.
pub open spec fn writable(value: JsonSpec, limit: nat) -> bool
    decreases limit, 0nat, 0nat,
{
    match value {
        JsonSpec::Array(items) => limit > 0 && items_writable(items, (limit - 1) as nat),
        JsonSpec::Object(fields) => limit > 0 && members_writable(fields, (limit - 1) as nat),
        JsonSpec::F64(text) => decimal(text),
        _ => true,
    }
}

/// Whether each of the items can be written, nested no deeper than `limit`.
pub open spec fn items_writable(items: Seq<JsonSpec>, limit: nat) -> bool
    decreases limit, 1nat, items.len(),
{
    if items.len() == 0 {
        true
    } else {
        items_writable(items.drop_last(), limit) && writable(items.last(), limit)
    }
}

/// Whether the value of each of the members can be written, nested no
/// deeper than `limit`.
pub open spec fn members_writable(fields: Seq<(Seq<char>, JsonSpec)>, limit: nat) -> bool
    decreases limit, 1nat, fields.len(),
{
    if fields.len() == 0 {
        true
    } else {
        members_writable(fields.drop_last(), limit) && writable(fields.last().1, limit)
    }
}

/// Once a prefix of the items cannot be written, neither can the whole.
proof fn lemma_items_not_writable(items: Seq<JsonSpec>, limit: nat, n: int)
    requires
        0 <= n <= items.len(),
        !items_writable(items.take(n), limit),
    ensures
        !items_writable(items, limit),
    decreases items.len() - n,
{
    if n == items.len() {
        assert(items.take(n) =~= items);
    } else {
        assert(items.take(n + 1).drop_last() =~= items.take(n));
        lemma_items_not_writable(items, limit, n + 1);
    }
}

/// Once a prefix of the members cannot be written, neither can the whole.
proof fn lemma_members_not_writable(fields: Seq<(Seq<char>, JsonSpec)>, limit: nat, n: int)
    requires
        0 <= n <= fields.len(),
        !members_writable(fields.take(n), limit),
    ensures
        !members_writable(fields, limit),
    decreases fields.len() - n,
{
    if n == fields.len() {
        assert(fields.take(n) =~= fields);
    } else {
        assert(fields.take(n + 1).drop_last() =~= fields.take(n));
        lemma_members_not_writable(fields, limit, n + 1);
    }
}

/// Whether the arrays and objects of a document are nested no deeper than
/// `limit`.
pub open spec fn within(value: JsonSpec, limit: nat) -> bool
    decreases limit, 0nat, 0nat,
{
    match value {
        JsonSpec::Array(items) => limit > 0 && items_within(items, (limit - 1) as nat),
        JsonSpec::Object(fields) => limit > 0 && members_within(fields, (limit - 1) as nat),
        _ => true,
    }
}

/// Whether each of the items is nested no deeper than `limit`.
pub open spec fn items_within(items: Seq<JsonSpec>, limit: nat) -> bool
    decreases limit, 1nat, items.len(),
{
    if items.len() == 0 {
        true
    } else {
        items_within(items.drop_last(), limit) && within(items.last(), limit)
    }
}

/// Whether the value of each of the members is nested no deeper than
/// `limit`.
pub open spec fn members_within(fields: Seq<(Seq<char>, JsonSpec)>, limit: nat) -> bool
    decreases limit, 1nat, fields.len(),
{
    if fields.len() == 0 {
        true
    } else {
        members_within(fields.drop_last(), limit) && within(fields.last().1, limit)
    }
}

/// The document that a value of `rustc_serialize` holds. The members of an
/// object come in ascending order of their keys.
pub uninterp spec fn json_model(json: Json) -> JsonSpec;

/// A document as `rustc_serialize` holds it once its members have been put
/// into the maps of that crate: the members of each object in ascending
/// order of their keys, the last of several members with one key standing
/// for all of them.
pub uninterp spec fn json_held(value: JsonSpec) -> JsonSpec;

/// The compact JSON text that `rustc_serialize` writes for a document that
/// it holds.
pub uninterp spec fn json_display(value: JsonSpec) -> Seq<char>;

/// The compact JSON text of a document.
pub open spec fn json_text(value: JsonSpec) -> Seq<char> {
    json_display(json_held(value))
}

/// The text that is written for a document: its compact JSON text, unless
/// it is nested deeper than is written or holds, as a number, a text that
/// spells none.
pub open spec fn written(value: JsonSpec) -> Option<Seq<char>> {
    if writable(value, max_nesting()) {
        Some(json_text(value))
    } else {
        None
    }
}

/// The outcome of reading a text as JSON with `rustc_serialize`.
pub uninterp spec fn json_parse(text: Seq<char>) -> Result<JsonSpec, ParserError>;

/// Where a reader of JSON stands after some characters. Outside of strings
/// it counts how many arrays and objects are open and how many were open at
/// most, and how many digits the exponent of a number has; of strings it
/// keeps the length, and takes a string for a key when a colon comes.
pub struct Scan {
    pub depth: nat,
    pub deepest: nat,
    pub in_string: bool,
    pub escaped: bool,
    /// The characters of the string that is being read.
    pub string: nat,
    /// The characters of the string that was read last.
    pub last_string: nat,
    pub longest_key: nat,
    pub in_exponent: bool,
    /// The digits of the exponent that is being read.
    pub exponent: nat,
    pub longest_exponent: nat,
}

/// The larger of two numbers.
pub open spec fn larger(a: nat, b: nat) -> nat {
    if a > b {
        a
    } else {
        b
    }
}

/// Where the reader stands after one more character.
pub open spec fn scan_step(s: Scan, c: char) -> Scan {
    if s.in_string {
        if s.escaped {
            Scan { escaped: false, string: s.string + 1, ..s }
        } else if c == '\\' {
            Scan { escaped: true, string: s.string + 1, ..s }
        } else if c == '"' {
            Scan { in_string: false, last_string: s.string, ..s }
        } else {
            Scan { string: s.string + 1, ..s }
        }
    } else if c == '"' {
        Scan { in_string: true, string: 0, in_exponent: false, ..s }
    } else if c == '[' || c == '{' {
        Scan { depth: s.depth + 1, deepest: larger(s.deepest, s.depth + 1), in_exponent: false, ..s }
    } else if c == ']' || c == '}' {
        Scan {
            depth: if s.depth > 0 {
                (s.depth - 1) as nat
            } else {
                0
            },
            in_exponent: false,
            ..s
        }
    } else if c == ':' {
        Scan { longest_key: larger(s.longest_key, s.last_string), in_exponent: false, ..s }
    } else if c == 'e' || c == 'E' {
        Scan { in_exponent: true, exponent: 0, ..s }
    } else if s.in_exponent && is_digit(c) {
        Scan { exponent: s.exponent + 1, longest_exponent: larger(s.longest_exponent, s.exponent + 1), ..s }
    } else if s.in_exponent && (c == '+' || c == '-') {
        s
    } else {
        Scan { in_exponent: false, ..s }
    }
}

/// Where the reader stands before the first character.
pub open spec fn scan_start() -> Scan {
    Scan {
        depth: 0,
        deepest: 0,
        in_string: false,
        escaped: false,
        string: 0,
        last_string: 0,
        longest_key: 0,
        in_exponent: false,
        exponent: 0,
        longest_exponent: 0,
    }
}

/// Where the reader stands after a text.
pub open spec fn scan(text: Seq<char>) -> Scan
    decreases text.len(),
{
    if text.len() == 0 {
        scan_start()
    } else {
        scan_step(scan(text.drop_last()), text.last())
    }
}

/// The deepest nesting that is read and written.
pub open spec fn max_nesting() -> nat {
    128
}

/// The most characters of a text that is read.
pub open spec fn max_length() -> nat {
    0x7fff_ffff
}

/// The most digits of the exponent of a number that is read.
pub open spec fn max_exponent() -> nat {
    9
}

/// The most characters, as they are written, of the key of a member that is
/// read.
pub open spec fn max_key() -> nat {
    120
}

/// Why a text is not handed to the parser, if it is not: the parser keeps
/// its place in narrow counters, which a text within these bounds cannot
/// overflow.
pub open spec fn refusal(text: Seq<char>) -> Option<Seq<char>> {
    if text.len() > max_length() {
        Some("JSON is too long"@)
    } else if scan(text).deepest > max_nesting() {
        Some("JSON is nested too deeply"@)
    } else if scan(text).longest_exponent > max_exponent() {
        Some("JSON holds a number with too long an exponent"@)
    } else if scan(text).longest_key > max_key() {
        Some("JSON holds a key that is too long"@)
    } else {
        None
    }
}

/// The document that a text denotes, or why it denotes none.
pub open spec fn decode_text(text: Seq<char>) -> Result<JsonSpec, DecoderErrorView> {
    match refusal(text) {
        Some(reason) => Err(DecoderErrorView::ApplicationError(reason)),
        None => match json_parse(text) {
            Ok(json) => Ok(json),
            Err(e) => Err(DecoderErrorView::ParseError(e)),
        },
    }
}

/// Builds the value of `rustc_serialize` that holds a document, variant for
/// variant; the members of an object are collected into the map of its
/// `Json::Object`. A number held as text becomes the float that the text
/// denotes: the precondition admits only texts that spell a decimal number,
/// which `str::parse` reads without fail. The contract gives what the value
/// holds a name, and says that the empty object stays empty and that nothing
/// is nested deeper than it was. The conversion calls itself for each array
/// and object inside another; the precondition bounds that too.
#[verifier::external_body]
fn to_outside(value: &JsonValue) -> (r: Json)
    requires
        writable(value.deep_view(), max_nesting()),
    ensures
        json_model(r) == json_held(value.deep_view()),
        within(json_model(r), max_nesting()),
        value.deep_view() == JsonSpec::Object(Seq::empty()) ==> json_model(r) == JsonSpec::Object(
            Seq::empty(),
        ),
{
    match value {
        JsonValue::I64(n) => Json::I64(*n),
        JsonValue::U64(n) => Json::U64(*n),
        JsonValue::F64(t) => Json::F64(t.parse().unwrap_or_default()),
        JsonValue::String(s) => Json::String(s.clone()),
        JsonValue::Boolean(b) => Json::Boolean(*b),
        JsonValue::Array(items) => Json::Array(items.iter().map(to_outside).collect()),
        JsonValue::Object(fields) => Json::Object(
            fields.iter().map(|f| (f.0.clone(), to_outside(&f.1))).collect(),
        ),
        JsonValue::Null => Json::Null,
    }
}

/// Reads a value of `rustc_serialize` into the library's form, variant for
/// variant: the document that the value holds. A float is kept as the text
/// that `to_string` writes for it.
#[verifier::external_body]
fn from_outside(value: &Json) -> (r: JsonValue)
    ensures
        r.deep_view() == json_model(*value),
{
    match value {
        Json::I64(n) => JsonValue::I64(*n),
        Json::U64(n) => JsonValue::U64(*n),
        Json::F64(x) => JsonValue::F64(x.to_string()),
        Json::String(s) => JsonValue::String(s.clone()),
        Json::Boolean(b) => JsonValue::Boolean(*b),
        Json::Array(items) => JsonValue::Array(items.iter().map(from_outside).collect()),
        Json::Object(fields) => JsonValue::Object(
            fields.iter().map(|f| (f.0.clone(), from_outside(f.1))).collect(),
        ),
        Json::Null => JsonValue::Null,
    }
}

/// `Json`'s `to_string`, that is its `Display`: the compact encoding. The
/// contract gives the text a name, and says of the empty object that it is
/// written as `{}`. The encoder calls itself for each array and object
/// inside another; the precondition bounds that.
#[verifier::external_body]
fn display_json(json: &Json) -> (r: String)
    requires
        within(json_model(*json), max_nesting()),
    ensures
        r@ == json_display(json_model(*json)),
        json_model(*json) == JsonSpec::Object(Seq::empty()) ==> r@ == "{}"@,
{
    json.to_string()
}

/// `Json::from_str`: the value that a text denotes, or the parser's error.
/// The contract gives the outcome a name. The parser calls itself for each
/// array and object inside another, sums the digits of an exponent without
/// a test, and keeps the keys of the objects that are open in a buffer with
/// positions of 16 bits and the place in an array in 32 bits; the
/// precondition keeps each of these within bounds.
#[verifier::external_body]
fn parse_json(text: &str) -> (r: Result<Json, ParserError>)
    requires
        refusal(text@) is None,
    ensures
        match r {
            Ok(json) => json_parse(text@) == Ok::<JsonSpec, ParserError>(json_model(json)),
            Err(e) => json_parse(text@) == Err::<JsonSpec, ParserError>(e),
        },
{
    Json::from_str(text)
}

impl JsonValue {
    /// A text value.
    pub fn string(s: &str) -> (r: JsonValue)
        ensures
            r.deep_view() == JsonSpec::String(s@),
    {
        JsonValue::String(s.to_owned())
    }

    /// A text value, or `null` where there is none.
    pub fn opt_string(value: &Option<String>) -> (r: JsonValue)
        ensures
            r.deep_view() == JsonSpec::opt_string(value.deep_view()),
    {
        match value {
            Some(s) => JsonValue::String(s.clone()),
            None => JsonValue::Null,
        }
    }

    /// A text value, or `null` where there is none.
    pub fn opt_str(value: Option<&str>) -> (r: JsonValue)
        ensures
            r.deep_view() == JsonSpec::opt_string(value.deep_view()),
    {
        match value {
            Some(s) => JsonValue::String(s.to_owned()),
            None => JsonValue::Null,
        }
    }

    /// A number, or `null` where there is none.
    pub fn opt_unsigned(value: Option<u64>) -> (r: JsonValue)
        ensures
            r.deep_view() == JsonSpec::opt_unsigned(value),
    {
        match value {
            Some(n) => JsonValue::U64(n),
            None => JsonValue::Null,
        }
    }

    /// A truth value, or `null` where there is none.
    pub fn opt_boolean(value: Option<bool>) -> (r: JsonValue)
        ensures
            r.deep_view() == JsonSpec::opt_boolean(value),
    {
        match value {
            Some(b) => JsonValue::Boolean(b),
            None => JsonValue::Null,
        }
    }

    /// An array of text values.
    pub fn strings(items: &Vec<String>) -> (r: JsonValue)
        ensures
            r.deep_view() == JsonSpec::strings(items.deep_view()),
    {
        let mut out: Vec<JsonValue> = Vec::new();
        let mut i: usize = 0;
        while i < items.len()
            invariant
                i <= items.len(),
                out.len() == i,
                forall|k: int| 0 <= k < i ==> (#[trigger] out[k]).model() == JsonSpec::String(items[k]@),
            decreases items.len() - i,
        {
            out.push(JsonValue::String(items[i].clone()));
            i += 1;
        }
        let r = JsonValue::Array(out);
        assert(r.model()->Array_0 =~= JsonSpec::strings(items.deep_view())->Array_0);
        r
    }

    /// An object with the given members, in their order.
    pub fn object(fields: Vec<(String, JsonValue)>) -> (r: JsonValue)
        ensures
            r.deep_view() == JsonSpec::Object(fields.deep_view()),
    {
        let ghost members = fields.deep_view();
        let r = JsonValue::Object(fields);
        assert(r.model()->Object_0 =~= members);
        r
    }

    /// Adds a member at the end of the members of an object under
    /// construction.
    pub fn put(fields: &mut Vec<(String, JsonValue)>, key: &str, value: JsonValue)
        ensures
            final(fields).deep_view() == old(fields).deep_view().push((key@, value.deep_view())),
    {
        let ghost v = value.deep_view();
        fields.push((key.to_owned(), value));
        assert(fields.deep_view() =~= old(fields).deep_view().push((key@, v)));
    }

    /// The value of a text that may be missing.
    pub fn some_string(value: &Option<String>) -> (r: Option<JsonValue>)
        ensures
            r.deep_view() == JsonSpec::some_string(value.deep_view()),
    {
        match value {
            Some(s) => Some(JsonValue::String(s.clone())),
            None => None,
        }
    }

    /// The value of a number that may be missing.
    pub fn some_unsigned(value: Option<u64>) -> (r: Option<JsonValue>)
        ensures
            r.deep_view() == JsonSpec::some_unsigned(value),
    {
        match value {
            Some(n) => Some(JsonValue::U64(n)),
            None => None,
        }
    }

    /// Adds a member, if there is a value for it.
    pub fn put_opt(fields: &mut Vec<(String, JsonValue)>, key: &str, value: Option<JsonValue>)
        ensures
            final(fields).deep_view() == old(fields).deep_view() + member(key@, value.deep_view()),
    {
        let ghost before = fields.deep_view();
        match value {
            Some(v) => {
                let ghost m = v.deep_view();
                JsonValue::put(fields, key, v);
                assert(fields.deep_view() =~= before + seq![(key@, m)]);
            },
            None => {
                assert(fields.deep_view() =~= before + Seq::<(Seq<char>, JsonSpec)>::empty());
            },
        }
    }

    /// Adds the member of a field, if the field holds a value.
    pub fn put_lazy(fields: &mut Vec<(String, JsonValue)>, key: &str, value: Lazy<JsonValue>)
        ensures
            final(fields).deep_view() == old(fields).deep_view() + lazy_member(key@, value.deep_view()),
    {
        let ghost before = fields.deep_view();
        match value {
            Lazy::Available(v) => {
                let ghost m = v.deep_view();
                JsonValue::put(fields, key, v);
                assert(fields.deep_view() =~= before + seq![(key@, m)]);
            },
            Lazy::NotLoaded => {
                assert(fields.deep_view() =~= before + Seq::<(Seq<char>, JsonSpec)>::empty());
            },
        }
    }

    /// Adds the member of a field that holds a text.
    pub fn put_string(fields: &mut Vec<(String, JsonValue)>, key: &str, field: &Lazy<String>)
        ensures
            final(fields).deep_view() == old(fields).deep_view() + lazy_string(key@, field.deep_view()),
    {
        let value = match field {
            Lazy::Available(v) => Lazy::Available(JsonValue::string(v.as_str())),
            Lazy::NotLoaded => Lazy::NotLoaded,
        };
        JsonValue::put_lazy(fields, key, value);
    }

    /// Adds the member of a field that holds a text or nothing.
    pub fn put_opt_string(fields: &mut Vec<(String, JsonValue)>, key: &str, field: &Lazy<Option<String>>)
        ensures
            final(fields).deep_view() == old(fields).deep_view() + lazy_opt_string(
                key@,
                field.deep_view(),
            ),
    {
        let value = match field {
            Lazy::Available(v) => Lazy::Available(JsonValue::opt_string(v)),
            Lazy::NotLoaded => Lazy::NotLoaded,
        };
        JsonValue::put_lazy(fields, key, value);
    }

    /// Adds the member of a field that holds a number.
    pub fn put_unsigned(fields: &mut Vec<(String, JsonValue)>, key: &str, field: &Lazy<u64>)
        ensures
            final(fields).deep_view() == old(fields).deep_view() + lazy_unsigned(key@, field.deep_view()),
    {
        let value = match field {
            Lazy::Available(v) => Lazy::Available(JsonValue::U64(*v)),
            Lazy::NotLoaded => Lazy::NotLoaded,
        };
        JsonValue::put_lazy(fields, key, value);
    }

    /// Adds the member of a field that holds a number or nothing.
    pub fn put_opt_unsigned(fields: &mut Vec<(String, JsonValue)>, key: &str, field: &Lazy<Option<u64>>)
        ensures
            final(fields).deep_view() == old(fields).deep_view() + lazy_opt_unsigned(
                key@,
                field.deep_view(),
            ),
    {
        let value = match field {
            Lazy::Available(v) => Lazy::Available(JsonValue::opt_unsigned(*v)),
            Lazy::NotLoaded => Lazy::NotLoaded,
        };
        JsonValue::put_lazy(fields, key, value);
    }

    /// Adds the member of a field that holds a truth value.
    pub fn put_boolean(fields: &mut Vec<(String, JsonValue)>, key: &str, field: &Lazy<bool>)
        ensures
            final(fields).deep_view() == old(fields).deep_view() + lazy_boolean(key@, field.deep_view()),
    {
        let value = match field {
            Lazy::Available(v) => Lazy::Available(JsonValue::Boolean(*v)),
            Lazy::NotLoaded => Lazy::NotLoaded,
        };
        JsonValue::put_lazy(fields, key, value);
    }

    /// Adds the member of a field that holds a truth value or nothing.
    pub fn put_opt_boolean(fields: &mut Vec<(String, JsonValue)>, key: &str, field: &Lazy<Option<bool>>)
        ensures
            final(fields).deep_view() == old(fields).deep_view() + lazy_opt_boolean(
                key@,
                field.deep_view(),
            ),
    {
        let value = match field {
            Lazy::Available(v) => Lazy::Available(JsonValue::opt_boolean(*v)),
            Lazy::NotLoaded => Lazy::NotLoaded,
        };
        JsonValue::put_lazy(fields, key, value);
    }

    /// The value of the first member named `key`, if this is an object that
    /// has one.
    pub fn find(&self, key: &str) -> (r: Option<&JsonValue>)
        ensures
            r.deep_view() == self.deep_view().find(key@),
    {
        match self {
            JsonValue::Object(fields) => {
                let ghost members = self.model()->Object_0;
                let mut i: usize = 0;
                while i < fields.len()
                    invariant
                        i <= fields.len(),
                        self.model() == JsonSpec::Object(members),
                        members.len() == fields.len(),
                        forall|k: int|
                            0 <= k < fields.len() ==> #[trigger] members[k] == (
                                fields[k].0@,
                                fields[k].1.model(),
                            ),
                        find_from(members, key@, i as int) == find_from(members, key@, 0),
                    decreases fields.len() - i,
                {
                    if str_eq(fields[i].0.as_str(), key) {
                        assert(members[i as int] == (fields[i as int].0@, fields[i as int].1.model()));
                        return Some(&fields[i].1);
                    }
                    i += 1;
                }
                None
            },
            _ => None,
        }
    }

    /// Whether this document can be written: it is nested no deeper than
    /// `limit`, and its numbers that are held as text spell decimal numbers.
    fn writable(&self, limit: usize) -> (r: bool)
        ensures
            r == writable(self.deep_view(), limit as nat),
        decreases limit,
    {
        match self {
            JsonValue::Array(items) => {
                if limit == 0 {
                    return false;
                }
                let ghost all = self.model()->Array_0;
                let ghost inner = (limit - 1) as nat;
                let mut i: usize = 0;
                assert(all.take(0) =~= Seq::empty());
                while i < items.len()
                    invariant
                        i <= items.len(),
                        limit > 0,
                        inner == (limit - 1) as nat,
                        self.model() == JsonSpec::Array(all),
                        all.len() == items.len(),
                        forall|k: int| 0 <= k < items.len() ==> #[trigger] all[k] == items[k].model(),
                        items_writable(all.take(i as int), inner),
                    decreases items.len() - i,
                {
                    assert(all.take(i + 1).drop_last() =~= all.take(i as int));
                    assert(all.take(i + 1).last() == items[i as int].model());
                    if !items[i].writable(limit - 1) {
                        proof {
                            lemma_items_not_writable(all, inner, i + 1);
                        }
                        return false;
                    }
                    i += 1;
                }
                assert(all.take(i as int) =~= all);
                true
            },
            JsonValue::Object(fields) => {
                if limit == 0 {
                    return false;
                }
                let ghost all = self.model()->Object_0;
                let ghost inner = (limit - 1) as nat;
                let mut i: usize = 0;
                assert(all.take(0) =~= Seq::empty());
                while i < fields.len()
                    invariant
                        i <= fields.len(),
                        limit > 0,
                        inner == (limit - 1) as nat,
                        self.model() == JsonSpec::Object(all),
                        all.len() == fields.len(),
                        forall|k: int|
                            0 <= k < fields.len() ==> #[trigger] all[k] == (
                                fields[k].0@,
                                fields[k].1.model(),
                            ),
                        members_writable(all.take(i as int), inner),
                    decreases fields.len() - i,
                {
                    assert(all.take(i + 1).drop_last() =~= all.take(i as int));
                    assert(all.take(i + 1).last() == (fields[i as int].0@, fields[i as int].1.model()));
                    if !fields[i].1.writable(limit - 1) {
                        proof {
                            lemma_members_not_writable(all, inner, i + 1);
                        }
                        return false;
                    }
                    i += 1;
                }
                assert(all.take(i as int) =~= all);
                true
            },
            JsonValue::F64(text) => is_decimal(text.as_str()),
            _ => true,
        }
    }

    /// The compact JSON text of this document, or nothing where it is
    /// nested deeper than is written or holds, as a number, a text that
    /// spells none.
    pub fn encode(&self) -> (r: Option<String>)
        ensures
            r.deep_view() == written(self.deep_view()),
            self.deep_view() == JsonSpec::Object(Seq::empty()) ==> r.deep_view() == Some("{}"@),
    {
        if self.writable(128) {
            let json = to_outside(self);
            Some(display_json(&json))
        } else {
            None
        }
    }

    /// The document that a text denotes, or why it denotes none.
    pub fn from_str(text: &str) -> (r: Result<JsonValue, DecoderError>)
        ensures
            result_view(r) == decode_text(text@),
    {
        match refuse(text) {
            Some(reason) => {
                return Err(DecoderError::ApplicationError(reason));
            },
            None => {},
        }
        match parse_json(text) {
            Ok(json) => Ok(from_outside(&json)),
            Err(e) => Err(DecoderError::ParseError(e)),
        }
    }
}

/// Whether a text spells a decimal number.
fn is_decimal(text: &str) -> (r: bool)
    ensures
        r == decimal(text@),
{
    let chars = chars_of(text);
    let mut state = Shape::Start;
    let mut i: usize = 0;
    assert(chars@.take(0) =~= Seq::empty());
    while i < chars.len()
        invariant
            i <= chars.len(),
            chars@ == text@,
            state == shape(chars@.take(i as int)),
        decreases chars.len() - i,
    {
        assert(chars@.take(i + 1).drop_last() =~= chars@.take(i as int));
        let c = chars[i];
        let digit = '0' <= c && c <= '9';
        state = match state {
            Shape::Start => if c == '-' {
                Shape::Sign
            } else if digit {
                Shape::Whole
            } else {
                Shape::Other
            },
            Shape::Sign => if digit {
                Shape::Whole
            } else {
                Shape::Other
            },
            Shape::Whole => if digit {
                Shape::Whole
            } else if c == '.' {
                Shape::Point
            } else {
                Shape::Other
            },
            Shape::Point => if digit {
                Shape::Fraction
            } else {
                Shape::Other
            },
            Shape::Fraction => if digit {
                Shape::Fraction
            } else {
                Shape::Other
            },
            Shape::Other => Shape::Other,
        };
        i += 1;
    }
    assert(chars@.take(i as int) =~= chars@);
    match state {
        Shape::Whole => true,
        Shape::Fraction => true,
        _ => false,
    }
}

/// Why a text is not handed to the parser, if it is not.
fn refuse(text: &str) -> (r: Option<String>)
    ensures
        r.deep_view() == refusal(text@),
{
    let chars = chars_of(text);
    if chars.len() > 0x7fff_ffff {
        return Some("JSON is too long".to_owned());
    }
    let mut depth: usize = 0;
    let mut deepest: usize = 0;
    let mut in_string = false;
    let mut escaped = false;
    let mut string: usize = 0;
    let mut last_string: usize = 0;
    let mut longest_key: usize = 0;
    let mut in_exponent = false;
    let mut exponent: usize = 0;
    let mut longest_exponent: usize = 0;
    let mut i: usize = 0;
    assert(chars@.take(0) =~= Seq::empty());
    while i < chars.len()
        invariant
            i <= chars.len(),
            chars@ == text@,
            depth <= deepest <= i,
            string <= i,
            last_string <= longest_key || last_string <= i,
            last_string <= i,
            longest_key <= i,
            exponent <= longest_exponent || exponent == 0,
            exponent <= i,
            longest_exponent <= i,
            scan(chars@.take(i as int)) == (Scan {
                depth: depth as nat,
                deepest: deepest as nat,
                in_string,
                escaped,
                string: string as nat,
                last_string: last_string as nat,
                longest_key: longest_key as nat,
                in_exponent,
                exponent: exponent as nat,
                longest_exponent: longest_exponent as nat,
            }),
        decreases chars.len() - i,
    {
        assert(chars@.take(i + 1).drop_last() =~= chars@.take(i as int));
        let c = chars[i];
        if in_string {
            if escaped {
                escaped = false;
                string = string + 1;
            } else if c == '\\' {
                escaped = true;
                string = string + 1;
            } else if c == '"' {
                in_string = false;
                last_string = string;
            } else {
                string = string + 1;
            }
        } else if c == '"' {
            in_string = true;
            string = 0;
            in_exponent = false;
        } else if c == '[' || c == '{' {
            depth = depth + 1;
            if deepest < depth {
                deepest = depth;
            }
            in_exponent = false;
        } else if c == ']' || c == '}' {
            if depth > 0 {
                depth = depth - 1;
            }
            in_exponent = false;
        } else if c == ':' {
            if longest_key < last_string {
                longest_key = last_string;
            }
            in_exponent = false;
        } else if c == 'e' || c == 'E' {
            in_exponent = true;
            exponent = 0;
        } else if in_exponent && '0' <= c && c <= '9' {
            exponent = exponent + 1;
            if longest_exponent < exponent {
                longest_exponent = exponent;
            }
        } else if in_exponent && (c == '+' || c == '-') {
        } else {
            in_exponent = false;
        }
        i += 1;
    }
    assert(chars@.take(i as int) =~= chars@);
    if deepest > 128 {
        Some("JSON is nested too deeply".to_owned())
    } else if longest_exponent > 9 {
        Some("JSON holds a number with too long an exponent".to_owned())
    } else if longest_key > 120 {
        Some("JSON holds a key that is too long".to_owned())
    } else {
        None
    }
}

} // verus!
