use vstd::prelude::*;
use vstd::utf8::decode_utf8;
use vstd::utf8::valid_utf8;

use hyper::header::ContentLength;
use hyper::header::ContentType;
use hyper::header::Date;
use hyper::header::Header;
use hyper::header::Location;

use crate::codec::parse_unsigned;
use crate::text::chars_of;
use crate::text::utf8_text;

verus! {

/// The verb of a request.
#[derive(Debug, Clone, Copy, PartialEq, Eq, Structural)]
pub enum Method {
    Get,
    Post,
    Put,
    Delete,
    Head,
}

impl DeepView for Method {
    type V = Method;

    open spec fn deep_view(&self) -> Method {
        *self
    }
}

/// A request that is ready to be sent: JSON content, basic credentials.
#[derive(Debug)]
pub struct Request {
    pub method: Method,
    pub url: String,
    pub username: String,
    pub password: String,
    pub body: Vec<u8>,
}

/// The mathematical value of a [`Request`].
pub struct RequestView {
    pub method: Method,
    pub url: Seq<char>,
    pub username: Seq<char>,
    pub password: Seq<char>,
    pub body: Seq<u8>,
}

impl DeepView for Request {
    type V = RequestView;

    open spec fn deep_view(&self) -> RequestView {
        RequestView {
            method: self.method,
            url: self.url@,
            username: self.username@,
            password: self.password@,
            body: self.body@,
        }
    }
}

/// The code of a letter, capital letters of ASCII counted as small ones.
pub open spec fn fold_case(c: char) -> u32 {
    if 'A' <= c <= 'Z' {
        (c as u32 + 32) as u32
    } else {
        c as u32
    }
}

/// Whether two header names are the same but for the case of ASCII letters.
pub open spec fn same_name(a: Seq<char>, b: Seq<char>) -> bool {
    &&& a.len() == b.len()
    &&& forall|i: int| 0 <= i < a.len() ==> fold_case(#[trigger] a[i]) == fold_case(b[i])
}

/// The lines of the headers with the given name, in their order.
pub open spec fn lines_of(entries: Seq<(Seq<char>, Seq<u8>)>, name: Seq<char>) -> Seq<Seq<u8>>
    decreases entries.len(),
{
    if entries.len() == 0 {
        Seq::empty()
    } else {
        let rest = lines_of(entries.drop_last(), name);
        if same_name(entries.last().0, name) {
            rest.push(entries.last().1)
        } else {
            rest
        }
    }
}

/// The lines of the headers with the given name, or nothing where there is
/// no such header.
pub open spec fn raw_header(entries: Seq<(Seq<char>, Seq<u8>)>, name: Seq<char>) -> Option<
    Seq<Seq<u8>>,
> {
    if lines_of(entries, name).len() == 0 {
        None
    } else {
        Some(lines_of(entries, name))
    }
}

/// The text of a `Location` header as hyper reads it: there is one line, it
/// is not empty, and it is UTF-8.
pub open spec fn location_of(raw: Seq<Seq<u8>>) -> Option<Seq<char>> {
    if raw.len() == 1 && raw[0].len() > 0 && valid_utf8(raw[0]) {
        Some(decode_utf8(raw[0]))
    } else {
        None
    }
}

/// The type and subtype that hyper reads from the lines of a `Content-Type`
/// header, if it reads a media type.
pub uninterp spec fn content_type_of(raw: Seq<Seq<u8>>) -> Option<(Seq<char>, Seq<char>)>;

/// The number that one line of a `Content-Length` header spells: the line
/// is UTF-8 and `str::parse` reads a number from it.
pub open spec fn line_length(line: Seq<u8>) -> Option<u64> {
    match utf8_text(line) {
        Some(text) => parse_unsigned(text),
        None => None,
    }
}

/// The length that hyper reads from the lines of a `Content-Length` header:
/// there is a line, every line spells a number, and all spell the same.
pub open spec fn content_length_of(raw: Seq<Seq<u8>>) -> Option<u64> {
    if raw.len() > 0 && line_length(raw[0]) is Some && (forall|i: int|
        0 <= i < raw.len() ==> line_length(#[trigger] raw[i]) == line_length(raw[0])) {
        line_length(raw[0])
    } else {
        None
    }
}

/// Whether every byte of a line is ASCII.
pub open spec fn ascii(line: Seq<u8>) -> bool {
    forall|j: int| 0 <= j < line.len() ==> #[trigger] line[j] < 128
}

/// Whether every byte of every line is ASCII.
pub open spec fn ascii_lines(raw: Seq<Seq<u8>>) -> bool {
    forall|i: int| 0 <= i < raw.len() ==> ascii(#[trigger] raw[i])
}

/// The date that hyper reads from the lines of a `Date` header, written as
/// hyper writes an HTTP date, if it reads one.
pub uninterp spec fn date_of(raw: Seq<Seq<u8>>) -> Option<Seq<char>>;

/// The text of the `Location` header among the headers of a response.
pub open spec fn location_in(headers: Seq<(Seq<char>, Seq<u8>)>) -> Option<Seq<char>> {
    match raw_header(headers, "Location"@) {
        Some(raw) => location_of(raw),
        None => None,
    }
}

/// The type and the subtype of the `Content-Type` header among the headers
/// of a response. A header with a byte that is not ASCII is not read.
pub open spec fn content_type_in(headers: Seq<(Seq<char>, Seq<u8>)>) -> Option<(Seq<char>, Seq<char>)> {
    match raw_header(headers, "Content-Type"@) {
        Some(raw) => if ascii_lines(raw) {
            content_type_of(raw)
        } else {
            None
        },
        None => None,
    }
}

/// The number of the `Content-Length` header among the headers of a
/// response.
pub open spec fn content_length_in(headers: Seq<(Seq<char>, Seq<u8>)>) -> Option<u64> {
    match raw_header(headers, "Content-Length"@) {
        Some(raw) => content_length_of(raw),
        None => None,
    }
}

/// The date of the `Date` header among the headers of a response.
pub open spec fn date_in(headers: Seq<(Seq<char>, Seq<u8>)>) -> Option<Seq<char>> {
    match raw_header(headers, "Date"@) {
        Some(raw) => date_of(raw),
        None => None,
    }
}

/// Calls `parse_header` of hyper's `Location`: the header's text. An error
/// becomes `None`.
#[verifier::external_body]
fn parse_location(raw: &Vec<Vec<u8>>) -> (r: Option<String>)
    ensures
        r.deep_view() == location_of(raw.deep_view()),
{
    Location::parse_header(raw.as_slice()).ok().map(|location| location.0)
}

/// Calls `parse_header` of hyper's `ContentType`: the top-level type and the
/// subtype of the media type, each as `as_str` gives it. An error becomes
/// `None`. The contract gives the outcome a name. The parser of media types
/// cuts the text at positions that it counts in characters; the
/// precondition admits only ASCII, where these are the positions of bytes.
#[verifier::external_body]
fn parse_content_type(raw: &Vec<Vec<u8>>) -> (r: Option<(String, String)>)
    requires
        ascii_lines(raw.deep_view()),
    ensures
        r.deep_view() == content_type_of(raw.deep_view()),
{
    ContentType::parse_header(raw.as_slice()).ok().map(
        |header| ((header.0).0.as_str().to_owned(), (header.0).1.as_str().to_owned()),
    )
}

/// Calls `parse_header` of hyper's `ContentLength`: the number that every
/// line spells. An error becomes `None`.
#[verifier::external_body]
fn parse_content_length(raw: &Vec<Vec<u8>>) -> (r: Option<u64>)
    ensures
        r == content_length_of(raw.deep_view()),
{
    ContentLength::parse_header(raw.as_slice()).ok().map(|header| header.0)
}

/// Calls `parse_header` of hyper's `Date` and writes the date with
/// `to_string` of hyper's `HttpDate`. An error becomes `None`. The contract
/// gives the outcome a name.
#[verifier::external_body]
fn parse_date(raw: &Vec<Vec<u8>>) -> (r: Option<String>)
    ensures
        r.deep_view() == date_of(raw.deep_view()),
{
    Date::parse_header(raw.as_slice()).ok().map(|header| header.0.to_string())
}

/// The headers of a response: names and raw lines, in the order received.
#[derive(Debug)]
pub struct Headers {
    pub entries: Vec<(String, Vec<u8>)>,
}

impl DeepView for Headers {
    type V = Seq<(Seq<char>, Seq<u8>)>;

    open spec fn deep_view(&self) -> Seq<(Seq<char>, Seq<u8>)> {
        self.entries.deep_view()
    }
}

/// Whether every byte of every line is ASCII.
fn all_ascii(raw: &Vec<Vec<u8>>) -> (r: bool)
    ensures
        r == ascii_lines(raw.deep_view()),
{
    let ghost lines = raw.deep_view();
    let mut i: usize = 0;
    while i < raw.len()
        invariant
            i <= raw.len(),
            lines == raw.deep_view(),
            forall|k: int| 0 <= k < i ==> ascii(#[trigger] lines[k]),
        decreases raw.len() - i,
    {
        let line = &raw[i];
        assert(lines[i as int] =~= line@);
        let mut j: usize = 0;
        while j < line.len()
            invariant
                j <= line.len(),
                i < raw.len(),
                lines == raw.deep_view(),
                lines[i as int] == line@,
                forall|k: int| 0 <= k < j ==> #[trigger] line@[k] < 128,
            decreases line.len() - j,
        {
            if line[j] >= 128 {
                assert(!(line@[j as int] < 128));
                assert(!ascii(lines[i as int]));
                return false;
            }
            j += 1;
        }
        assert(ascii(lines[i as int]));
        i += 1;
    }
    true
}

/// Whether two header names are the same but for the case of ASCII letters.
fn names_match(a: &str, b: &str) -> (r: bool)
    ensures
        r == same_name(a@, b@),
{
    let x = chars_of(a);
    let y = chars_of(b);
    if x.len() != y.len() {
        return false;
    }
    let mut i: usize = 0;
    while i < x.len()
        invariant
            i <= x.len(),
            x.len() == y.len(),
            x@ == a@,
            y@ == b@,
            forall|k: int| 0 <= k < i ==> fold_case(#[trigger] x@[k]) == fold_case(y@[k]),
        decreases x.len() - i,
    {
        if fold(x[i]) != fold(y[i]) {
            return false;
        }
        i += 1;
    }
    true
}

/// The code of a letter, capital letters of ASCII counted as small ones.
fn fold(c: char) -> (r: u32)
    ensures
        r == fold_case(c),
{
    if 'A' <= c && c <= 'Z' {
        c as u32 + 32
    } else {
        c as u32
    }
}

impl Headers {
    /// No headers at all.
    pub fn new() -> (r: Headers)
        ensures
            r.deep_view() == Seq::<(Seq<char>, Seq<u8>)>::empty(),
    {
        let r = Headers { entries: Vec::new() };
        assert(r.deep_view() =~= Seq::<(Seq<char>, Seq<u8>)>::empty());
        r
    }

    /// Adds one header line after those that are there.
    pub fn append_raw(&mut self, name: &str, value: Vec<u8>)
        ensures
            final(self).deep_view() == old(self).deep_view().push((name@, value@)),
    {
        let ghost line = value@;
        assert(value.deep_view() =~= line);
        self.entries.push((name.to_owned(), value));
        assert(self.entries.deep_view() =~= old(self).entries.deep_view().push((name@, line)));
    }

    /// The lines of the headers with the given name, whatever the case of
    /// its letters; nothing where there is no such header.
    pub fn get_raw(&self, name: &str) -> (r: Option<Vec<Vec<u8>>>)
        ensures
            r.deep_view() == raw_header(self.deep_view(), name@),
    {
        let ghost all = self.deep_view();
        let mut out: Vec<Vec<u8>> = Vec::new();
        let mut i: usize = 0;
        assert(all.take(0) =~= Seq::empty());
        assert(out.deep_view() =~= Seq::empty());
        while i < self.entries.len()
            invariant
                i <= self.entries.len(),
                all == self.deep_view(),
                all.len() == self.entries.len(),
                out.deep_view() == lines_of(all.take(i as int), name@),
            decreases self.entries.len() - i,
        {
            let ghost before = out.deep_view();
            assert(all.take(i + 1).drop_last() =~= all.take(i as int));
            assert(all.take(i + 1).last() == (self.entries[i as int].0@, self.entries[i as int].1@));
            if names_match(self.entries[i].0.as_str(), name) {
                let line = self.entries[i].1.clone();
                assert(line@ == self.entries[i as int].1@);
                out.push(line);
                assert(out.deep_view() =~= before.push(self.entries[i as int].1@));
            }
            i += 1;
        }
        assert(all.take(i as int) =~= all);
        if out.len() == 0 {
            None
        } else {
            Some(out)
        }
    }

    /// The text of the `Location` header.
    pub fn location(&self) -> (r: Option<String>)
        ensures
            r.deep_view() == location_in(self.deep_view()),
    {
        match self.get_raw("Location") {
            Some(raw) => parse_location(&raw),
            None => None,
        }
    }

    /// The type and the subtype of the `Content-Type` header.
    pub fn content_type(&self) -> (r: Option<(String, String)>)
        ensures
            r.deep_view() == content_type_in(self.deep_view()),
    {
        match self.get_raw("Content-Type") {
            Some(raw) => if all_ascii(&raw) {
                parse_content_type(&raw)
            } else {
                None
            },
            None => None,
        }
    }

    /// The number of the `Content-Length` header.
    pub fn content_length(&self) -> (r: Option<u64>)
        ensures
            r == content_length_in(self.deep_view()),
    {
        match self.get_raw("Content-Length") {
            Some(raw) => parse_content_length(&raw),
            None => None,
        }
    }

    /// The date of the `Date` header, in the form of an HTTP date.
    pub fn date(&self) -> (r: Option<String>)
        ensures
            r.deep_view() == date_in(self.deep_view()),
    {
        match self.get_raw("Date") {
            Some(raw) => parse_date(&raw),
            None => None,
        }
    }
}

/// What came back for a request: status, headers and the body as bytes.
#[derive(Debug)]
pub struct Response {
    pub status: u16,
    pub headers: Headers,
    pub body: Vec<u8>,
}

/// The mathematical value of a [`Response`].
pub struct ResponseView {
    pub status: u16,
    pub headers: Seq<(Seq<char>, Seq<u8>)>,
    pub body: Seq<u8>,
}

impl DeepView for Response {
    type V = ResponseView;

    open spec fn deep_view(&self) -> ResponseView {
        ResponseView { status: self.status, headers: self.headers.deep_view(), body: self.body@ }
    }
}

} // verus!
