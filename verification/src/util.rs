use vstd::prelude::*;
use vstd::string::StrSliceExecFns;
use vstd::utf8::decode_utf8;
use vstd::utf8::encode_utf8;
use vstd::utf8::valid_utf8;

use url::Url;

use crate::codec::result_view;
use crate::error::CatapultError;
use crate::error::CatapultErrorView;
use crate::error::CatapultResult;
use crate::http::Headers;
use crate::http::location_in;
use crate::http::raw_header;
use crate::json::JsonSpec;
use crate::json::JsonValue;
use crate::json::written;
use crate::text::chars_of;
use crate::text::concat;
use crate::text::from_utf8_lossy;
use crate::text::lossy_text;

verus! {

#[verifier::external_type_specification]
#[verifier::external_body]
pub struct ExUrl(Url);

/// The serialization of a URL: the text that `as_str` gives.
pub uninterp spec fn url_text(url: Url) -> Seq<char>;

/// The serialization of the URL that `Url::parse` reads from a text, if it
/// reads one.
pub uninterp spec fn url_parse(text: Seq<char>) -> Option<Seq<char>>;

/// The serialization of a URL after `append_pair` has added a name and a
/// value to its query.
pub uninterp spec fn url_append_pair(url: Seq<char>, name: Seq<char>, value: Seq<char>) -> Seq<char>;

/// The most bytes that the serialization of a URL may have.
pub open spec fn url_limit() -> int {
    0xffff_ffff
}

/// Whether a name and a value can be added to a URL without passing the
/// limit whatever they hold: each of their bytes may become three.
pub open spec fn pair_fits(url: Seq<char>, name: Seq<char>, value: Seq<char>) -> bool {
    encode_utf8(url).len() + 3 * encode_utf8(name).len() + 3 * encode_utf8(value).len() + 3
        <= url_limit()
}

/// `Url::parse`: the URL that a text denotes. An error becomes `None`. The
/// contract gives the serialization of the outcome a name.
#[verifier::external_body]
fn parse_url(text: &str) -> (r: Option<Url>)
    ensures
        match r {
            Some(url) => url_parse(text@) == Some(url_text(url)),
            None => url_parse(text@) is None,
        },
{
    Url::parse(text).ok()
}

/// `Url::as_str` and the length of what it gives: the bytes of the
/// serialization.
#[verifier::external_body]
fn url_size(url: &Url) -> (r: usize)
    ensures
        r == encode_utf8(url_text(*url)).len(),
{
    url.as_str().len()
}

/// `Url::query_pairs_mut` and `append_pair` on what it gives: one more name
/// and value in the query. The contract gives the new serialization a name.
/// The URL crate keeps positions in 32 bits; the precondition keeps the
/// serialization within them.
#[verifier::external_body]
fn append_pair(url: &mut Url, name: &str, value: &str)
    requires
        pair_fits(url_text(*old(url)), name@, value@),
    ensures
        url_text(*final(url)) == url_append_pair(url_text(*old(url)), name@, value@),
{
    url.query_pairs_mut().append_pair(name, value);
}

/// `Url::into_string`: the serialization.
#[verifier::external_body]
fn url_into_string(url: Url) -> (r: String)
    ensures
        r@ == url_text(url),
{
    url.into_string()
}

/// The text that stands for a scalar in a query: a text as it is, without
/// quotes; a truth value as `true` or `false`; a number as JSON writes it.
/// A number that is held as a text that spells none has no such text.
pub open spec fn param_text(value: JsonSpec) -> Option<Seq<char>> {
    match value {
        JsonSpec::String(s) => Some(s),
        JsonSpec::Boolean(b) => Some(
            if b {
                "true"@
            } else {
                "false"@
            },
        ),
        _ => written(value),
    }
}

/// The error for a query parameter that cannot be written.
pub open spec fn unwritable_parameter() -> CatapultErrorView {
    CatapultErrorView::BadInput("query parameters must be values that can be written"@)
}

/// The error for a query parameter that holds an array or an object.
pub open spec fn structured_parameter() -> CatapultErrorView {
    CatapultErrorView::BadInput("query parameters must be scalar values"@)
}

/// The names and texts that the members of a parameter object put into a
/// query, in their order. A member that is `null` is absent and left out; an
/// array or an object is refused.
pub open spec fn member_pairs(fields: Seq<(Seq<char>, JsonSpec)>) -> Result<
    Seq<(Seq<char>, Seq<char>)>,
    CatapultErrorView,
>
    decreases fields.len(),
{
    if fields.len() == 0 {
        Ok(Seq::empty())
    } else {
        match member_pairs(fields.drop_last()) {
            Err(e) => Err(e),
            Ok(head) => match fields.last().1 {
                JsonSpec::Null => Ok(head),
                JsonSpec::Array(_) => Err(structured_parameter()),
                JsonSpec::Object(_) => Err(structured_parameter()),
                value => match param_text(value) {
                    Some(text) => Ok(head.push((fields.last().0, text))),
                    None => Err(unwritable_parameter()),
                },
            },
        }
    }
}

/// The names and texts that a set of parameters puts into a query. Only an
/// object holds parameters.
pub open spec fn query_pairs(params: JsonSpec) -> Result<Seq<(Seq<char>, Seq<char>)>, CatapultErrorView> {
    match params {
        JsonSpec::Object(fields) => member_pairs(fields),
        _ => Ok(Seq::empty()),
    }
}

/// The serialization of a URL after the pairs have been added to its query
/// one by one, or nothing where it would grow past the limit.
pub open spec fn with_pairs(url: Seq<char>, pairs: Seq<(Seq<char>, Seq<char>)>) -> Option<Seq<char>>
    decreases pairs.len(),
{
    if pairs.len() == 0 {
        Some(url)
    } else {
        match with_pairs(url, pairs.drop_last()) {
            None => None,
            Some(current) => if pair_fits(current, pairs.last().0, pairs.last().1) {
                Some(url_append_pair(current, pairs.last().0, pairs.last().1))
            } else {
                None
            },
        }
    }
}

/// The address of a request: the URL that the text denotes, with the
/// parameters in its query.
pub open spec fn request_url(text: Seq<char>, params: JsonSpec) -> Result<Seq<char>, CatapultErrorView> {
    match url_parse(text) {
        None => Err(CatapultErrorView::InvalidUrl),
        Some(url) => match query_pairs(params) {
            Err(e) => Err(e),
            Ok(pairs) => match with_pairs(url, pairs) {
                None => Err(CatapultErrorView::InvalidUrl),
                Some(full) => Ok(full),
            },
        },
    }
}

/// Once a prefix of the members is refused, so is the whole.
proof fn lemma_member_pairs_fails(fields: Seq<(Seq<char>, JsonSpec)>, n: int)
    requires
        0 <= n <= fields.len(),
        member_pairs(fields.take(n)) is Err,
    ensures
        member_pairs(fields) == member_pairs(fields.take(n)),
    decreases fields.len() - n,
{
    if n == fields.len() {
        assert(fields.take(n) =~= fields);
    } else {
        assert(fields.take(n + 1).drop_last() =~= fields.take(n));
        lemma_member_pairs_fails(fields, n + 1);
    }
}

/// Once a prefix of the pairs does not fit, neither does the whole.
proof fn lemma_with_pairs_fails(url: Seq<char>, pairs: Seq<(Seq<char>, Seq<char>)>, n: int)
    requires
        0 <= n <= pairs.len(),
        with_pairs(url, pairs.take(n)) is None,
    ensures
        with_pairs(url, pairs) is None,
    decreases pairs.len() - n,
{
    if n == pairs.len() {
        assert(pairs.take(n) =~= pairs);
    } else {
        assert(pairs.take(n + 1).drop_last() =~= pairs.take(n));
        lemma_with_pairs_fails(url, pairs, n + 1);
    }
}

/// Whether a URL of `size` bytes has room for a name and a value of the
/// given numbers of bytes.
fn fits(size: usize, name: usize, value: usize) -> (r: bool)
    ensures
        r == (size + 3 * name + 3 * value + 3 <= url_limit()),
{
    if size > 0xffff_ffff || name > 0xffff_ffff || value > 0xffff_ffff {
        false
    } else {
        let total: u64 = size as u64 + 3 * (name as u64) + 3 * (value as u64) + 3;
        total <= 0xffff_ffff
    }
}

/// The text that stands for a scalar in a query.
fn get_unquoted_value(json: &JsonValue) -> (r: Option<String>)
    ensures
        r.deep_view() == param_text(json.deep_view()),
{
    match json {
        JsonValue::String(s) => Some(s.clone()),
        JsonValue::Boolean(b) => Some(
            if *b {
                "true".to_owned()
            } else {
                "false".to_owned()
            },
        ),
        _ => json.encode(),
    }
}

/// The names and texts that a set of parameters puts into a query.
pub fn query_pairs_of(params: &JsonValue) -> (r: CatapultResult<Vec<(String, String)>>)
    ensures
        result_view(r) == query_pairs(params.deep_view()),
{
    match params {
        JsonValue::Object(fields) => {
            let ghost members = params.model()->Object_0;
            let mut out: Vec<(String, String)> = Vec::new();
            let mut i: usize = 0;
            assert(members.take(0) =~= Seq::empty());
            assert(out.deep_view() =~= Seq::empty());
            while i < fields.len()
                invariant
                    i <= fields.len(),
                    params.model() == JsonSpec::Object(members),
                    members.len() == fields.len(),
                    forall|k: int|
                        0 <= k < fields.len() ==> #[trigger] members[k] == (
                            fields[k].0@,
                            fields[k].1.model(),
                        ),
                    member_pairs(members.take(i as int)) == Ok::<
                        Seq<(Seq<char>, Seq<char>)>,
                        CatapultErrorView,
                    >(out.deep_view()),
                decreases fields.len() - i,
            {
                let ghost before = out.deep_view();
                assert(members.take(i + 1).drop_last() =~= members.take(i as int));
                assert(members.take(i + 1).last() == members[i as int]);
                match &fields[i].1 {
                    JsonValue::Null => {},
                    JsonValue::Array(_) => {
                        proof {
                            lemma_member_pairs_fails(members, i + 1);
                        }
                        return Err(CatapultError::bad_input("query parameters must be scalar values"));
                    },
                    JsonValue::Object(_) => {
                        proof {
                            lemma_member_pairs_fails(members, i + 1);
                        }
                        return Err(CatapultError::bad_input("query parameters must be scalar values"));
                    },
                    value => match get_unquoted_value(value) {
                        Some(text) => {
                            let ghost shown = text@;
                            out.push((fields[i].0.clone(), text));
                            assert(out.deep_view() =~= before.push((fields[i as int].0@, shown)));
                        },
                        None => {
                            proof {
                                lemma_member_pairs_fails(members, i + 1);
                            }
                            return Err(
                                CatapultError::bad_input(
                                    "query parameters must be values that can be written",
                                ),
                            );
                        },
                    },
                }
                i += 1;
            }
            assert(members.take(i as int) =~= members);
            Ok(out)
        },
        _ => {
            let out: Vec<(String, String)> = Vec::new();
            assert(out.deep_view() =~= Seq::empty());
            Ok(out)
        },
    }
}

/// Adds the parameters to the query of a URL. On an error the URL is not to
/// be used any more.
pub fn set_query_params_from_json(url: &mut Url, json: &JsonValue) -> (r: CatapultResult<()>)
    ensures
        match query_pairs(json.deep_view()) {
            Err(e) => result_view(r) == Err::<(), CatapultErrorView>(e) && url_text(*final(url))
                == url_text(*old(url)),
            Ok(pairs) => match with_pairs(url_text(*old(url)), pairs) {
                None => result_view(r) == Err::<(), CatapultErrorView>(CatapultErrorView::InvalidUrl),
                Some(full) => r is Ok && url_text(*final(url)) == full,
            },
        },
{
    let pairs = match query_pairs_of(json) {
        Ok(pairs) => pairs,
        Err(e) => {
            return Err(e);
        },
    };
    let ghost all = pairs.deep_view();
    let ghost start = url_text(*url);
    let mut i: usize = 0;
    assert(all.take(0) =~= Seq::empty());
    while i < pairs.len()
        invariant
            i <= pairs.len(),
            all == pairs.deep_view(),
            all.len() == pairs.len(),
            start == url_text(*old(url)),
            query_pairs(json.deep_view()) == Ok::<Seq<(Seq<char>, Seq<char>)>, CatapultErrorView>(all),
            with_pairs(start, all.take(i as int)) == Some(url_text(*url)),
        decreases pairs.len() - i,
    {
        assert(all.take(i + 1).drop_last() =~= all.take(i as int));
        assert(all.take(i + 1).last() == (pairs[i as int].0@, pairs[i as int].1@));
        let size = url_size(url);
        let name = pairs[i].0.as_str();
        let value = pairs[i].1.as_str();
        if !fits(size, name.as_bytes().len(), value.as_bytes().len()) {
            proof {
                lemma_with_pairs_fails(start, all, i + 1);
            }
            return Err(CatapultError::InvalidUrl);
        }
        append_pair(url, name, value);
        i += 1;
    }
    assert(all.take(i as int) =~= all);
    Ok(())
}

/// The address of a request: the URL that the text denotes, with the
/// parameters in its query.
pub fn make_url(text: &str, params: &JsonValue) -> (r: CatapultResult<String>)
    ensures
        result_view(r) == request_url(text@, params.deep_view()),
{
    let mut url = match parse_url(text) {
        Some(url) => url,
        None => {
            return Err(CatapultError::InvalidUrl);
        },
    };
    match set_query_params_from_json(&mut url, params) {
        Ok(()) => Ok(url_into_string(url)),
        Err(e) => Err(e),
    }
}

/// The error for a field that an event must have and lacks.
pub open spec fn missing(name: Seq<char>) -> CatapultErrorView {
    CatapultErrorView::Unexpected("required field not found: "@ + name)
}

/// The value of a required field, or the error that names the field that is
/// missing.
pub open spec fn required<V>(data: Option<V>, name: Seq<char>) -> Result<V, CatapultErrorView> {
    match data {
        Some(v) => Ok(v),
        None => Err(missing(name)),
    }
}

/// The value of a required field, or the error that names the field that is
/// missing.
pub fn expect<T: DeepView>(data: Option<T>, name: &str) -> (r: CatapultResult<T>)
    ensures
        result_view(r) == required(data.deep_view(), name@),
{
    match data {
        Some(data) => Ok(data),
        None => Err(CatapultError::Unexpected(concat("required field not found: ", name))),
    }
}

/// Where the last segment of a path begins: behind its last `/`, or at its
/// start.
pub open spec fn segment_start(path: Seq<char>) -> int
    decreases path.len(),
{
    if path.len() == 0 || path.last() == '/' {
        path.len() as int
    } else {
        segment_start(path.drop_last())
    }
}

/// The final segment of a path or URL, as a path of a Unix system has it:
/// slashes at the end and segments `.` do not count, and a path that ends
/// in `..`, or holds no segment at all, has none.
pub open spec fn file_name(path: Seq<char>) -> Option<Seq<char>>
    decreases path.len(),
{
    if path.len() == 0 {
        None
    } else if path.last() == '/' {
        file_name(path.drop_last())
    } else {
        let segment = path.subrange(segment_start(path), path.len() as int);
        if segment == seq!['.'] {
            file_name(path.drop_last())
        } else if segment == seq!['.', '.'] {
            None
        } else {
            Some(segment)
        }
    }
}

/// The identifier that a URL ends in, or the error that says that it ends
/// in none.
pub open spec fn id_of_url(url: Seq<char>) -> Result<Seq<char>, CatapultErrorView> {
    match file_name(url) {
        Some(id) => Ok(id),
        None => Err(CatapultErrorView::Unexpected("failed to parse id from Location header"@)),
    }
}

/// The identifier at the end of a URL that may be missing.
pub open spec fn opt_id_of_url(url: Option<Seq<char>>) -> Result<Option<Seq<char>>, CatapultErrorView> {
    match url {
        None => Ok(None),
        Some(url) => match id_of_url(url) {
            Ok(id) => Ok(Some(id)),
            Err(e) => Err(e),
        },
    }
}

/// The identifier of what a response says to have created: the final
/// segment of its `Location` header.
pub open spec fn id_of_location(headers: Seq<(Seq<char>, Seq<u8>)>) -> Result<Seq<char>, CatapultErrorView> {
    match location_in(headers) {
        None => Err(CatapultErrorView::Unexpected("Location header not found"@)),
        Some(url) => id_of_url(url),
    }
}

/// The last segment starts at the start of the path or behind a `/`.
proof fn lemma_segment_start_bound(path: Seq<char>)
    ensures
        0 <= segment_start(path) <= path.len(),
        segment_start(path) > 0 ==> path[segment_start(path) - 1] == '/',
    decreases path.len(),
{
    if path.len() == 0 || path.last() == '/' {
    } else {
        lemma_segment_start_bound(path.drop_last());
    }
}

/// A position with a `/` before it and none from it on is the start of the
/// last segment.
proof fn lemma_segment_start_is(path: Seq<char>, start: int)
    requires
        0 <= start <= path.len(),
        forall|i: int| start <= i < path.len() ==> path[i] != '/',
        start > 0 ==> path[start - 1] == '/',
    ensures
        segment_start(path) == start,
    decreases path.len(),
{
    if path.len() == 0 || path.last() == '/' {
    } else {
        lemma_segment_start_is(path.drop_last(), start);
    }
}

/// Whatever stands before it, the identifier that a URL ends in is the
/// segment behind its last `/`: a text that is not empty, holds no `/` and
/// is neither `.` nor `..`.
pub proof fn lemma_id_of_url(prefix: Seq<char>, id: Seq<char>)
    requires
        id.len() > 0,
        !id.contains('/'),
        id != seq!['.'],
        id != seq!['.', '.'],
    ensures
        id_of_url(prefix + seq!['/'] + id) == Ok::<Seq<char>, CatapultErrorView>(id),
        id_of_url(id) == Ok::<Seq<char>, CatapultErrorView>(id),
{
    let url = prefix + seq!['/'] + id;
    let start = prefix.len() + 1;
    assert forall|i: int| start <= i < url.len() implies url[i] != '/' by {
        assert(url[i] == id[i - start]);
        assert(id.contains(id[i - start]));
    }
    assert(url[start - 1] == '/');
    lemma_segment_start_is(url, start as int);
    assert(url.subrange(start as int, url.len() as int) =~= id);
    assert(url.last() == id.last());
    assert(id.contains(id.last()));
    assert forall|i: int| 0 <= i < id.len() implies id[i] != '/' by {
        assert(id.contains(id[i]));
    }
    lemma_segment_start_is(id, 0);
    assert(id.subrange(0, id.len() as int) =~= id);
}

/// Whether the characters before `end` end in a slash or in a segment that
/// is a single dot, neither of which counts for the final segment.
spec fn ends_idly(chars: Seq<char>, end: int) -> bool {
    end > 0 && (chars[end - 1] == '/' || (chars[end - 1] == '.' && (end == 1 || chars[end - 2]
        == '/')))
}

/// Where the part of a path ends that counts for its final segment.
fn trimmed_end(chars: &Vec<char>) -> (end: usize)
    ensures
        end <= chars.len(),
        file_name(chars@.take(end as int)) == file_name(chars@),
        !ends_idly(chars@, end as int),
{
    let mut end: usize = chars.len();
    assert(chars@.take(end as int) =~= chars@);
    while end > 0 && (chars[end - 1] == '/' || (chars[end - 1] == '.' && (end == 1 || chars[end - 2]
        == '/')))
        invariant
            end <= chars.len(),
            file_name(chars@.take(end as int)) == file_name(chars@),
        decreases end,
    {
        let ghost path = chars@.take(end as int);
        proof {
            assert(path.drop_last() =~= chars@.take(end - 1));
            if path.last() != '/' {
                lemma_segment_start_is(path, end - 1);
                assert(path.subrange(end - 1, end as int) =~= seq!['.']);
            }
        }
        end = end - 1;
    }
    end
}

/// Where the segment begins that ends before `end`.
fn segment_begin(chars: &Vec<char>, end: usize) -> (start: usize)
    requires
        0 < end <= chars.len(),
        chars[end - 1] != '/',
    ensures
        start < end,
        segment_start(chars@.take(end as int)) == start,
{
    let mut start: usize = end - 1;
    while start > 0 && chars[start - 1] != '/'
        invariant
            start < end <= chars.len(),
            forall|i: int| start <= i < end ==> chars@[i] != '/',
        decreases start,
    {
        start = start - 1;
    }
    proof {
        lemma_segment_start_is(chars@.take(end as int), start as int);
    }
    start
}

pub fn get_id_from_location_url(url: &str) -> (r: CatapultResult<String>)
    ensures
        result_view(r) == id_of_url(url@),
{
    let chars = chars_of(url);
    let end = trimmed_end(&chars);
    if end == 0 {
        return Err(CatapultError::unexpected("failed to parse id from Location header"));
    }
    let start = segment_begin(&chars, end);
    let ghost path = chars@.take(end as int);
    let ghost segment = path.subrange(start as int, end as int);
    proof {
        assert(path.last() == chars@[end - 1]);
        if segment == seq!['.'] {
            assert(segment.len() == 1);
            assert(segment[0] == '.');
            assert(start == end - 1);
            assert(start > 0 ==> chars@[start - 1] == path[start - 1]);
            lemma_segment_start_bound(path);
            assert(false);
        }
        assert(segment =~= url@.subrange(start as int, end as int));
    }
    if end - start == 2 && chars[start] == '.' && chars[start + 1] == '.' {
        assert(segment =~= seq!['.', '.']);
        return Err(CatapultError::unexpected("failed to parse id from Location header"));
    }
    proof {
        if segment == seq!['.', '.'] {
            assert(segment.len() == 2);
            assert(segment[0] == '.' && segment[1] == '.');
            assert(false);
        }
    }
    Ok(url.substring_char(start, end).to_owned())
}

/// The identifier at the end of a URL that may be missing.
pub fn opt_id_from_url(url: &Option<String>) -> (r: CatapultResult<Option<String>>)
    ensures
        result_view(r) == opt_id_of_url(url.deep_view()),
{
    match url {
        None => Ok(None),
        Some(url) => match get_id_from_location_url(url.as_str()) {
            Ok(id) => Ok(Some(id)),
            Err(e) => Err(e),
        },
    }
}

pub fn get_id_from_location_header(headers: &Headers) -> (r: CatapultResult<String>)
    ensures
        result_view(r) == id_of_location(headers.deep_view()),
{
    match headers.location() {
        Some(location) => get_id_from_location_url(location.as_str()),
        None => Err(CatapultError::unexpected("Location header not found")),
    }
}

/// The first position at or after `from` where `c` stands.
pub open spec fn index_from(text: Seq<char>, c: char, from: int) -> Option<int>
    decreases text.len() - from,
{
    if from < 0 || from >= text.len() {
        None
    } else if text[from] == c {
        Some(from)
    } else {
        index_from(text, c, from + 1)
    }
}

/// Whether `pattern` stands in `text` at position `at`.
pub open spec fn occurs_at(text: Seq<char>, pattern: Seq<char>, at: int) -> bool {
    0 <= at && at + pattern.len() <= text.len() && text.subrange(at, at + pattern.len()) == pattern
}

/// Whether `pattern` stands somewhere in `text`.
pub open spec fn contains(text: Seq<char>, pattern: Seq<char>) -> bool {
    exists|at: int| occurs_at(text, pattern, at)
}

/// The error for a link to the next page that cannot be read.
pub open spec fn malformed_link() -> CatapultErrorView {
    CatapultErrorView::Unexpected("failed to parse next link from Link header"@)
}

/// What one entry of a `Link` header says of the next page: nothing, unless
/// it is tagged `rel="next"`. An entry with the tag gives the text between
/// its first `<` and its first `>`; where one of them is missing, or the
/// `>` does not stand behind the `<`, the entry cannot be read, and that is
/// an error and not the end of the pages.
pub open spec fn link_target(entry: Seq<char>) -> Option<Result<Seq<char>, CatapultErrorView>> {
    if contains(entry, "rel=\"next\""@) {
        match (index_from(entry, '<', 0), index_from(entry, '>', 0)) {
            (Some(a), Some(b)) => if a < b {
                Some(Ok(entry.subrange(a + 1, b)))
            } else {
                Some(Err(malformed_link()))
            },
            _ => Some(Err(malformed_link())),
        }
    } else {
        None
    }
}

/// The address of the next page that the text of a `Link` header gives: that
/// of the first of its entries, which commas part, that says one.
pub open spec fn next_link(text: Seq<char>) -> Result<Option<Seq<char>>, CatapultErrorView>
    decreases text.len(),
{
    match index_from(text, ',', 0) {
        None => match link_target(text) {
            Some(Ok(url)) => Ok(Some(url)),
            Some(Err(e)) => Err(e),
            None => Ok(None),
        },
        Some(comma) => match link_target(text.subrange(0, comma)) {
            Some(Ok(url)) => Ok(Some(url)),
            Some(Err(e)) => Err(e),
            None => if 0 <= comma < text.len() {
                next_link(text.subrange(comma + 1, text.len() as int))
            } else {
                Ok(None)
            },
        },
    }
}

/// Bytes read leniently as text: the text that they encode where they are
/// UTF-8, and else what `String::from_utf8_lossy` makes of them.
pub open spec fn lenient_text(bytes: Seq<u8>) -> Seq<char> {
    if valid_utf8(bytes) {
        decode_utf8(bytes)
    } else {
        lossy_text(bytes)
    }
}

/// The address of the next page that the headers of a response give: what
/// the first line of the header `link` says, read leniently as text.
pub open spec fn next_link_of(headers: Seq<(Seq<char>, Seq<u8>)>) -> Result<
    Option<Seq<char>>,
    CatapultErrorView,
> {
    match raw_header(headers, "link"@) {
        None => Ok(None),
        Some(raw) => next_link(lenient_text(raw[0])),
    }
}

/// A search from a later position finds the same, if nothing stands between.
proof fn lemma_index_from_skip(text: Seq<char>, c: char, from: int, to: int)
    requires
        0 <= from <= to <= text.len(),
        forall|i: int| from <= i < to ==> text[i] != c,
    ensures
        index_from(text, c, from) == index_from(text, c, to),
    decreases to - from,
{
    if from < to {
        lemma_index_from_skip(text, c, from + 1, to);
    }
}

/// A search in a window of a text finds what a search in the text finds
/// there.
proof fn lemma_index_from_window(text: Seq<char>, c: char, lo: int, hi: int, at: int)
    requires
        0 <= lo <= at <= hi <= text.len(),
        forall|i: int| lo <= i < at ==> text[i] != c,
        at < hi ==> text[at] == c,
    ensures
        index_from(text.subrange(lo, hi), c, 0) == if at < hi {
            Some(at - lo)
        } else {
            None
        },
{
    let window = text.subrange(lo, hi);
    lemma_index_from_skip(window, c, 0, at - lo);
}

/// A header that holds one entry, the address in angle brackets and the tag
/// `rel="next"` behind it, gives that address, whatever the address is, as
/// long as it holds neither an angle bracket nor a comma.
pub proof fn lemma_next_link(url: Seq<char>)
    requires
        !url.contains('<'),
        !url.contains('>'),
        !url.contains(','),
    ensures
        next_link(seq!['<'] + url + ">; rel=\"next\""@) == Ok::<Option<Seq<char>>, CatapultErrorView>(
            Some(url),
        ),
{
    reveal_strlit(">; rel=\"next\"");
    reveal_strlit("rel=\"next\"");
    let tail = ">; rel=\"next\""@;
    let pattern = "rel=\"next\""@;
    let text = seq!['<'] + url + tail;
    let close: int = url.len() as int + 1;
    assert forall|i: int| 0 <= i < text.len() implies text[i] != ',' by {
        if 1 <= i < close {
            assert(text[i] == url[i - 1]);
            assert(url.contains(url[i - 1]));
        } else if i >= close {
            assert(text[i] == tail[i - close]);
        }
    }
    lemma_index_from_skip(text, ',', 0, text.len() as int);
    assert(index_from(text, ',', 0) is None);
    assert(text.subrange(close + 3, close + 3 + pattern.len()) =~= pattern);
    assert(occurs_at(text, pattern, close + 3));
    assert(index_from(text, '<', 0) == Some(0int));
    assert forall|i: int| 0 <= i < close implies text[i] != '>' by {
        if 1 <= i {
            assert(text[i] == url[i - 1]);
            assert(url.contains(url[i - 1]));
        }
    }
    lemma_index_from_skip(text, '>', 0, close);
    assert(text[close] == '>');
    assert(index_from(text, '>', 0) == Some(close));
    assert(text.subrange(1, close) =~= url);
}

/// The first position of `c` in the window from `lo` to `hi`, or `hi`.
fn find_char(chars: &Vec<char>, lo: usize, hi: usize, c: char) -> (at: usize)
    requires
        lo <= hi <= chars.len(),
    ensures
        lo <= at <= hi,
        index_from(chars@.subrange(lo as int, hi as int), c, 0) == if at < hi {
            Some(at - lo)
        } else {
            None
        },
{
    let mut at: usize = lo;
    while at < hi && chars[at] != c
        invariant
            lo <= at <= hi <= chars.len(),
            forall|i: int| lo <= i < at ==> chars@[i] != c,
        decreases hi - at,
    {
        at += 1;
    }
    proof {
        lemma_index_from_window(chars@, c, lo as int, hi as int, at as int);
    }
    at
}

/// Whether `pattern` stands in `chars` at position `at`, before `hi`.
fn matches_at(chars: &Vec<char>, at: usize, hi: usize, pattern: &Vec<char>) -> (r: bool)
    requires
        at <= hi <= chars.len(),
    ensures
        r == (at + pattern.len() <= hi && chars@.subrange(at as int, at + pattern.len())
            == pattern@),
{
    if pattern.len() > hi - at {
        return false;
    }
    let mut k: usize = 0;
    while k < pattern.len()
        invariant
            k <= pattern.len(),
            at + pattern.len() <= hi <= chars.len(),
            forall|j: int| 0 <= j < k ==> chars@[at + j] == pattern@[j],
        decreases pattern.len() - k,
    {
        if chars[at + k] != pattern[k] {
            assert(chars@.subrange(at as int, at + pattern.len())[k as int] != pattern@[k as int]);
            return false;
        }
        k += 1;
    }
    assert(chars@.subrange(at as int, at + pattern.len()) =~= pattern@);
    true
}

/// Whether `pattern` stands somewhere in the window from `lo` to `hi`.
fn window_contains(chars: &Vec<char>, lo: usize, hi: usize, pattern: &Vec<char>) -> (r: bool)
    requires
        lo <= hi <= chars.len(),
    ensures
        r == contains(chars@.subrange(lo as int, hi as int), pattern@),
{
    let ghost window = chars@.subrange(lo as int, hi as int);
    let mut at: usize = lo;
    while at < hi
        invariant
            lo <= at <= hi <= chars.len(),
            window == chars@.subrange(lo as int, hi as int),
            forall|i: int| 0 <= i < at - lo ==> !occurs_at(window, pattern@, i),
        decreases hi - at,
    {
        if matches_at(chars, at, hi, pattern) {
            assert(window.subrange(at - lo, at - lo + pattern.len()) =~= chars@.subrange(
                at as int,
                at + pattern.len(),
            ));
            assert(occurs_at(window, pattern@, at - lo));
            return true;
        }
        proof {
            if at + pattern.len() <= hi {
                assert(window.subrange(at - lo, at - lo + pattern.len()) =~= chars@.subrange(
                    at as int,
                    at + pattern.len(),
                ));
            }
        }
        at += 1;
    }
    if pattern.len() == 0 {
        assert(window.subrange(hi - lo, hi - lo) =~= pattern@);
        assert(occurs_at(window, pattern@, hi - lo));
        return true;
    }
    assert(forall|i: int| !occurs_at(window, pattern@, i));
    false
}

/// The address of the next page that the text of a `Link` header gives.
pub fn next_link_in(text: &str) -> (r: CatapultResult<Option<String>>)
    ensures
        result_view(r) == next_link(text@),
{
    let chars = chars_of(text);
    let pattern = chars_of("rel=\"next\"");
    let len = chars.len();
    let mut pos: usize = 0;
    assert(chars@.subrange(0, len as int) =~= chars@);
    loop
        invariant
            pos <= len,
            len == chars.len(),
            chars@ == text@,
            pattern@ == "rel=\"next\""@,
            next_link(chars@.subrange(pos as int, len as int)) == next_link(chars@),
        decreases len - pos,
    {
        let ghost rest = chars@.subrange(pos as int, len as int);
        let comma = find_char(&chars, pos, len, ',');
        let ghost entry = chars@.subrange(pos as int, comma as int);
        proof {
            assert(rest.subrange(0, comma - pos) =~= entry);
            if comma == len {
                assert(entry =~= rest);
            }
        }
        if window_contains(&chars, pos, comma, &pattern) {
            let a = find_char(&chars, pos, comma, '<');
            let b = find_char(&chars, pos, comma, '>');
            if a < comma && b < comma && a < b {
                let url = text.substring_char(a + 1, b).to_owned();
                assert(url@ =~= entry.subrange(a - pos + 1, b - pos));
                return Ok(Some(url));
            } else {
                return Err(CatapultError::unexpected("failed to parse next link from Link header"));
            }
        }
        if comma == len {
            return Ok(None);
        }
        proof {
            assert(rest.subrange(comma - pos + 1, rest.len() as int) =~= chars@.subrange(
                comma + 1,
                len as int,
            ));
        }
        pos = comma + 1;
    }
}

pub fn get_next_link_from_headers(headers: &Headers) -> (r: CatapultResult<Option<String>>)
    ensures
        result_view(r) == next_link_of(headers.deep_view()),
{
    match headers.get_raw("link") {
        Some(raw) => {
            assert(raw.deep_view().len() > 0);
            assert(raw.deep_view()[0] =~= raw[0]@);
            let text = from_utf8_lossy(&raw[0]);
            next_link_in(text.as_str())
        },
        None => Ok(None),
    }
}

} // verus!
