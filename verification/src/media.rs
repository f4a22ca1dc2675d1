use vstd::prelude::*;
use vstd::string::StrSliceExecFns;
use vstd::utf8::encode_utf8;

use crate::client::ApiResponse;
use crate::client::ByteResponse;
use crate::client::Client;
use crate::client::ClientView;
use crate::client::EmptyResponse;
use crate::codec::result_view;
use crate::error::CatapultError;
use crate::error::CatapultErrorView;
use crate::error::CatapultResult;
use crate::http::Headers;
use crate::http::Method;
use crate::http::Request;
use crate::http::RequestView;
use crate::http::Response;
use crate::http::ResponseView;
use crate::http::content_length_in;
use crate::http::content_type_in;
use crate::http::date_in;
use crate::json::JsonSpec;
use crate::json::JsonValue;
use crate::lazy::Lazy;
use crate::lazy::Read;
use crate::lazy::asks_load;
use crate::lazy::read_field;
use crate::lazy::reads_value;
use crate::text::concat;
use crate::text::from_utf8;
use crate::text::utf8_text;
use crate::util::get_id_from_location_url;
use crate::util::id_of_url;

verus! {

/// What can be stored as a media file.
pub trait ToBytes: Sized {
    /// The bytes that are stored.
    spec fn bytes(&self) -> Seq<u8>;

    fn to_bytes(self) -> (r: Vec<u8>)
        ensures
            r@ == self.bytes(),
    ;
}

impl ToBytes for Vec<u8> {
    open spec fn bytes(&self) -> Seq<u8> {
        self@
    }

    fn to_bytes(self) -> (r: Vec<u8>) {
        self
    }
}

impl ToBytes for String {
    open spec fn bytes(&self) -> Seq<u8> {
        encode_utf8(self@)
    }

    fn to_bytes(self) -> (r: Vec<u8>) {
        self.as_str().as_bytes_vec()
    }
}

impl<'a> ToBytes for &'a str {
    open spec fn bytes(&self) -> Seq<u8> {
        encode_utf8(self@)
    }

    fn to_bytes(self) -> (r: Vec<u8>) {
        self.as_bytes_vec()
    }
}

#[derive(Debug)]
struct Data {
    content_type: Lazy<String>,
    date: Lazy<String>,
    content_length: Lazy<u64>,
}

impl Data {
    spec fn view_as(&self, filename: Seq<char>) -> MediaView {
        MediaView {
            filename,
            content_type: self.content_type.deep_view(),
            date: self.date.deep_view(),
            content_length: self.content_length.deep_view(),
        }
    }

    /// Fields of which nothing is known yet.
    fn unloaded() -> (r: Data)
        ensures
            r.content_type is NotLoaded,
            r.date is NotLoaded,
            r.content_length is NotLoaded,
    {
        Data {
            content_type: Lazy::NotLoaded,
            date: Lazy::NotLoaded,
            content_length: Lazy::NotLoaded,
        }
    }
}

/// A media file of the user. What the service tells of it, it tells in the
/// headers of its responses; that is fetched when it is first read.
#[derive(Debug)]
pub struct Media {
    filename: String,
    data: Data,
}

/// The mathematical value of a [`Media`].
pub struct MediaView {
    pub filename: Seq<char>,
    pub content_type: Lazy<Seq<char>>,
    pub date: Lazy<Seq<char>>,
    pub content_length: Lazy<u64>,
}

impl DeepView for Media {
    type V = MediaView;

    closed spec fn deep_view(&self) -> MediaView {
        self.data.view_as(self.filename@)
    }
}

impl View for Media {
    type V = MediaView;

    open spec fn view(&self) -> MediaView {
        self.deep_view()
    }
}

/// What the headers of a response tell of a media file: its type, its date
/// and its length. Each of the three must be there and well formed.
pub open spec fn metadata(headers: Seq<(Seq<char>, Seq<u8>)>) -> Result<(Seq<char>, Seq<char>, u64), CatapultErrorView> {
    match content_type_in(headers) {
        None => Err(CatapultErrorView::Unexpected("Content-Type header missing on media"@)),
        Some(mime) => match content_length_in(headers) {
            None => Err(CatapultErrorView::Unexpected("Content-Length header missing on media"@)),
            Some(length) => match date_in(headers) {
                None => Err(CatapultErrorView::Unexpected("Date header missing on media"@)),
                Some(date) => Ok((mime.0 + "/"@ + mime.1, date, length)),
            },
        },
    }
}

impl MediaView {
    /// A media file of which only the name is known.
    pub open spec fn unloaded(filename: Seq<char>) -> MediaView {
        MediaView {
            filename,
            content_type: Lazy::NotLoaded,
            date: Lazy::NotLoaded,
            content_length: Lazy::NotLoaded,
        }
    }

    /// Whether every field holds a value.
    pub open spec fn complete(self) -> bool {
        &&& self.content_type is Available
        &&& self.date is Available
        &&& self.content_length is Available
    }

    /// The media file of the given name as the headers of a response
    /// describe it.
    pub open spec fn of_headers(filename: Seq<char>, headers: Seq<(Seq<char>, Seq<u8>)>) -> Result<
        MediaView,
        CatapultErrorView,
    > {
        match metadata(headers) {
            Err(e) => Err(e),
            Ok(data) => Ok(
                MediaView {
                    filename,
                    content_type: Lazy::Available(data.0),
                    date: Lazy::Available(data.1),
                    content_length: Lazy::Available(data.2),
                },
            ),
        }
    }

    /// The path of the media file of the given name.
    pub open spec fn path_of(client: ClientView, filename: Seq<char>) -> Seq<char> {
        client.user_path("/media/"@ + filename)
    }

    /// What a request that addresses a media file by its name comes to: an
    /// empty name is refused before any request is made, since the path
    /// would be that of the list of all.
    pub open spec fn named(filename: Seq<char>, request: Result<RequestView, CatapultErrorView>) -> Result<
        RequestView,
        CatapultErrorView,
    > {
        if filename.len() == 0 {
            Err(CatapultErrorView::BadInput("invalid media name"@))
        } else {
            request
        }
    }

    /// The request that stores bytes under the given name.
    pub open spec fn create_request(client: ClientView, filename: Seq<char>, bytes: Seq<u8>) -> Result<
        RequestView,
        CatapultErrorView,
    > {
        MediaView::named(
            filename,
            client.request(Method::Put, MediaView::path_of(client, filename), JsonSpec::Null, bytes),
        )
    }

    /// The media file that the response to a storing describes.
    pub open spec fn created(filename: Seq<char>, res: ResponseView) -> Result<MediaView, CatapultErrorView> {
        match res.empty() {
            Err(e) => Err(e),
            Ok(headers) => MediaView::of_headers(filename, headers),
        }
    }

    /// The request that fetches what the service tells of the file.
    pub open spec fn load_request(self, client: ClientView) -> Result<RequestView, CatapultErrorView> {
        MediaView::named(
            self.filename,
            client.request(
                Method::Head,
                MediaView::path_of(client, self.filename),
                JsonSpec::Null,
                Seq::empty(),
            ),
        )
    }

    /// The media file after a fetch: every field as the headers of the
    /// response give it. A response that tells of a failure, or lacks one
    /// of the headers, gives the error instead.
    pub open spec fn loaded(self, res: ResponseView) -> Result<MediaView, CatapultErrorView> {
        MediaView::created(self.filename, res)
    }

    /// The request that fetches the bytes of the file.
    pub open spec fn contents_request(self, client: ClientView) -> Result<RequestView, CatapultErrorView> {
        MediaView::named(self.filename, client.get(MediaView::path_of(client, self.filename)))
    }

    /// The bytes of the file that a response holds. The response must
    /// describe the file in its headers as every other does.
    pub open spec fn contents(res: ResponseView) -> Result<Seq<u8>, CatapultErrorView> {
        match res.bytes() {
            Err(e) => Err(e),
            Ok(found) => match metadata(found.headers) {
                Err(e) => Err(e),
                Ok(_) => Ok(found.body),
            },
        }
    }

    /// The bytes of the file that a response holds, as the text that they
    /// encode.
    pub open spec fn contents_text(res: ResponseView) -> Result<Seq<char>, CatapultErrorView> {
        match MediaView::contents(res) {
            Err(e) => Err(e),
            Ok(bytes) => match utf8_text(bytes) {
                Some(text) => Ok(text),
                None => Err(CatapultErrorView::Utf8Error),
            },
        }
    }
}

impl Media {
    /// The path of the media file of the given name.
    fn path_of(client: &Client, filename: &str) -> (r: String)
        ensures
            r@ == MediaView::path_of(client@, filename@),
    {
        let rest = concat("/media/", filename);
        client.user_path(rest.as_str())
    }

    /// Refuses a request where the name that its path needs is empty.
    fn named(filename: &str, request: CatapultResult<Request>) -> (r: CatapultResult<Request>)
        ensures
            result_view(r) == MediaView::named(filename@, result_view(request)),
    {
        if filename.unicode_len() == 0 {
            Err(CatapultError::bad_input("invalid media name"))
        } else {
            request
        }
    }

    /// The request that stores the data under the given name.
    pub fn create_request<T: ToBytes>(client: &Client, filename: &str, data: T) -> (r: CatapultResult<Request>)
        ensures
            result_view(r) == MediaView::create_request(client@, filename@, data.bytes()),
    {
        let bytes = data.to_bytes();
        let path = Media::path_of(client, filename);
        Media::named(filename, client.raw_put_request(path.as_str(), &JsonValue::Null, bytes))
    }

    /// The media file that was stored, from the response to the request of
    /// `create_request`.
    pub fn create(filename: &str, res: Response) -> (r: CatapultResult<Media>)
        ensures
            result_view(r) == MediaView::created(filename@, res.deep_view()),
    {
        let res = match EmptyResponse::new(res) {
            Ok(res) => res,
            Err(e) => {
                return Err(e);
            },
        };
        match Media::load_metadata_from_headers(&res.headers) {
            Ok(data) => Ok(Media { filename: filename.to_owned(), data }),
            Err(e) => Err(e),
        }
    }

    /// The media file of the given name, with nothing fetched yet.
    pub fn get(filename: &str) -> (r: Media)
        ensures
            r@ == MediaView::unloaded(filename@),
    {
        Media { filename: filename.to_owned(), data: Data::unloaded() }
    }

    /// What the headers of a response tell of a media file.
    fn load_metadata_from_headers(headers: &Headers) -> (r: CatapultResult<Data>)
        ensures
            match metadata(headers.deep_view()) {
                Ok(data) => r is Ok && r->Ok_0.content_type.deep_view() == Lazy::Available(data.0)
                    && r->Ok_0.date.deep_view() == Lazy::Available(data.1)
                    && r->Ok_0.content_length.deep_view() == Lazy::Available(data.2),
                Err(e) => r is Err && r->Err_0.deep_view() == e,
            },
    {
        let content_type = match headers.content_type() {
            Some(mime) => {
                let top = concat(mime.0.as_str(), "/");
                concat(top.as_str(), mime.1.as_str())
            },
            None => {
                return Err(CatapultError::unexpected("Content-Type header missing on media"));
            },
        };
        let content_length = match headers.content_length() {
            Some(length) => length,
            None => {
                return Err(CatapultError::unexpected("Content-Length header missing on media"));
            },
        };
        let date = match headers.date() {
            Some(date) => date,
            None => {
                return Err(CatapultError::unexpected("Date header missing on media"));
            },
        };
        Ok(
            Data {
                content_type: Lazy::Available(content_type),
                date: Lazy::Available(date),
                content_length: Lazy::Available(content_length),
            },
        )
    }

    /// The request that fetches what the service tells of the file.
    pub fn load_request(&self, client: &Client) -> (r: CatapultResult<Request>)
        ensures
            result_view(r) == self@.load_request(client@),
    {
        let path = Media::path_of(client, self.filename.as_str());
        Media::named(
            self.filename.as_str(),
            client.raw_head_request(path.as_str(), &JsonValue::Null, ()),
        )
    }

    /// Takes the response to the request of `load_request` and, where its
    /// headers describe the file, replaces every field by what they say. On
    /// an error nothing changes.
    pub fn load(&mut self, res: Response) -> (r: CatapultResult<()>)
        ensures
            match old(self)@.loaded(res.deep_view()) {
                Ok(after) => r is Ok && final(self)@ == after,
                Err(e) => result_view(r) == Err::<(), CatapultErrorView>(e) && final(self)@ == old(
                    self,
                )@,
            },
    {
        let res = match EmptyResponse::new(res) {
            Ok(res) => res,
            Err(e) => {
                return Err(e);
            },
        };
        self.data = match Media::load_metadata_from_headers(&res.headers) {
            Ok(data) => data,
            Err(e) => {
                return Err(e);
            },
        };
        Ok(())
    }

    /// A copy of the media file and of what is known of it.
    pub fn clone(&self) -> (r: Media)
        ensures
            r@ == self@,
    {
        Media {
            filename: self.filename.clone(),
            data: Data {
                content_type: match &self.data.content_type {
                    Lazy::Available(v) => Lazy::Available(v.clone()),
                    Lazy::NotLoaded => Lazy::NotLoaded,
                },
                date: match &self.data.date {
                    Lazy::Available(v) => Lazy::Available(v.clone()),
                    Lazy::NotLoaded => Lazy::NotLoaded,
                },
                content_length: match &self.data.content_length {
                    Lazy::Available(v) => Lazy::Available(*v),
                    Lazy::NotLoaded => Lazy::NotLoaded,
                },
            },
        }
    }

    pub fn get_filename(&self) -> (r: String)
        ensures
            r@ == self@.filename,
    {
        self.filename.clone()
    }

    pub fn get_content_type(&self, client: &Client) -> (r: CatapultResult<Read<String>>)
        ensures
            result_view(r) == read_field(self@.content_type, self@.load_request(client@)),
    {
        match &self.data.content_type {
            Lazy::Available(v) => Ok(Read::Value(v.clone())),
            Lazy::NotLoaded => Read::load(self.load_request(client)),
        }
    }

    pub fn get_date(&self, client: &Client) -> (r: CatapultResult<Read<String>>)
        ensures
            result_view(r) == read_field(self@.date, self@.load_request(client@)),
    {
        match &self.data.date {
            Lazy::Available(v) => Ok(Read::Value(v.clone())),
            Lazy::NotLoaded => Read::load(self.load_request(client)),
        }
    }

    pub fn get_content_length(&self, client: &Client) -> (r: CatapultResult<Read<u64>>)
        ensures
            result_view(r) == read_field(self@.content_length, self@.load_request(client@)),
    {
        match &self.data.content_length {
            Lazy::Available(v) => Ok(Read::Value(*v)),
            Lazy::NotLoaded => Read::load(self.load_request(client)),
        }
    }

    /// The request that fetches the bytes of the file.
    pub fn get_contents_request(&self, client: &Client) -> (r: CatapultResult<Request>)
        ensures
            result_view(r) == self@.contents_request(client@),
    {
        let path = Media::path_of(client, self.filename.as_str());
        Media::named(self.filename.as_str(), client.get_request(path.as_str()))
    }

    /// The bytes of the file, from the response to the request of
    /// `get_contents_request`.
    pub fn get_contents(res: Response) -> (r: CatapultResult<Vec<u8>>)
        ensures
            match MediaView::contents(res.deep_view()) {
                Ok(bytes) => r is Ok && r->Ok_0@ == bytes,
                Err(e) => r is Err && r->Err_0.deep_view() == e,
            },
    {
        let res = match ByteResponse::new(res) {
            Ok(res) => res,
            Err(e) => {
                return Err(e);
            },
        };
        match Media::load_metadata_from_headers(&res.headers) {
            Ok(_) => Ok(res.body),
            Err(e) => Err(e),
        }
    }

    /// The bytes of the file as text, from the response to the request of
    /// `get_contents_request`.
    pub fn get_contents_as_string(res: Response) -> (r: CatapultResult<String>)
        ensures
            result_view(r) == MediaView::contents_text(res.deep_view()),
    {
        let body = match Media::get_contents(res) {
            Ok(body) => body,
            Err(e) => {
                return Err(e);
            },
        };
        match from_utf8(&body) {
            Some(text) => Ok(text),
            None => Err(CatapultError::Utf8Error),
        }
    }
}

/// The media files that a list of URLs names: each is the file whose name
/// is the last segment of its URL. The first URL that ends in no name
/// decides.
pub open spec fn media_of(urls: Seq<Seq<char>>) -> Result<Seq<MediaView>, CatapultErrorView>
    decreases urls.len(),
{
    if urls.len() == 0 {
        Ok(Seq::empty())
    } else {
        match media_of(urls.drop_last()) {
            Err(e) => Err(e),
            Ok(head) => match id_of_url(urls.last()) {
                Err(e) => Err(e),
                Ok(filename) => Ok(head.push(MediaView::unloaded(filename))),
            },
        }
    }
}

/// The media files that a list of URLs names, where there is a list.
pub open spec fn opt_media_of(urls: Option<Seq<Seq<char>>>) -> Result<Seq<MediaView>, CatapultErrorView> {
    match urls {
        Some(urls) => media_of(urls),
        None => Ok(Seq::empty()),
    }
}

/// Once a prefix of the URLs fails, the whole fails in the same way.
proof fn lemma_media_of_fails(urls: Seq<Seq<char>>, n: int)
    requires
        0 <= n <= urls.len(),
        media_of(urls.take(n)) is Err,
    ensures
        media_of(urls) == media_of(urls.take(n)),
    decreases urls.len() - n,
{
    if n == urls.len() {
        assert(urls.take(n) =~= urls);
    } else {
        assert(urls.take(n + 1).drop_last() =~= urls.take(n));
        lemma_media_of_fails(urls, n + 1);
    }
}

/// The media files that a list of URLs names, where there is a list.
pub fn media_from_urls(urls: &Option<Vec<String>>) -> (r: CatapultResult<Vec<Media>>)
    ensures
        result_view(r) == opt_media_of(urls.deep_view()),
{
    let mut output: Vec<Media> = Vec::new();
    assert(output.deep_view() =~= Seq::empty());
    match urls {
        None => Ok(output),
        Some(list) => {
            let ghost all = list.deep_view();
            let mut i: usize = 0;
            assert(all.take(0) =~= Seq::empty());
            while i < list.len()
                invariant
                    i <= list.len(),
                    all == list.deep_view(),
                    urls.deep_view() == Some(all),
                    media_of(all.take(i as int)) == Ok::<Seq<MediaView>, CatapultErrorView>(
                        output.deep_view(),
                    ),
                decreases list.len() - i,
            {
                let ghost before = output.deep_view();
                assert(all.take(i + 1).drop_last() =~= all.take(i as int));
                assert(all.take(i + 1).last() == list[i as int]@);
                let filename = match get_id_from_location_url(list[i].as_str()) {
                    Ok(filename) => filename,
                    Err(e) => {
                        proof {
                            lemma_media_of_fails(all, i + 1);
                        }
                        return Err(e);
                    },
                };
                let item = Media::get(filename.as_str());
                let ghost v = item.deep_view();
                output.push(item);
                assert(output.deep_view() =~= before.push(v));
                i += 1;
            }
            assert(all.take(i as int) =~= all);
            Ok(output)
        },
    }
}

/// A copy of a list of media files.
pub fn clone_media(items: &Vec<Media>) -> (r: Vec<Media>)
    ensures
        r.deep_view() == items.deep_view(),
{
    let mut out: Vec<Media> = Vec::new();
    let mut i: usize = 0;
    while i < items.len()
        invariant
            i <= items.len(),
            out.len() == i,
            forall|k: int| 0 <= k < i ==> (#[trigger] out[k]).deep_view() == items[k].deep_view(),
        decreases items.len() - i,
    {
        out.push(items[i].clone());
        i += 1;
    }
    assert(out.deep_view() =~= items.deep_view());
    out
}

/// A media file that was made from what identifies it alone asks for one load when
/// a field is read, whichever field it is. Once a load has succeeded, the read
/// of any field gives its value and asks for no request.
pub proof fn lemma_load_once(filename: Seq<char>, client: ClientView, res: ResponseView)
    ensures
        ({
            let fresh = MediaView::unloaded(filename);
            let load = fresh.load_request(client);
            let after = fresh.loaded(res);
            &&& asks_load(fresh.content_type, load)
            &&& asks_load(fresh.date, load)
            &&& asks_load(fresh.content_length, load)
            &&& after is Ok ==> reads_value(after->Ok_0.content_type, load)
            &&& after is Ok ==> reads_value(after->Ok_0.date, load)
            &&& after is Ok ==> reads_value(after->Ok_0.content_length, load)
        }),
{
}

/// A load replaces every field, whatever was cached: the last fetch wins, and
/// nothing of what was there before is merged in.
pub proof fn lemma_last_fetch_wins(a: MediaView, b: MediaView, res: ResponseView)
    requires
        a.filename == b.filename,
    ensures
        a.loaded(res) == b.loaded(res),
{
}

} // verus!
