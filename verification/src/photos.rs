//! Requests to the Google Photos Library and Picker APIs: which URL, which
//! method and which body each operation sends, the checks on identifiers,
//! and how answers are read.

use vstd::prelude::*;
use crate::config::Config;
use crate::json::{is_text, is_text_list, only_keys, Json, JsonNumber, spec_as_str, spec_get};
use crate::text::{concat2, concat3, contains_char, contains_pair, decimal, decimal_string, has_pair, owned};
use crate::urls::{no_pairs, url_query_of, url_with_query, url_with_query_pairs};

verus! {

/// What can go wrong with a Photos request. The transport, JSON and other
/// failures of outside code are kept by their message text.
#[derive(Debug)]
pub enum GooglePhotosError {
    NotAuthenticated,
    ApiError { status: u16, message: String },
    InvalidInput(String),
    Http(String),
    Json(String),
    Unexpected(String),
}

/// The message of an error, as its `Display` gives it.
pub open spec fn error_text(e: GooglePhotosError) -> Seq<char> {
    match e {
        GooglePhotosError::NotAuthenticated => "authentication required"@,
        GooglePhotosError::ApiError { status, message } => "api error ("@ + decimal(status as nat) + "): "@
            + message@,
        GooglePhotosError::InvalidInput(m) => "invalid input: "@ + m@,
        GooglePhotosError::Http(m) => m@,
        GooglePhotosError::Json(m) => m@,
        GooglePhotosError::Unexpected(m) => m@,
    }
}

impl GooglePhotosError {
    /// The error's message.
    pub fn message(&self) -> (r: String)
        ensures
            r@ == error_text(*self),
    {
        match self {
            GooglePhotosError::NotAuthenticated => owned("authentication required"),
            GooglePhotosError::ApiError { status, message } => {
                let code = decimal_string(*status as u64);
                let head = concat3("api error (", code.as_str(), "): ");
                concat2(head.as_str(), message.as_str())
            },
            GooglePhotosError::InvalidInput(m) => concat2("invalid input: ", m.as_str()),
            GooglePhotosError::Http(m) => m.clone(),
            GooglePhotosError::Json(m) => m.clone(),
            GooglePhotosError::Unexpected(m) => m.clone(),
        }
    }
}

/// An identifier that may stand in a URL path: not empty, and without `/`,
/// `\` or `..`.
pub open spec fn valid_id(id: Seq<char>) -> bool {
    &&& id.len() > 0
    &&& !id.contains('/')
    &&& !id.contains('\\')
    &&& !has_pair(id, '.', '.')
}

/// An identifier is refused exactly when it is empty, holds '/' or '\\',
/// or holds two dots in a row.
pub proof fn law_id_refused_exactly(id: Seq<char>)
    ensures
        valid_id(id) <==> {
            &&& id.len() > 0
            &&& forall|i: int| 0 <= i < id.len() ==> #[trigger] id[i] != '/' && id[i] != '\\'
            &&& forall|i: int| #![trigger id[i]] 0 <= i && i + 1 < id.len() ==> !(id[i] == '.' && id[i + 1] == '.')
        },
{
}

/// A character of a plain identifier: an ASCII letter or digit, '-' or '_'.
pub open spec fn is_plain_id_char(c: char) -> bool {
    ||| ('a' <= c && c <= 'z')
    ||| ('A' <= c && c <= 'Z')
    ||| ('0' <= c && c <= '9')
    ||| c == '-'
    ||| c == '_'
}

/// Every non-empty identifier of ASCII letters, digits, '-' and '_' is
/// accepted.
pub proof fn law_plain_ids_accepted(id: Seq<char>)
    requires
        id.len() > 0,
        forall|i: int| 0 <= i < id.len() ==> is_plain_id_char(#[trigger] id[i]),
    ensures
        valid_id(id),
{
    assert(!has_pair(id, '.', '.')) by {
        if has_pair(id, '.', '.') {
            let j = choose|j: int| 0 <= j && j + 1 < id.len() && #[trigger] id[j] == '.' && id[j + 1] == '.';
            assert(is_plain_id_char(id[j]));
        }
    }
    assert(!id.contains('/')) by {
        if id.contains('/') {
            let j = choose|j: int| 0 <= j < id.len() && id[j] == '/';
            assert(is_plain_id_char(id[j]));
        }
    }
    assert(!id.contains('\\')) by {
        if id.contains('\\') {
            let j = choose|j: int| 0 <= j < id.len() && id[j] == '\\';
            assert(is_plain_id_char(id[j]));
        }
    }
}

/// Checks an identifier before it goes into a URL path; `field` names it
/// in the error.
pub fn validate_id(id: &str, field: &str) -> (r: Result<(), GooglePhotosError>)
    ensures
        r is Ok <==> valid_id(id@),
        id@.len() == 0 ==> (r matches Err(GooglePhotosError::InvalidInput(m)) && m@ == field@
            + " must not be empty"@),
        id@.len() > 0 && !valid_id(id@) ==> (r matches Err(GooglePhotosError::InvalidInput(m))
            && m@ == field@ + " contains forbidden characters"@),
        id@.len() > 0 && (forall|i: int| 0 <= i < id@.len() ==> #[trigger] id@[i] != '/' && id@[i] != '\\')
            && (forall|i: int| #![trigger id@[i]] 0 <= i && i + 1 < id@.len() ==> !(id@[i] == '.' && id@[i + 1] == '.'))
            ==> r is Ok,
{
    if id.unicode_len() == 0 {
        return Err(GooglePhotosError::InvalidInput(concat2(field, " must not be empty")));
    }
    if contains_char(id, '/') || contains_char(id, '\\') || contains_pair(id, '.', '.') {
        return Err(GooglePhotosError::InvalidInput(concat2(field, " contains forbidden characters")));
    }
    Ok(())
}

/// The view of an optional text.
pub open spec fn opt_text(o: Option<&str>) -> Option<Seq<char>> {
    match o {
        Some(s) => Some(s@),
        None => None,
    }
}

/// The page size that is sent: the one given, or 25.
pub open spec fn page_size_or_default(page_size: Option<u32>) -> u32 {
    match page_size {
        Some(n) => n,
        None => 25,
    }
}

/// The query of a paged listing: `pageSize`, then `pageToken` if given.
pub open spec fn paging_pairs(page_size: Option<u32>, page_token: Option<Seq<char>>) -> Seq<
    (Seq<char>, Seq<char>),
> {
    let size = seq![("pageSize"@, decimal(page_size_or_default(page_size) as nat))];
    match page_token {
        Some(t) => size.push(("pageToken"@, t)),
        None => size,
    }
}

/// The URL from the `url` crate, or the error for an unusable base URL.
pub open spec fn url_or_invalid(
    outcome: Result<Seq<char>, Seq<char>>,
    what: Seq<char>,
    r: Result<String, GooglePhotosError>,
) -> bool {
    match outcome {
        Ok(u) => r matches Ok(s) && s@ == u,
        Err(e) => r matches Err(GooglePhotosError::InvalidInput(m)) && m@ == what + e,
    }
}

fn push_paging(pairs: &mut Vec<(String, String)>, page_size: Option<u32>, page_token: Option<&str>)
    ensures
        final(pairs).deep_view() =~= old(pairs).deep_view() + paging_pairs(page_size, opt_text(page_token)),
{
    let size: u32 = match page_size {
        Some(n) => n,
        None => 25,
    };
    let ghost before = pairs.deep_view();
    pairs.push((owned("pageSize"), decimal_string(size as u64)));
    assert(pairs.deep_view() =~= before.push(("pageSize"@, decimal(size as nat))));
    match page_token {
        Some(token) => {
            let ghost mid = pairs.deep_view();
            pairs.push((owned("pageToken"), owned(token)));
            assert(pairs.deep_view() =~= mid.push(("pageToken"@, token@)));
        },
        None => {},
    }
}

/// The URL of a paged listing: `base_url` + `path`, with `pageSize` (25
/// when not given) and `pageToken` (when given) in the query.
pub fn build_paginated_path(base_url: &str, path: &str, page_size: Option<u32>, page_token: Option<&str>) -> (r:
    Result<String, GooglePhotosError>)
    ensures
        url_or_invalid(
            url_with_query_pairs(base_url@ + path@, paging_pairs(page_size, opt_text(page_token))),
            "Invalid base URL: "@,
            r,
        ),
        r is Ok <==> url_query_of(base_url@ + path@) is Some,
        url_query_of(base_url@ + path@) == Some(no_pairs()) ==> (r matches Ok(u) && url_query_of(u@) == Some(
            paging_pairs(page_size, opt_text(page_token)),
        )),
{
    let full = concat2(base_url, path);
    let mut pairs: Vec<(String, String)> = Vec::new();
    push_paging(&mut pairs, page_size, page_token);
    assert(pairs.deep_view() =~= paging_pairs(page_size, opt_text(page_token)));
    match url_with_query(full.as_str(), &pairs) {
        Ok(u) => Ok(u),
        Err(e) => Err(GooglePhotosError::InvalidInput(concat2("Invalid base URL: ", e.as_str()))),
    }
}

/// The query that fetches the items picked in a session.
pub open spec fn picker_items_pairs(session_id: Seq<char>, page_size: Option<u32>, page_token: Option<Seq<char>>) -> Seq<
    (Seq<char>, Seq<char>),
> {
    seq![("sessionId"@, session_id)] + paging_pairs(page_size, page_token)
}

/// The URL that lists the items picked in a session: the picker base URL
/// + `/mediaItems`, with `sessionId`, `pageSize` and `pageToken`.
pub fn build_picker_items_path(
    picker_base_url: &str,
    session_id: &str,
    page_size: Option<u32>,
    page_token: Option<&str>,
) -> (r: Result<String, GooglePhotosError>)
    ensures
        url_or_invalid(
            url_with_query_pairs(
                picker_base_url@ + "/mediaItems"@,
                picker_items_pairs(session_id@, page_size, opt_text(page_token)),
            ),
            "Invalid picker base URL: "@,
            r,
        ),
        r is Ok <==> url_query_of(picker_base_url@ + "/mediaItems"@) is Some,
        url_query_of(picker_base_url@ + "/mediaItems"@) == Some(no_pairs()) ==> (r matches Ok(u) && url_query_of(
            u@,
        ) == Some(picker_items_pairs(session_id@, page_size, opt_text(page_token)))),
{
    let full = concat2(picker_base_url, "/mediaItems");
    let mut pairs: Vec<(String, String)> = Vec::new();
    pairs.push((owned("sessionId"), owned(session_id)));
    let ghost first = pairs.deep_view();
    assert(first =~= seq![("sessionId"@, session_id@)]);
    push_paging(&mut pairs, page_size, page_token);
    assert(pairs.deep_view() =~= picker_items_pairs(session_id@, page_size, opt_text(page_token)));
    match url_with_query(full.as_str(), &pairs) {
        Ok(u) => Ok(u),
        Err(e) => Err(GooglePhotosError::InvalidInput(concat2("Invalid picker base URL: ", e.as_str()))),
    }
}

/// The HTTP method of a request.
#[derive(Clone, Debug, PartialEq)]
pub enum HttpMethod {
    Get,
    Post,
}

/// A request to send with the user's bearer token.
#[derive(Debug)]
pub struct ApiRequest {
    pub method: HttpMethod,
    pub url: String,
    pub body: Option<Json>,
}

/// The two requests of a picker poll: the session, then its items (whose
/// URL may be unusable, which only shows once the session was fetched).
#[derive(Debug)]
pub struct PickerPoll {
    pub session: ApiRequest,
    pub items: Result<ApiRequest, GooglePhotosError>,
}

/// A page of search results.
#[derive(Debug)]
pub struct SearchResponse {
    pub media_items: Vec<Json>,
    pub next_page_token: Option<String>,
}

/// How an HTTP answer is read.
#[derive(Debug)]
pub enum ResponseOutcome {
    /// A success with an empty body: the result is `{}`.
    EmptyBody,
    /// A success whose body is to be read as JSON.
    JsonBody(String),
    /// A failure.
    Failure(GooglePhotosError),
}

/// Reads an HTTP answer by its status and body text: a 2xx status gives
/// the body (`{}` when empty), 401 asks for authentication, any other
/// status is an API error that carries the body.
pub fn map_response(status: u16, text: String) -> (r: ResponseOutcome)
    ensures
        200 <= status <= 299 && text@.len() == 0 ==> r is EmptyBody,
        200 <= status <= 299 && text@.len() > 0 ==> (r matches ResponseOutcome::JsonBody(t) && t@
            == text@),
        status == 401 ==> (r matches ResponseOutcome::Failure(GooglePhotosError::NotAuthenticated)),
        !(200 <= status <= 299) && status != 401 ==> (r matches ResponseOutcome::Failure(
            GooglePhotosError::ApiError { status: s, message },
        ) && s == status && message@ == text@),
{
    if 200 <= status && status <= 299 {
        if text.as_str().unicode_len() == 0 {
            return ResponseOutcome::EmptyBody;
        }
        return ResponseOutcome::JsonBody(text);
    }
    if status == 401 {
        return ResponseOutcome::Failure(GooglePhotosError::NotAuthenticated);
    }
    ResponseOutcome::Failure(GooglePhotosError::ApiError { status, message: text })
}

/// The body of a search by feature: page size, the feature filter with
/// the query, language `en-US`, and the page token when given.
pub open spec fn search_body(body: Json, query: Seq<char>, page_size: Option<u32>, page_token: Option<Seq<char>>) -> bool {
    &&& only_keys(body, seq!["pageSize"@, "filters"@, "language"@, "pageToken"@])
    &&& spec_get(body, "pageSize"@) == Some(
        Json::Number(JsonNumber::PosInt(page_size_or_default(page_size) as u64)),
    )
    &&& is_text(spec_get(body, "language"@), "en-US"@)
    &&& spec_get(body, "filters"@) matches Some(filters) && (only_keys(filters, seq!["featureFilter"@])
        && (spec_get(filters, "featureFilter"@) matches Some(feature) && (only_keys(
        feature,
        seq!["includedFeatures"@],
    ) && is_text_list(spec_get(feature, "includedFeatures"@), query))))
    &&& match page_token {
        Some(t) => is_text(spec_get(body, "pageToken"@), t),
        None => spec_get(body, "pageToken"@) is None,
    }
}

/// The body that lists the items of an album.
pub open spec fn album_photos_body(
    body: Json,
    album_id: Seq<char>,
    page_size: Option<u32>,
    page_token: Option<Seq<char>>,
) -> bool {
    &&& only_keys(body, seq!["albumId"@, "pageSize"@, "pageToken"@])
    &&& is_text(spec_get(body, "albumId"@), album_id)
    &&& spec_get(body, "pageSize"@) == Some(
        Json::Number(JsonNumber::PosInt(page_size_or_default(page_size) as u64)),
    )
    &&& match page_token {
        Some(t) => is_text(spec_get(body, "pageToken"@), t),
        None => spec_get(body, "pageToken"@) is None,
    }
}

/// Sets `pageToken` when a token is given.
fn with_page_token(body: Json, page_token: Option<&str>) -> (r: Json)
    requires
        body is Object,
    ensures
        r is Object,
        match page_token {
            Some(t) => is_text(spec_get(r, "pageToken"@), t@),
            None => spec_get(r, "pageToken"@) == spec_get(body, "pageToken"@),
        },
        forall|k: Seq<char>| k != "pageToken"@ ==> spec_get(r, k) == spec_get(body, k),
{
    match page_token {
        Some(token) => body.with("pageToken", Json::from_str(token)),
        None => body,
    }
}

impl GooglePhotosClient {
    /// A client for the base URLs of the configuration.
    pub fn new(config: &Config) -> (r: GooglePhotosClient)
        ensures
            r.base_url@ == config.google_photos_base_url@,
            r.picker_base_url@ == config.google_photos_picker_base_url@,
    {
        GooglePhotosClient {
            base_url: config.google_photos_base_url.clone(),
            picker_base_url: config.google_photos_picker_base_url.clone(),
        }
    }

    /// A client that sends library and picker requests to one base URL.
    pub fn with_base_url(base_url: String) -> (r: GooglePhotosClient)
        ensures
            r.base_url@ == base_url@,
            r.picker_base_url@ == base_url@,
    {
        GooglePhotosClient { base_url: base_url.clone(), picker_base_url: base_url }
    }

    /// A client with separate library and picker base URLs.
    pub fn with_base_urls(base_url: String, picker_base_url: String) -> (r: GooglePhotosClient)
        ensures
            r.base_url@ == base_url@,
            r.picker_base_url@ == picker_base_url@,
    {
        GooglePhotosClient { base_url, picker_base_url }
    }

    fn get(url: String) -> (r: ApiRequest)
        ensures
            r.method is Get,
            r.url@ == url@,
            r.body is None,
    {
        ApiRequest { method: HttpMethod::Get, url, body: None }
    }

    fn post(url: String, body: Json) -> (r: ApiRequest)
        ensures
            r.method is Post,
            r.url@ == url@,
            r.body == Some(body),
    {
        ApiRequest { method: HttpMethod::Post, url, body: Some(body) }
    }

    /// Lists albums, a page at a time.
    pub fn list_albums(&self, page_size: Option<u32>, page_token: Option<&str>) -> (r: Result<
        ApiRequest,
        GooglePhotosError,
    >)
        ensures
            url_or_invalid(
                url_with_query_pairs(self.base_url@ + "/albums"@, paging_pairs(page_size, opt_text(page_token))),
                "Invalid base URL: "@,
                match r {
                    Ok(q) => Ok(q.url),
                    Err(e) => Err(e),
                },
            ),
            r matches Ok(q) ==> q.method is Get && q.body is None,
            url_query_of(self.base_url@ + "/albums"@) == Some(no_pairs()) ==> (r matches Ok(q) && url_query_of(
                q.url@,
            ) == Some(paging_pairs(page_size, opt_text(page_token)))),
    {
        let url = build_paginated_path(self.base_url.as_str(), "/albums", page_size, page_token)?;
        Ok(Self::get(url))
    }

    /// Lists the user's media items, a page at a time.
    pub fn list_media_items(&self, page_size: Option<u32>, page_token: Option<&str>) -> (r: Result<
        ApiRequest,
        GooglePhotosError,
    >)
        ensures
            url_or_invalid(
                url_with_query_pairs(
                    self.base_url@ + "/mediaItems"@,
                    paging_pairs(page_size, opt_text(page_token)),
                ),
                "Invalid base URL: "@,
                match r {
                    Ok(q) => Ok(q.url),
                    Err(e) => Err(e),
                },
            ),
            r matches Ok(q) ==> q.method is Get && q.body is None,
            url_query_of(self.base_url@ + "/mediaItems"@) == Some(no_pairs()) ==> (r matches Ok(q)
                && url_query_of(q.url@) == Some(paging_pairs(page_size, opt_text(page_token)))),
    {
        let url = build_paginated_path(self.base_url.as_str(), "/mediaItems", page_size, page_token)?;
        Ok(Self::get(url))
    }

    /// Fetches one album.
    pub fn get_album(&self, album_id: &str) -> (r: Result<ApiRequest, GooglePhotosError>)
        ensures
            r is Ok <==> valid_id(album_id@),
            !valid_id(album_id@) ==> (r matches Err(e) && validate_id_error(e, album_id@, "albumId"@)),
            r matches Ok(q) ==> q.method is Get && q.body is None && q.url@ == self.base_url@
                + "/albums/"@ + album_id@,
    {
        validate_id(album_id, "albumId")?;
        Ok(Self::get(concat3(self.base_url.as_str(), "/albums/", album_id)))
    }

    /// Fetches one media item.
    pub fn get_photo(&self, media_item_id: &str) -> (r: Result<ApiRequest, GooglePhotosError>)
        ensures
            r is Ok <==> valid_id(media_item_id@),
            !valid_id(media_item_id@) ==> (r matches Err(e) && validate_id_error(
                e,
                media_item_id@,
                "mediaItemId"@,
            )),
            r matches Ok(q) ==> q.method is Get && q.body is None && q.url@ == self.base_url@
                + "/mediaItems/"@ + media_item_id@,
    {
        validate_id(media_item_id, "mediaItemId")?;
        Ok(Self::get(concat3(self.base_url.as_str(), "/mediaItems/", media_item_id)))
    }

    /// Searches media items by a content feature.
    pub fn search_photos(&self, query: &str, page_size: Option<u32>, page_token: Option<&str>) -> (r:
        ApiRequest)
        ensures
            r.method is Post,
            r.url@ == self.base_url@ + "/mediaItems:search"@,
            r.body matches Some(b) && search_body(b, query@, page_size, opt_text(page_token)),
    {
        proof {
            reveal_strlit("pageSize");
            assert("pageSize"@.len() == 8);
            reveal_strlit("filters");
            assert("filters"@.len() == 7);
            reveal_strlit("language");
            assert("language"@.len() == 8);
            reveal_strlit("pageToken");
            assert("pageToken"@.len() == 9);
            reveal_strlit("featureFilter");
            assert("featureFilter"@.len() == 13);
            reveal_strlit("includedFeatures");
            assert("includedFeatures"@.len() == 16);
            reveal_strlit("contentFilter");
            assert("contentFilter"@.len() == 13);
            assert("language"@[0] == 'l' && "pageSize"@[0] == 'p');
        }
        let size: u64 = match page_size {
            Some(n) => n as u64,
            None => 25,
        };
        let categories = Json::Array(vec![Json::from_str("NONE")]);
        let content_filter = Json::object1("contentFilter", Json::object1("includedContentCategories", categories));
        let body = Json::empty_object().with("pageSize", Json::from_u64(size)).with(
            "filters",
            content_filter,
        ).with("language", Json::from_str("en-US"));
        let body = body.with("pageSize", Json::from_u64(size));
        let features = Json::Array(vec![Json::from_str(query)]);
        let feature_filter = Json::object1("featureFilter", Json::object1("includedFeatures", features));
        let body = body.with("filters", feature_filter);
        let body = with_page_token(body, page_token);
        proof {
            let keys = seq!["pageSize"@, "filters"@, "language"@, "pageToken"@];
            assert forall|k: Seq<char>| !keys.contains(k) implies (#[trigger] spec_get(body, k)) is None by {
                assert(k != keys[0] && k != keys[1] && k != keys[2] && k != keys[3]);
            }
        }
        Self::post(concat2(self.base_url.as_str(), "/mediaItems:search"), body)
    }

    /// Searches media items with a filter object given as is.
    pub fn search_media_by_filter(&self, filter_body: Json) -> (r: ApiRequest)
        ensures
            r.method is Post,
            r.url@ == self.base_url@ + "/mediaItems:search"@,
            r.body == Some(filter_body),
    {
        Self::post(concat2(self.base_url.as_str(), "/mediaItems:search"), filter_body)
    }

    /// Lists the media items of an album.
    pub fn list_album_photos(&self, album_id: &str, page_size: Option<u32>, page_token: Option<&str>) -> (r:
        ApiRequest)
        ensures
            r.method is Post,
            r.url@ == self.base_url@ + "/mediaItems:search"@,
            r.body matches Some(b) && album_photos_body(b, album_id@, page_size, opt_text(page_token)),
    {
        proof {
            reveal_strlit("albumId");
            assert("albumId"@.len() == 7);
            reveal_strlit("pageSize");
            assert("pageSize"@.len() == 8);
            reveal_strlit("pageToken");
            assert("pageToken"@.len() == 9);
        }
        let size: u64 = match page_size {
            Some(n) => n as u64,
            None => 25,
        };
        let body = Json::empty_object().with("albumId", Json::from_str(album_id)).with(
            "pageSize",
            Json::from_u64(size),
        );
        let body = with_page_token(body, page_token);
        proof {
            let keys = seq!["albumId"@, "pageSize"@, "pageToken"@];
            assert forall|k: Seq<char>| !keys.contains(k) implies (#[trigger] spec_get(body, k)) is None by {
                assert(k != keys[0] && k != keys[1] && k != keys[2]);
            }
        }
        Self::post(concat2(self.base_url.as_str(), "/mediaItems:search"), body)
    }

    /// Creates an album with the given title.
    pub fn create_album(&self, title: &str) -> (r: ApiRequest)
        ensures
            r.method is Post,
            r.url@ == self.base_url@ + "/albums"@,
            r.body matches Some(b) && (only_keys(b, seq!["album"@]) && (spec_get(b, "album"@) matches Some(
                album,
            ) && (only_keys(album, seq!["title"@]) && is_text(spec_get(album, "title"@), title@)))),
    {
        let body = Json::object1("album", Json::object1("title", Json::from_str(title)));
        Self::post(concat2(self.base_url.as_str(), "/albums"), body)
    }

    /// Opens a picker session.
    pub fn create_picker_session(&self) -> (r: ApiRequest)
        ensures
            r.method is Post,
            r.url@ == self.picker_base_url@ + "/sessions"@,
            r.body matches Some(b) && only_keys(b, Seq::empty()),
    {
        Self::post(concat2(self.picker_base_url.as_str(), "/sessions"), Json::empty_object())
    }

    /// Polls a picker session: first the session, then the items picked in it.
    pub fn poll_picker_session(&self, session_id: &str, page_size: Option<u32>, page_token: Option<&str>) -> (r:
        Result<PickerPoll, GooglePhotosError>)
        ensures
            r is Ok <==> valid_id(session_id@),
            !valid_id(session_id@) ==> (r matches Err(e) && validate_id_error(e, session_id@, "sessionId"@)),
            r matches Ok(p) ==> {
                &&& p.session.method is Get
                &&& p.session.body is None
                &&& p.session.url@ == self.picker_base_url@ + "/sessions/"@ + session_id@
                &&& url_or_invalid(
                    url_with_query_pairs(
                        self.picker_base_url@ + "/mediaItems"@,
                        picker_items_pairs(session_id@, page_size, opt_text(page_token)),
                    ),
                    "Invalid picker base URL: "@,
                    match p.items {
                        Ok(q) => Ok(q.url),
                        Err(e) => Err(e),
                    },
                )
                &&& p.items matches Ok(q) ==> q.method is Get && q.body is None
            },
    {
        validate_id(session_id, "sessionId")?;
        let session = Self::get(concat3(self.picker_base_url.as_str(), "/sessions/", session_id));
        let items = match build_picker_items_path(self.picker_base_url.as_str(), session_id, page_size, page_token) {
            Ok(url) => Ok(Self::get(url)),
            Err(e) => Err(e),
        };
        Ok(PickerPoll { session, items })
    }
}

/// The error of `validate_id` for an identifier that it refuses.
pub open spec fn validate_id_error(e: GooglePhotosError, id: Seq<char>, field: Seq<char>) -> bool {
    e matches GooglePhotosError::InvalidInput(m) && m@ == field + (if id.len() == 0 {
        " must not be empty"@
    } else {
        " contains forbidden characters"@
    })
}

/// The client for the Photos APIs: where library and picker requests go.
#[derive(Clone, Debug)]
pub struct GooglePhotosClient {
    pub base_url: String,
    pub picker_base_url: String,
}

/// Reads a search answer: its `mediaItems` when they are an array (else
/// none) and its `nextPageToken` when it is a string.
pub fn search_response(raw: Json) -> (r: SearchResponse)
    ensures
        match spec_get(raw, "mediaItems"@) {
            Some(Json::Array(items)) => r.media_items == items,
            _ => r.media_items@.len() == 0,
        },
        match r.next_page_token {
            Some(t) => spec_as_str(spec_get(raw, "nextPageToken"@)) == Some(t@),
            None => spec_as_str(spec_get(raw, "nextPageToken"@)) is None,
        },
{
    let next_page_token = raw.get_str("nextPageToken");
    let (_rest, items) = raw.take("mediaItems");
    let media_items = match items {
        Some(Json::Array(v)) => v,
        _ => Vec::new(),
    };
    SearchResponse { media_items, next_page_token }
}

/// The result of a picker poll: the session, the picked items (an empty
/// array when the answer has none) and the next page token (null when
/// there is none).
pub fn picker_poll_result(session: Json, items: Json) -> (r: Json)
    ensures
        only_keys(r, seq!["session"@, "selected_media_items"@, "nextPageToken"@]),
        spec_get(r, "session"@) == Some(session),
        match spec_get(items, "mediaItems"@) {
            Some(v) => spec_get(r, "selected_media_items"@) == Some(v),
            None => spec_get(r, "selected_media_items"@) matches Some(Json::Array(a)) && a@.len() == 0,
        },
        match spec_get(items, "nextPageToken"@) {
            Some(v) => spec_get(r, "nextPageToken"@) == Some(v),
            None => spec_get(r, "nextPageToken"@) == Some(Json::Null),
        },
{
    proof {
        reveal_strlit("session");
        assert("session"@.len() == 7);
        reveal_strlit("selected_media_items");
        assert("selected_media_items"@.len() == 20);
        reveal_strlit("nextPageToken");
        assert("nextPageToken"@.len() == 13);
        reveal_strlit("mediaItems");
        assert("mediaItems"@.len() == 10);
    }
    let (items, media) = items.take("mediaItems");
    let (_items, next) = items.take("nextPageToken");
    let media = match media {
        Some(v) => v,
        None => Json::Array(Vec::new()),
    };
    let next = match next {
        Some(v) => v,
        None => Json::Null,
    };
    let r = Json::empty_object().with("session", session).with("selected_media_items", media).with(
        "nextPageToken",
        next,
    );
    proof {
        let keys = seq!["session"@, "selected_media_items"@, "nextPageToken"@];
        assert forall|k: Seq<char>| !keys.contains(k) implies (#[trigger] spec_get(r, k)) is None by {
            assert(k != keys[0] && k != keys[1] && k != keys[2]);
        }
    }
    r
}

} // verus!
