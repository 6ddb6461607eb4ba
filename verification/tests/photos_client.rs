use gphotos_mcp_rust::config::Config;
use gphotos_mcp_rust::json::{Json, JsonField, JsonNumber};
use gphotos_mcp_rust::urls::query_value;
use gphotos_mcp_rust::photos::{
    build_paginated_path, build_picker_items_path, map_response, picker_poll_result, search_response,
    validate_id, GooglePhotosClient, GooglePhotosError, HttpMethod, ResponseOutcome,
};

fn s(t: &str) -> Json {
    Json::Str(t.to_string())
}

fn obj(fields: Vec<(&str, Json)>) -> Json {
    Json::Object(fields.into_iter().map(|(k, v)| JsonField { key: k.to_string(), value: v }).collect())
}

fn invalid_input(r: Result<(), GooglePhotosError>) -> String {
    match r {
        Err(GooglePhotosError::InvalidInput(m)) => m,
        other => panic!("expected invalid input, got {:?}", other),
    }
}

#[test]
fn list_albums_uses_bearer_auth_and_pagination() {
    let client = GooglePhotosClient::with_base_url("http://127.0.0.1:4000".to_string());
    let req = client.list_albums(Some(50), Some("abc")).expect("list albums");
    assert_eq!(req.method, HttpMethod::Get);
    assert_eq!(req.url, "http://127.0.0.1:4000/albums?pageSize=50&pageToken=abc");
    assert!(req.body.is_none());
}

#[test]
fn create_picker_session_uses_picker_api_base_url() {
    let client =
        GooglePhotosClient::with_base_urls("http://library.test".to_string(), "http://picker.test".to_string());
    let req = client.create_picker_session();
    assert_eq!(req.method, HttpMethod::Post);
    assert_eq!(req.url, "http://picker.test/sessions");
    assert_eq!(req.body, Some(Json::Object(Vec::new())));
}

#[test]
fn poll_picker_session_uses_picker_session_and_media_endpoints() {
    let client =
        GooglePhotosClient::with_base_urls("http://library.test".to_string(), "http://picker.test".to_string());
    let poll = client.poll_picker_session("session-1", Some(10), Some("page-1")).expect("poll picker session");
    assert_eq!(poll.session.url, "http://picker.test/sessions/session-1");
    assert_eq!(poll.session.method, HttpMethod::Get);
    let items = poll.items.expect("items request");
    assert_eq!(items.url, "http://picker.test/mediaItems?sessionId=session-1&pageSize=10&pageToken=page-1");

    let session = obj(vec![("id", s("session-1")), ("mediaItemsSet", Json::Bool(true))]);
    let answer = obj(vec![
        ("mediaItems", Json::Array(vec![obj(vec![("id", s("media-1"))])])),
        ("nextPageToken", s("next")),
    ]);
    let out = picker_poll_result(session, answer);
    assert_eq!(out.get("session").and_then(|v| v.get_str("id")).as_deref(), Some("session-1"));
    match out.get("selected_media_items") {
        Some(Json::Array(items)) => assert_eq!(items[0].get_str("id").as_deref(), Some("media-1")),
        other => panic!("unexpected {:?}", other),
    }
    assert_eq!(out.get_str("nextPageToken").as_deref(), Some("next"));
}

#[test]
fn picker_poll_without_items_gives_empty_array_and_null() {
    let out = picker_poll_result(obj(vec![]), obj(vec![]));
    assert_eq!(out.get("selected_media_items"), Some(&Json::Array(Vec::new())));
    assert_eq!(out.get("nextPageToken"), Some(&Json::Null));
}

#[test]
fn identifiers_are_checked() {
    assert_eq!(invalid_input(validate_id("", "albumId")), "albumId must not be empty");
    assert_eq!(invalid_input(validate_id("a/b", "albumId")), "albumId contains forbidden characters");
    assert_eq!(invalid_input(validate_id("a\\b", "mediaItemId")), "mediaItemId contains forbidden characters");
    assert_eq!(invalid_input(validate_id("..", "sessionId")), "sessionId contains forbidden characters");
    assert!(validate_id("a.b.c", "albumId").is_ok());
    assert!(validate_id("AF1Qip", "albumId").is_ok());
}

#[test]
fn get_requests_check_the_id() {
    let client = GooglePhotosClient::with_base_url("http://library.test/v1".to_string());
    assert_eq!(client.get_album("a1").unwrap().url, "http://library.test/v1/albums/a1");
    assert_eq!(client.get_photo("m1").unwrap().url, "http://library.test/v1/mediaItems/m1");
    assert!(client.get_album("../x").is_err());
    assert!(client.poll_picker_session("", None, None).is_err());
}

#[test]
fn paging_defaults_to_twenty_five() {
    let p = build_paginated_path("http://library.test/v1", "/mediaItems", None, None).unwrap();
    assert_eq!(p, "http://library.test/v1/mediaItems?pageSize=25");
    let client = GooglePhotosClient::with_base_url("http://library.test/v1".to_string());
    assert_eq!(client.list_media_items(None, Some("t")).unwrap().url, "http://library.test/v1/mediaItems?pageSize=25&pageToken=t");
}

#[test]
fn page_tokens_are_form_encoded() {
    let p = build_paginated_path("http://x.test", "/albums", Some(1), Some("a b&c")).unwrap();
    assert_eq!(p, "http://x.test/albums?pageSize=1&pageToken=a+b%26c");
}

#[test]
fn bad_base_url_is_invalid_input() {
    match build_paginated_path("not a url", "/albums", None, None) {
        Err(GooglePhotosError::InvalidInput(m)) => assert_eq!(m, "Invalid base URL: relative URL without a base"),
        other => panic!("unexpected {:?}", other),
    }
    match build_picker_items_path("", "s", None, None) {
        Err(GooglePhotosError::InvalidInput(m)) => {
            assert_eq!(m, "Invalid picker base URL: relative URL without a base")
        },
        other => panic!("unexpected {:?}", other),
    }
}

#[test]
fn search_body_uses_the_feature_filter() {
    let client = GooglePhotosClient::with_base_url("http://library.test".to_string());
    let req = client.search_photos("LANDSCAPES", None, Some("tok"));
    assert_eq!(req.url, "http://library.test/mediaItems:search");
    assert_eq!(req.method, HttpMethod::Post);
    let body = req.body.unwrap();
    assert_eq!(body.get_u64("pageSize"), Some(25));
    assert_eq!(body.get_str("language").as_deref(), Some("en-US"));
    assert_eq!(body.get_str("pageToken").as_deref(), Some("tok"));
    let filters = body.get("filters").unwrap();
    assert!(filters.get("contentFilter").is_none());
    assert_eq!(
        filters.get("featureFilter").and_then(|f| f.get("includedFeatures")),
        Some(&Json::Array(vec![s("LANDSCAPES")]))
    );
}

#[test]
fn album_requests() {
    let client = GooglePhotosClient::with_base_url("http://library.test".to_string());
    let body = client.list_album_photos("al", Some(7), None).body.unwrap();
    assert_eq!(body.get_str("albumId").as_deref(), Some("al"));
    assert_eq!(body.get("pageSize"), Some(&Json::Number(JsonNumber::PosInt(7))));
    assert!(body.get("pageToken").is_none());
    let create = client.create_album("Trip");
    assert_eq!(create.url, "http://library.test/albums");
    assert_eq!(create.body.unwrap().get("album").and_then(|a| a.get_str("title")).as_deref(), Some("Trip"));
    let filter = obj(vec![("pageSize", Json::Number(JsonNumber::PosInt(3)))]);
    let by_filter = client.search_media_by_filter(filter);
    assert_eq!(by_filter.body.unwrap().get_u64("pageSize"), Some(3));
}

#[test]
fn client_from_config() {
    let config = Config {
        host: "h".to_string(),
        port: 1,
        google_client_id: "c".to_string(),
        google_client_secret: "s".to_string(),
        google_redirect_uri: "r".to_string(),
        token_path: "t".to_string(),
        google_photos_base_url: "http://lib".to_string(),
        google_photos_picker_base_url: "http://pick".to_string(),
        google_oauth_base_url: "http://o".to_string(),
    };
    let client = GooglePhotosClient::new(&config);
    assert_eq!(client.base_url, "http://lib");
    assert_eq!(client.picker_base_url, "http://pick");
}

#[test]
fn responses_are_read_by_status() {
    assert!(matches!(map_response(200, String::new()), ResponseOutcome::EmptyBody));
    match map_response(204, "{\"a\":1}".to_string()) {
        ResponseOutcome::JsonBody(t) => assert_eq!(t, "{\"a\":1}"),
        _ => panic!("body expected"),
    }
    assert!(matches!(map_response(401, "no".to_string()), ResponseOutcome::Failure(GooglePhotosError::NotAuthenticated)));
    match map_response(403, "denied".to_string()) {
        ResponseOutcome::Failure(GooglePhotosError::ApiError { status, message }) => {
            assert_eq!(status, 403);
            assert_eq!(message, "denied");
        },
        _ => panic!("api error expected"),
    }
}

#[test]
fn search_answer_is_read() {
    let raw = obj(vec![
        ("mediaItems", Json::Array(vec![s("x"), s("y")])),
        ("nextPageToken", s("n")),
    ]);
    let r = search_response(raw);
    assert_eq!(r.media_items, vec![s("x"), s("y")]);
    assert_eq!(r.next_page_token.as_deref(), Some("n"));
    let r = search_response(obj(vec![("mediaItems", s("oops"))]));
    assert!(r.media_items.is_empty());
    assert!(r.next_page_token.is_none());
}

#[test]
fn error_messages() {
    assert_eq!(GooglePhotosError::NotAuthenticated.message(), "authentication required");
    assert_eq!(
        GooglePhotosError::ApiError { status: 404, message: "gone".to_string() }.message(),
        "api error (404): gone"
    );
    assert_eq!(GooglePhotosError::InvalidInput("x".to_string()).message(), "invalid input: x");
    assert_eq!(GooglePhotosError::Http("boom".to_string()).message(), "boom");
}

#[test]
fn query_pairs_read_back() {
    let p = build_paginated_path("http://x.test", "/albums", Some(7), Some("a b&c=d+é%")).unwrap();
    assert_eq!(query_value(&p, "pageSize").as_deref(), Some("7"));
    assert_eq!(query_value(&p, "pageToken").as_deref(), Some("a b&c=d+é%"));
    assert_eq!(query_value(&p, "missing"), None);
    assert_eq!(query_value("not a url", "pageSize"), None);
    let with_query = build_paginated_path("http://x.test/?lang=fr#frag", "", None, None).unwrap();
    assert_eq!(with_query, "http://x.test/?lang=fr&pageSize=25#frag");
    assert_eq!(query_value(&with_query, "lang").as_deref(), Some("fr"));
    assert_eq!(query_value(&with_query, "pageSize").as_deref(), Some("25"));
}
