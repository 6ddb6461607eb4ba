use gphotos_mcp_rust::config::{Config, EnvVars};
use gphotos_mcp_rust::json::{Json, JsonField};
use gphotos_mcp_rust::text::{concat3, contains_char, contains_pair, decimal_string, parse_u16, str_eq};

fn vars() -> EnvVars {
    EnvVars {
        home: Some("/home/me".to_string()),
        host: None,
        port: None,
        google_client_id: Some("id".to_string()),
        google_client_secret: Some("secret".to_string()),
        google_redirect_uri: None,
        tokens_path: None,
        google_photos_base_url: None,
        google_photos_picker_base_url: None,
        google_oauth_base_url: None,
    }
}

#[test]
fn configuration_defaults() {
    let c = Config::from_vars(vars()).ok().expect("config");
    assert_eq!(c.host, "127.0.0.1");
    assert_eq!(c.port, 3000);
    assert_eq!(c.google_redirect_uri, "http://localhost:3000/auth/callback");
    assert_eq!(c.token_path, "/home/me/.config/gphotos-mcp-rust/tokens.json");
    assert_eq!(c.google_photos_base_url, "https://photoslibrary.googleapis.com/v1");
    assert_eq!(c.google_photos_picker_base_url, "https://photospicker.googleapis.com/v1");
    assert_eq!(c.google_oauth_base_url, "https://oauth2.googleapis.com");
    let no_home = Config::from_vars(EnvVars { home: None, ..vars() }).ok().unwrap();
    assert_eq!(no_home.token_path, "./.config/gphotos-mcp-rust/tokens.json");
}

#[test]
fn configuration_reads_the_port() {
    let c = Config::from_vars(EnvVars { port: Some("8080".to_string()), ..vars() }).ok().unwrap();
    assert_eq!(c.port, 8080);
    let c = Config::from_vars(EnvVars { port: Some("not-a-port".to_string()), ..vars() }).ok().unwrap();
    assert_eq!(c.port, 3000);
    let c = Config::from_vars(EnvVars { port: Some("70000".to_string()), ..vars() }).ok().unwrap();
    assert_eq!(c.port, 3000);
}

#[test]
fn configuration_requires_the_client() {
    let e = Config::from_vars(EnvVars { google_client_id: None, ..vars() }).err().unwrap();
    assert_eq!(e.variable, "GOOGLE_CLIENT_ID");
    let e = Config::from_vars(EnvVars { google_client_secret: None, ..vars() }).err().unwrap();
    assert_eq!(e.variable, "GOOGLE_CLIENT_SECRET");
}

#[test]
fn ports_parse_as_u16_does() {
    for text in ["0", "80", "+80", "0080", "65535", "", "+", "-1", "65536", " 80", "8o", "99999999999"] {
        assert_eq!(parse_u16(text), text.parse::<u16>().ok(), "{text}");
    }
}

#[test]
fn decimals_are_written_as_to_string_does() {
    for n in [0u64, 7, 10, 25, 404, 65535, u64::MAX] {
        assert_eq!(decimal_string(n), n.to_string());
    }
}

#[test]
fn character_searches() {
    assert!(str_eq("abc", "abc"));
    assert!(!str_eq("abc", "abd"));
    assert!(!str_eq("abc", "ab"));
    assert!(contains_char("a/b", '/'));
    assert!(!contains_char("ab", '/'));
    assert!(contains_pair("x..y", '.', '.'));
    assert!(!contains_pair("x.y.", '.', '.'));
    assert!(!contains_pair(".", '.', '.'));
    assert_eq!(concat3("a", "é", "c"), "aéc");
}

#[test]
fn setting_a_member_replaces_or_adds_it() {
    let v = Json::Object(vec![JsonField { key: "a".to_string(), value: Json::Bool(true) }]);
    let v = v.with("a", Json::Null).with("b", Json::Bool(false));
    assert_eq!(v.get("a"), Some(&Json::Null));
    assert_eq!(v.get("b"), Some(&Json::Bool(false)));
    let (rest, taken) = v.take("a");
    assert_eq!(taken, Some(Json::Null));
    assert_eq!(rest.get("a"), None);
    assert_eq!(rest.get("b"), Some(&Json::Bool(false)));
    assert_eq!(Json::Null.with("a", Json::Null), Json::Null);
}
