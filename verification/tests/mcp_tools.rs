use gphotos_mcp_rust::json::{Json, JsonField, JsonNumber};
use gphotos_mcp_rust::mcp::{
    auth_callback_reply, auth_start_reply, callback_params, error_json, health_body, index_body, internal_err, list_tools, map_gp_err,
    internal_tool_outcome, mcp_entry, optional_string, photos_tool_outcome, start_auth_outcome, optional_u32, plan_tool_call, required_string, start_auth_result, text_result,
    tool_call_reply, tool_call_response, HttpReply, McpRoute, RpcRequest, ToolCall,
};
use gphotos_mcp_rust::auth::StoredTokens;
use gphotos_mcp_rust::photos::GooglePhotosError;

fn s(t: &str) -> Json {
    Json::Str(t.to_string())
}

fn obj(fields: Vec<(&str, Json)>) -> Json {
    Json::Object(fields.into_iter().map(|(k, v)| JsonField { key: k.to_string(), value: v }).collect())
}

fn request(jsonrpc: &str, id: i64, method: &str, params: Json) -> RpcRequest {
    RpcRequest {
        jsonrpc: jsonrpc.to_string(),
        id: Some(Json::Number(JsonNumber::PosInt(id as u64))),
        method: method.to_string(),
        params,
    }
}

#[test]
fn tools_list_contains_oauth_and_picker_tools() {
    let req = request("2.0", 1, "tools/list", obj(vec![]));
    match mcp_entry(req, "0.1.0") {
        McpRoute::Reply { status, response } => {
            assert_eq!(status, 200);
            let result = response.result.expect("result");
            let tools = match result.get("tools") {
                Some(Json::Array(t)) => t,
                _ => panic!("tools array"),
            };
            let names: Vec<String> = tools.iter().filter_map(|t| t.get_str("name")).collect();
            assert!(names.contains(&"start_auth".to_string()));
            assert!(names.contains(&"auth_status".to_string()));
            assert!(names.contains(&"create_picker_session".to_string()));
            assert!(names.contains(&"poll_picker_session".to_string()));
        },
        McpRoute::CallTool { .. } => panic!("answered at once"),
    }
}

#[test]
fn unknown_tool_returns_method_not_found_error() {
    let req = request("2.0", 9, "tools/call", obj(vec![("name", s("does_not_exist")), ("arguments", obj(vec![]))]));
    let (id, params) = match mcp_entry(req, "0.1.0") {
        McpRoute::CallTool { id, params } => (id, params),
        McpRoute::Reply { .. } => panic!("a tool call"),
    };
    let outcome = plan_tool_call(params).map(|_| Json::Null);
    let resp = tool_call_response(id, outcome);
    assert_eq!(resp.jsonrpc, "2.0");
    let err = resp.error.expect("error");
    assert_eq!(err.code, -32601);
    assert_eq!(err.message, "Unknown tool: does_not_exist");
}

#[test]
fn wrong_version_is_a_bad_request() {
    match mcp_entry(request("1.0", 3, "tools/list", obj(vec![])), "0.1.0") {
        McpRoute::Reply { status, response } => {
            assert_eq!(status, 400);
            let e = response.error.unwrap();
            assert_eq!(e.code, -32600);
            assert_eq!(e.message, "jsonrpc must be 2.0");
            assert_eq!(response.id, Some(Json::Number(JsonNumber::PosInt(3))));
        },
        _ => panic!("refused"),
    }
}

#[test]
fn unknown_method_is_not_found() {
    match mcp_entry(request("2.0", 4, "resources/list", obj(vec![])), "0.1.0") {
        McpRoute::Reply { status, response } => {
            assert_eq!(status, 200);
            assert_eq!(response.error.unwrap().code, -32601);
            assert!(response.result.is_none());
        },
        _ => panic!("answered"),
    }
}

#[test]
fn initialize_reports_the_server() {
    match mcp_entry(request("2.0", 5, "initialize", obj(vec![])), "1.2.3") {
        McpRoute::Reply { status, response } => {
            assert_eq!(status, 200);
            let r = response.result.unwrap();
            let info = r.get("serverInfo").unwrap();
            assert_eq!(info.get_str("name").as_deref(), Some("gphotos-mcp-rust"));
            assert_eq!(info.get_str("version").as_deref(), Some("1.2.3"));
            assert_eq!(r.get("capabilities").and_then(|c| c.get("tools")), Some(&Json::Object(Vec::new())));
        },
        _ => panic!("answered"),
    }
}

#[test]
fn catalogue_has_twelve_tools_with_schemas() {
    let tools = list_tools();
    assert_eq!(tools.len(), 12);
    let names: Vec<String> = tools.iter().filter_map(|t| t.get_str("name")).collect();
    assert_eq!(
        names,
        vec![
            "auth_status", "start_auth", "search_photos", "search_media_by_filter", "get_photo", "list_albums",
            "get_album", "create_album", "list_album_photos", "list_media_items", "create_picker_session",
            "poll_picker_session",
        ]
    );
    let search = &tools[2];
    assert_eq!(search.get_str("description").as_deref(), Some("Search photos by query"));
    let schema = search.get("inputSchema").unwrap();
    assert_eq!(schema.get_str("type").as_deref(), Some("object"));
    assert_eq!(schema.get("required"), Some(&Json::Array(vec![s("query")])));
    assert_eq!(schema.get("properties").and_then(|p| p.get("pageSize")).and_then(|p| p.get_str("type")).as_deref(), Some("number"));
    assert!(tools[0].get("inputSchema").unwrap().get("required").is_none());
}

#[test]
fn tool_calls_are_read() {
    let params = obj(vec![
        ("name", s("search_photos")),
        ("arguments", obj(vec![("query", s("CATS")), ("pageSize", Json::Number(JsonNumber::PosInt(10)))])),
    ]);
    match plan_tool_call(params) {
        Ok(ToolCall::SearchPhotos { query, page_size, page_token }) => {
            assert_eq!(query, "CATS");
            assert_eq!(page_size, Some(10));
            assert_eq!(page_token, None);
        },
        _ => panic!("search call"),
    }
    let missing = plan_tool_call(obj(vec![("name", s("get_album"))]));
    match missing {
        Err(e) => {
            assert_eq!(e.code, -32602);
            assert_eq!(e.message, "Missing required argument: albumId");
        },
        Ok(_) => panic!("argument missing"),
    }
    match plan_tool_call(obj(vec![("name", s("search_media_by_filter")), ("arguments", obj(vec![]))])) {
        Err(e) => assert_eq!(e.message, "Missing filter object"),
        Ok(_) => panic!("filter missing"),
    }
    match plan_tool_call(obj(vec![("arguments", obj(vec![]))])) {
        Err(e) => {
            assert_eq!(e.code, -32602);
            assert_eq!(e.message, "Missing tool name");
        },
        Ok(_) => panic!("name missing"),
    }
    let filter = obj(vec![("albumId", s("a"))]);
    match plan_tool_call(obj(vec![("name", s("search_media_by_filter")), ("arguments", obj(vec![("filter", filter)]))])) {
        Ok(ToolCall::SearchMediaByFilter { filter }) => assert_eq!(filter, obj(vec![("albumId", s("a"))])),
        _ => panic!("filter call"),
    }
    assert!(matches!(plan_tool_call(obj(vec![("name", s("auth_status"))])), Ok(ToolCall::AuthStatus)));
}

#[test]
fn arguments_are_read_by_type() {
    let args = obj(vec![
        ("a", s("x")),
        ("n", Json::Number(JsonNumber::PosInt(4_294_967_297))),
        ("neg", Json::Number(JsonNumber::NegInt(-1))),
    ]);
    assert_eq!(required_string(&args, "a").ok(), Some("x".to_string()));
    assert_eq!(required_string(&args, "n").err().map(|e| e.message), Some("Missing required argument: n".to_string()));
    assert_eq!(optional_string(&args, "b"), None);
    assert_eq!(optional_u32(&args, "n"), Some(1));
    assert_eq!(optional_u32(&args, "neg"), None);
    assert_eq!(optional_u32(&args, "a"), None);
}

#[test]
fn photo_errors_become_tool_errors() {
    let e = map_gp_err(GooglePhotosError::NotAuthenticated);
    assert_eq!((e.code, e.message.as_str()), (-32001, "Not authenticated. Use start_auth and complete /auth/callback."));
    let e = map_gp_err(GooglePhotosError::ApiError { status: 500, message: "oops".to_string() });
    assert_eq!((e.code, e.message.as_str()), (-32010, "Google Photos API error (500): oops"));
    let e = map_gp_err(GooglePhotosError::InvalidInput("bad".to_string()));
    assert_eq!((e.code, e.message.as_str()), (-32602, "Invalid input: bad"));
    let e = map_gp_err(GooglePhotosError::Http("timeout".to_string()));
    assert_eq!((e.code, e.message.as_str()), (-32000, "Internal error: timeout"));
    let e = internal_err("x");
    assert_eq!((e.code, e.message.as_str()), (-32000, "Internal error: x"));
}

#[test]
fn tool_results_wrap_text() {
    let r = text_result("{}");
    match r.get("content") {
        Some(Json::Array(items)) => {
            assert_eq!(items.len(), 1);
            assert_eq!(items[0].get_str("type").as_deref(), Some("text"));
            assert_eq!(items[0].get_str("text").as_deref(), Some("{}"));
        },
        _ => panic!("content"),
    }
    let r = start_auth_result("https://x");
    assert_eq!(r.get_str("authUrl").as_deref(), Some("https://x"));
    match r.get("content") {
        Some(Json::Array(items)) => {
            assert_eq!(items[0].get_str("text").as_deref(), Some("Open this URL to authenticate:\nhttps://x"))
        },
        _ => panic!("content"),
    }
}

#[test]
fn http_route_replies() {
    let e = error_json(-32602, "m".to_string());
    assert!(e.id.is_none() && e.result.is_none());
    assert_eq!(e.error.unwrap().code, -32602);
    match callback_params(None, Some("s".to_string())) {
        Err(r) => assert_eq!(r.error.unwrap().message, "Missing query parameter: code"),
        Ok(_) => panic!("code missing"),
    }
    match callback_params(Some("c".to_string()), None) {
        Err(r) => assert_eq!(r.error.unwrap().message, "Missing query parameter: state"),
        Ok(_) => panic!("state missing"),
    }
    assert_eq!(callback_params(Some("c".to_string()), Some("s".to_string())).ok(), Some(("c".to_string(), "s".to_string())));
    match auth_start_reply(Ok("u".to_string())) {
        HttpReply::Body(b) => assert_eq!(b.get_str("auth_url").as_deref(), Some("u")),
        _ => panic!("body"),
    }
    match auth_start_reply(Err("e".to_string())) {
        HttpReply::Rpc(r) => assert_eq!(r.error.unwrap().message, "Could not start OAuth flow: e"),
        _ => panic!("error"),
    }
    match auth_callback_reply(Ok(())) {
        HttpReply::Body(b) => assert_eq!(b.get_str("status").as_deref(), Some("authenticated")),
        _ => panic!("body"),
    }
    match auth_callback_reply(Err("bad".to_string())) {
        HttpReply::Rpc(r) => {
            let e = r.error.unwrap();
            assert_eq!((e.code, e.message.as_str()), (-32001, "OAuth callback failed: bad"));
        },
        _ => panic!("error"),
    }
}

#[test]
fn index_and_health_bodies() {
    let none: Option<StoredTokens> = None;
    let h = health_body(&none);
    assert_eq!(h.get_str("status").as_deref(), Some("ok"));
    assert_eq!(h.get("authenticated"), Some(&Json::Bool(false)));
    let stored = Some(StoredTokens {
        access_token: "a".to_string(),
        refresh_token: "r".to_string(),
        token_type: None,
        scope: None,
        expires_at_epoch: 0,
        retrieved_at_epoch: 0,
        user_email: None,
        user_id: None,
    });
    assert_eq!(health_body(&stored).get("authenticated"), Some(&Json::Bool(true)));
    let i = index_body();
    assert_eq!(i.get_str("name").as_deref(), Some("gphotos-mcp-rust"));
    let routes = i.get("routes").unwrap();
    assert_eq!(routes.get_str("auth_start").as_deref(), Some("/auth/start"));
    assert_eq!(routes.get_str("auth_callback").as_deref(), Some("/auth/callback"));
    assert_eq!(routes.get_str("mcp").as_deref(), Some("/mcp"));
    assert_eq!(routes.get_str("health").as_deref(), Some("/health"));
}

#[test]
fn listed_tools_are_callable() {
    for tool in list_tools() {
        let name = tool.get_str("name").unwrap();
        let args = obj(vec![
            ("query", s("q")),
            ("filter", obj(vec![])),
            ("photoId", s("p")),
            ("albumId", s("a")),
            ("title", s("t")),
            ("sessionId", s("s")),
        ]);
        let params = obj(vec![("name", Json::Str(name.clone())), ("arguments", args)]);
        assert!(plan_tool_call(params).is_ok(), "{name}");
    }
}

#[test]
fn tool_outcomes() {
    match photos_tool_outcome(Ok(Ok("{}".to_string()))) {
        Ok(j) => assert_eq!(j, text_result("{}")),
        Err(_) => panic!("text result"),
    }
    match photos_tool_outcome(Ok(Err("cannot print".to_string()))) {
        Err(e) => assert_eq!((e.code, e.message.as_str()), (-32000, "Internal error: cannot print")),
        Ok(_) => panic!("internal error"),
    }
    match photos_tool_outcome(Err(GooglePhotosError::NotAuthenticated)) {
        Err(e) => assert_eq!(e.code, -32001),
        Ok(_) => panic!("not authenticated"),
    }
    match internal_tool_outcome(Err("disk".to_string())) {
        Err(e) => assert_eq!(e.message, "Internal error: disk"),
        Ok(_) => panic!("internal error"),
    }
    match start_auth_outcome(Ok("https://x".to_string())) {
        Ok(j) => assert_eq!(j, start_auth_result("https://x")),
        Err(_) => panic!("url"),
    }
}

#[test]
fn tool_calls_are_answered_with_ok() {
    let (status, resp) = tool_call_reply(Some(Json::Number(JsonNumber::PosInt(9))), plan_tool_call(obj(vec![("name", s("nope"))])).map(|_| Json::Null));
    assert_eq!(status, 200);
    assert_eq!(resp.error.unwrap().code, -32601);
    assert!(resp.result.is_none());
    assert_eq!(resp.id, Some(Json::Number(JsonNumber::PosInt(9))));
    let (status, resp) = tool_call_reply(None, Ok(Json::Null));
    assert_eq!(status, 200);
    assert_eq!(resp.result, Some(Json::Null));
}
