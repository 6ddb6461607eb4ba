//! The JSON-RPC side of the MCP endpoint: responses, the tool catalogue,
//! reading a tool call's arguments and the errors that tool calls answer.

use vstd::prelude::*;
use crate::json::{are_texts, is_text, only_keys, Json, spec_as_str, spec_as_u64, spec_get};
use crate::auth::StoredTokens;
use crate::photos::{error_text, GooglePhotosError};
use crate::text::{concat2, decimal, decimal_string, owned, str_eq};

verus! {

/// A JSON-RPC request.
#[derive(Debug)]
pub struct RpcRequest {
    pub jsonrpc: String,
    pub id: Option<Json>,
    pub method: String,
    pub params: Json,
}

/// The error member of a JSON-RPC response.
#[derive(Clone, Debug)]
pub struct RpcError {
    pub code: i32,
    pub message: String,
}

/// A JSON-RPC response: it carries either a result or an error.
#[derive(Debug)]
pub struct RpcResponse {
    pub jsonrpc: String,
    pub id: Option<Json>,
    pub result: Option<Json>,
    pub error: Option<RpcError>,
}

/// A failed tool call.
#[derive(Clone, Debug)]
pub struct ToolError {
    pub code: i32,
    pub message: String,
}

/// A response that carries `result`.
pub open spec fn is_ok_response(r: RpcResponse, id: Option<Json>, result: Json) -> bool {
    &&& r.jsonrpc@ == "2.0"@
    &&& r.id == id
    &&& r.result == Some(result)
    &&& r.error is None
}

/// A response that carries an error.
pub open spec fn is_error_response(r: RpcResponse, id: Option<Json>, code: int, message: Seq<char>) -> bool {
    &&& r.jsonrpc@ == "2.0"@
    &&& r.id == id
    &&& r.result is None
    &&& r.error matches Some(e) && e.code == code && e.message@ == message
}

/// The success response to a request.
pub fn ok_response(id: Option<Json>, result: Json) -> (r: RpcResponse)
    ensures
        is_ok_response(r, id, result),
{
    RpcResponse { jsonrpc: owned("2.0"), id, result: Some(result), error: None }
}

/// The error response to a request.
pub fn error_response(id: Option<Json>, code: i32, message: &str) -> (r: RpcResponse)
    ensures
        is_error_response(r, id, code as int, message@),
{
    RpcResponse {
        jsonrpc: owned("2.0"),
        id,
        result: None,
        error: Some(RpcError { code, message: owned(message) }),
    }
}

/// A tool error with the given code and message.
pub open spec fn is_tool_error(e: ToolError, code: int, message: Seq<char>) -> bool {
    e.code == code && e.message@ == message
}

/// An error of outside code, reported as internal by its message.
pub fn internal_err(err: &str) -> (r: ToolError)
    ensures
        is_tool_error(r, -32000, "Internal error: "@ + err@),
{
    ToolError { code: -32000, message: concat2("Internal error: ", err) }
}

/// The tool error for a failed Photos request.
pub open spec fn gp_tool_error(err: GooglePhotosError, r: ToolError) -> bool {
    match err {
        GooglePhotosError::NotAuthenticated => is_tool_error(
            r,
            -32001,
            "Not authenticated. Use start_auth and complete /auth/callback."@,
        ),
        GooglePhotosError::ApiError { status, message } => is_tool_error(
            r,
            -32010,
            "Google Photos API error ("@ + decimal(status as nat) + "): "@ + message@,
        ),
        GooglePhotosError::InvalidInput(m) => is_tool_error(r, -32602, "Invalid input: "@ + m@),
        _ => is_tool_error(r, -32000, "Internal error: "@ + error_text(err)),
    }
}

/// Turns a failed Photos request into the tool error that answers it.
pub fn map_gp_err(err: GooglePhotosError) -> (r: ToolError)
    ensures
        gp_tool_error(err, r),
{
    match err {
        GooglePhotosError::NotAuthenticated => ToolError {
            code: -32001,
            message: owned("Not authenticated. Use start_auth and complete /auth/callback."),
        },
        GooglePhotosError::ApiError { status, message } => {
            let code = decimal_string(status as u64);
            let mut text = owned("Google Photos API error (");
            text.append(code.as_str());
            text.append("): ");
            text.append(message.as_str());
            ToolError { code: -32010, message: text }
        },
        GooglePhotosError::InvalidInput(msg) => ToolError {
            code: -32602,
            message: concat2("Invalid input: ", msg.as_str()),
        },
        other => {
            let text = other.message();
            internal_err(text.as_str())
        },
    }
}

/// The text of an argument, if it is a string.
pub open spec fn text_arg(args: Json, key: Seq<char>) -> Option<Seq<char>> {
    spec_as_str(spec_get(args, key))
}

/// The view of an optional string.
pub open spec fn opt_view(o: Option<String>) -> Option<Seq<char>> {
    match o {
        Some(s) => Some(s@),
        None => None,
    }
}

/// A non-negative integer argument, cut to its low 32 bits (`n as u32`).
pub open spec fn u32_arg(args: Json, key: Seq<char>) -> Option<u32> {
    match spec_as_u64(spec_get(args, key)) {
        Some(n) => Some(n as u32),
        None => None,
    }
}

/// A string argument that must be there.
pub fn required_string(args: &Json, key: &str) -> (r: Result<String, ToolError>)
    ensures
        match text_arg(*args, key@) {
            Some(s) => r matches Ok(v) && v@ == s,
            None => r matches Err(e) && is_tool_error(e, -32602, "Missing required argument: "@ + key@),
        },
{
    match args.get_str(key) {
        Some(s) => Ok(s),
        None => Err(ToolError { code: -32602, message: concat2("Missing required argument: ", key) }),
    }
}

/// A string argument that may be left out.
pub fn optional_string(args: &Json, key: &str) -> (r: Option<String>)
    ensures
        opt_view(r) == text_arg(*args, key@),
{
    args.get_str(key)
}

/// A number argument that may be left out.
pub fn optional_u32(args: &Json, key: &str) -> (r: Option<u32>)
    ensures
        r == u32_arg(*args, key@),
{
    match args.get_u64(key) {
        Some(n) => Some(n as u32),
        None => None,
    }
}

/// A tool of the catalogue: name, description, the properties of its
/// input with their JSON types, and the required ones where listed.
pub open spec fn tool_table() -> Seq<(Seq<char>, Seq<char>, Seq<(Seq<char>, Seq<char>)>, Option<Seq<Seq<char>>>)> {
    seq![
        ("auth_status"@, "Check auth status"@, seq![], None),
        ("start_auth"@, "Start OAuth browser flow"@, seq![], None),
        ("search_photos"@, "Search photos by query"@, seq![("query"@, "string"@), ("pageSize"@, "number"@), ("pageToken"@, "string"@)], Some(seq!["query"@])),
        ("search_media_by_filter"@, "Search photos by structured filters"@, seq![("filter"@, "object"@)], Some(seq!["filter"@])),
        ("get_photo"@, "Get media item details"@, seq![("photoId"@, "string"@)], Some(seq!["photoId"@])),
        ("list_albums"@, "List albums"@, seq![("pageSize"@, "number"@), ("pageToken"@, "string"@)], None),
        ("get_album"@, "Get album by id"@, seq![("albumId"@, "string"@)], Some(seq!["albumId"@])),
        ("create_album"@, "Create album"@, seq![("title"@, "string"@)], Some(seq!["title"@])),
        ("list_album_photos"@, "List album photos"@, seq![("albumId"@, "string"@), ("pageSize"@, "number"@), ("pageToken"@, "string"@)], Some(seq!["albumId"@])),
        ("list_media_items"@, "List media items"@, seq![("pageSize"@, "number"@), ("pageToken"@, "string"@)], None),
        ("create_picker_session"@, "Create Google Photos picker session"@, seq![], None),
        ("poll_picker_session"@, "Poll picker session and fetch selected media items"@, seq![("sessionId"@, "string"@), ("pageSize"@, "number"@), ("pageToken"@, "string"@)], Some(seq!["sessionId"@])),
    ]
}

/// The properties object of an input schema: exactly the listed keys,
/// each `{"type": ..}` with a listed type.
pub open spec fn properties_shape(p: Json, props: Seq<(Seq<char>, Seq<char>)>) -> bool {
    &&& p is Object
    &&& forall|k: Seq<char>|
        (#[trigger] spec_get(p, k)) is Some <==> exists|i: int| 0 <= i < props.len() && (#[trigger] props[i]).0 == k
    &&& forall|k: Seq<char>|
        #![trigger spec_get(p, k)]
        spec_get(p, k) is Some ==> exists|i: int|
            0 <= i < props.len() && (#[trigger] props[i]).0 == k && only_keys(spec_get(p, k)->0, seq!["type"@])
                && is_text(spec_get(spec_get(p, k)->0, "type"@), props[i].1)
}

/// A tool description as `tools/list` gives it.
pub open spec fn tool_shape(
    v: Json,
    tool: (Seq<char>, Seq<char>, Seq<(Seq<char>, Seq<char>)>, Option<Seq<Seq<char>>>),
) -> bool {
    &&& only_keys(v, seq!["name"@, "description"@, "inputSchema"@])
    &&& is_text(spec_get(v, "name"@), tool.0)
    &&& is_text(spec_get(v, "description"@), tool.1)
    &&& spec_get(v, "inputSchema"@) matches Some(schema) && {
        &&& only_keys(schema, seq!["type"@, "properties"@, "required"@])
        &&& is_text(spec_get(schema, "type"@), "object"@)
        &&& spec_get(schema, "properties"@) matches Some(p) && properties_shape(p, tool.2)
        &&& match tool.3 {
            Some(req) => spec_get(schema, "required"@) matches Some(Json::Array(a)) && are_texts(a@, req),
            None => spec_get(schema, "required"@) is None,
        }
    }
}

fn properties_object(props: &Vec<(&str, &str)>) -> (r: Json)
    ensures
        properties_shape(r, props.deep_view()),
{
    let ghost dv = props.deep_view();
    let mut obj = Json::empty_object();
    let mut i: usize = 0;
    while i < props.len()
        invariant
            i <= props@.len(),
            dv == props.deep_view(),
            properties_shape(obj, dv.take(i as int)),
        decreases props@.len() - i,
    {
        let (key, typ) = props[i];
        let ghost before = obj;
        let value = Json::object1("type", Json::from_str(typ));
        obj = obj.with(key, value);
        proof {
            let d = dv.take(i + 1);
            assert(d[i as int] == (key@, typ@));
            assert forall|k: Seq<char>| (#[trigger] spec_get(obj, k)) is Some <==> exists|j: int|
                0 <= j < d.len() && (#[trigger] d[j]).0 == k by {
                if k != key@ {
                    if exists|j: int| 0 <= j < d.len() && (#[trigger] d[j]).0 == k {
                        let j = choose|j: int| 0 <= j < d.len() && (#[trigger] d[j]).0 == k;
                        assert(j < i);
                        assert(dv.take(i as int)[j] == d[j]);
                    }
                    if spec_get(before, k) is Some {
                        let j = choose|j: int| 0 <= j < i && (#[trigger] dv.take(i as int)[j]).0 == k;
                        assert(d[j] == dv.take(i as int)[j]);
                    }
                }
            }
            assert forall|k: Seq<char>|
                #![trigger spec_get(obj, k)]
                spec_get(obj, k) is Some implies exists|j: int|
                    0 <= j < d.len() && (#[trigger] d[j]).0 == k && only_keys(spec_get(obj, k)->0, seq!["type"@])
                        && is_text(spec_get(spec_get(obj, k)->0, "type"@), d[j].1) by {
                if k == key@ {
                    assert(d[i as int].0 == k);
                } else {
                    let j = choose|j: int|
                        0 <= j < i && (#[trigger] dv.take(i as int)[j]).0 == k && only_keys(
                            spec_get(before, k)->0,
                            seq!["type"@],
                        ) && is_text(spec_get(spec_get(before, k)->0, "type"@), dv.take(i as int)[j].1);
                    assert(d[j] == dv.take(i as int)[j]);
                }
            }
        }
        i = i + 1;
    }
    assert(dv.take(props@.len() as int) =~= dv);
    obj
}

fn tool_entry(name: &str, description: &str, props: &Vec<(&str, &str)>, required: Option<Vec<&str>>) -> (r: Json)
    ensures
        tool_shape(
            r,
            (
                name@,
                description@,
                props.deep_view(),
                match required {
                    Some(req) => Some(req.deep_view()),
                    None => None,
                },
            ),
        ),
{
    proof {
        reveal_strlit("type");
        reveal_strlit("properties");
        reveal_strlit("required");
        reveal_strlit("name");
        reveal_strlit("description");
        reveal_strlit("inputSchema");
        assert("type"@.len() == 4 && "properties"@.len() == 10 && "required"@.len() == 8);
        assert("name"@.len() == 4 && "description"@.len() == 11 && "inputSchema"@.len() == 11);
        assert("description"@[0] == 'd' && "inputSchema"@[0] == 'i');
    }
    let schema = Json::empty_object().with("type", Json::from_str("object")).with(
        "properties",
        properties_object(props),
    );
    let schema = match required {
        Some(req) => schema.with("required", Json::text_array(&req)),
        None => schema,
    };
    let r = Json::empty_object().with("name", Json::from_str(name)).with(
        "description",
        Json::from_str(description),
    ).with("inputSchema", schema);
    proof {
        let keys = seq!["type"@, "properties"@, "required"@];
        assert forall|k: Seq<char>| !keys.contains(k) implies (#[trigger] spec_get(schema, k)) is None by {
            assert(k != keys[0] && k != keys[1] && k != keys[2]);
        }
        let keys2 = seq!["name"@, "description"@, "inputSchema"@];
        assert forall|k: Seq<char>| !keys2.contains(k) implies (#[trigger] spec_get(r, k)) is None by {
            assert(k != keys2[0] && k != keys2[1] && k != keys2[2]);
        }
    }
    r
}

/// Appends the next tool of the catalogue.
fn push_tool(tools: &mut Vec<Json>, t: Json)
    requires
        old(tools)@.len() < tool_table().len(),
        forall|i: int| 0 <= i < old(tools)@.len() ==> tool_shape(#[trigger] old(tools)@[i], tool_table()[i]),
        tool_shape(t, tool_table()[old(tools)@.len() as int]),
    ensures
        final(tools)@ == old(tools)@.push(t),
        forall|i: int| 0 <= i < final(tools)@.len() ==> tool_shape(#[trigger] final(tools)@[i], tool_table()[i]),
{
    tools.push(t);
}

/// The tools that `tools/list` offers, in this order.
pub fn list_tools() -> (r: Vec<Json>)
    ensures
        r@.len() == tool_table().len(),
        forall|i: int| 0 <= i < r@.len() ==> tool_shape(#[trigger] r@[i], tool_table()[i]),
{
    let ghost table = tool_table();
    let mut tools: Vec<Json> = Vec::new();
    let props: Vec<(&str, &str)> = vec![];
    let t = tool_entry("auth_status", "Check auth status", &props, None);
    proof {
        assert(props.deep_view() =~= table[0].2);
    }
    push_tool(&mut tools, t);
    let props: Vec<(&str, &str)> = vec![];
    let t = tool_entry("start_auth", "Start OAuth browser flow", &props, None);
    proof {
        assert(props.deep_view() =~= table[1].2);
    }
    push_tool(&mut tools, t);
    let props: Vec<(&str, &str)> = vec![("query", "string"), ("pageSize", "number"), ("pageToken", "string")];
    let required: Vec<&str> = vec!["query"];
    let ghost rv = required.deep_view();
    proof {
        assert(props.deep_view() =~= table[2].2);
        assert(rv =~= table[2].3->0);
    }
    let t = tool_entry("search_photos", "Search photos by query", &props, Some(required));
    push_tool(&mut tools, t);
    let props: Vec<(&str, &str)> = vec![("filter", "object")];
    let required: Vec<&str> = vec!["filter"];
    let ghost rv = required.deep_view();
    proof {
        assert(props.deep_view() =~= table[3].2);
        assert(rv =~= table[3].3->0);
    }
    let t = tool_entry("search_media_by_filter", "Search photos by structured filters", &props, Some(required));
    push_tool(&mut tools, t);
    let props: Vec<(&str, &str)> = vec![("photoId", "string")];
    let required: Vec<&str> = vec!["photoId"];
    let ghost rv = required.deep_view();
    proof {
        assert(props.deep_view() =~= table[4].2);
        assert(rv =~= table[4].3->0);
    }
    let t = tool_entry("get_photo", "Get media item details", &props, Some(required));
    push_tool(&mut tools, t);
    let props: Vec<(&str, &str)> = vec![("pageSize", "number"), ("pageToken", "string")];
    let t = tool_entry("list_albums", "List albums", &props, None);
    proof {
        assert(props.deep_view() =~= table[5].2);
    }
    push_tool(&mut tools, t);
    let props: Vec<(&str, &str)> = vec![("albumId", "string")];
    let required: Vec<&str> = vec!["albumId"];
    let ghost rv = required.deep_view();
    proof {
        assert(props.deep_view() =~= table[6].2);
        assert(rv =~= table[6].3->0);
    }
    let t = tool_entry("get_album", "Get album by id", &props, Some(required));
    push_tool(&mut tools, t);
    let props: Vec<(&str, &str)> = vec![("title", "string")];
    let required: Vec<&str> = vec!["title"];
    let ghost rv = required.deep_view();
    proof {
        assert(props.deep_view() =~= table[7].2);
        assert(rv =~= table[7].3->0);
    }
    let t = tool_entry("create_album", "Create album", &props, Some(required));
    push_tool(&mut tools, t);
    let props: Vec<(&str, &str)> = vec![("albumId", "string"), ("pageSize", "number"), ("pageToken", "string")];
    let required: Vec<&str> = vec!["albumId"];
    let ghost rv = required.deep_view();
    proof {
        assert(props.deep_view() =~= table[8].2);
        assert(rv =~= table[8].3->0);
    }
    let t = tool_entry("list_album_photos", "List album photos", &props, Some(required));
    push_tool(&mut tools, t);
    let props: Vec<(&str, &str)> = vec![("pageSize", "number"), ("pageToken", "string")];
    let t = tool_entry("list_media_items", "List media items", &props, None);
    proof {
        assert(props.deep_view() =~= table[9].2);
    }
    push_tool(&mut tools, t);
    let props: Vec<(&str, &str)> = vec![];
    let t = tool_entry("create_picker_session", "Create Google Photos picker session", &props, None);
    proof {
        assert(props.deep_view() =~= table[10].2);
    }
    push_tool(&mut tools, t);
    let props: Vec<(&str, &str)> = vec![("sessionId", "string"), ("pageSize", "number"), ("pageToken", "string")];
    let required: Vec<&str> = vec!["sessionId"];
    let ghost rv = required.deep_view();
    proof {
        assert(props.deep_view() =~= table[11].2);
        assert(rv =~= table[11].3->0);
    }
    let t = tool_entry("poll_picker_session", "Poll picker session and fetch selected media items", &props, Some(required));
    push_tool(&mut tools, t);
    tools
}

/// A tool call, read from its parameters, ready to be carried out.
#[derive(Debug)]
pub enum ToolCall {
    AuthStatus,
    StartAuth,
    SearchPhotos { query: String, page_size: Option<u32>, page_token: Option<String> },
    SearchMediaByFilter { filter: Json },
    GetPhoto { photo_id: String },
    ListAlbums { page_size: Option<u32>, page_token: Option<String> },
    GetAlbum { album_id: String },
    CreateAlbum { title: String },
    ListAlbumPhotos { album_id: String, page_size: Option<u32>, page_token: Option<String> },
    ListMediaItems { page_size: Option<u32>, page_token: Option<String> },
    CreatePickerSession,
    PollPickerSession { session_id: String, page_size: Option<u32>, page_token: Option<String> },
}

/// The catalogue name of the tool that a call carries out.
pub open spec fn call_tool_name(c: ToolCall) -> Seq<char> {
    match c {
        ToolCall::AuthStatus => "auth_status"@,
        ToolCall::StartAuth => "start_auth"@,
        ToolCall::SearchPhotos { .. } => "search_photos"@,
        ToolCall::SearchMediaByFilter { .. } => "search_media_by_filter"@,
        ToolCall::GetPhoto { .. } => "get_photo"@,
        ToolCall::ListAlbums { .. } => "list_albums"@,
        ToolCall::GetAlbum { .. } => "get_album"@,
        ToolCall::CreateAlbum { .. } => "create_album"@,
        ToolCall::ListAlbumPhotos { .. } => "list_album_photos"@,
        ToolCall::ListMediaItems { .. } => "list_media_items"@,
        ToolCall::CreatePickerSession => "create_picker_session"@,
        ToolCall::PollPickerSession { .. } => "poll_picker_session"@,
    }
}

/// An argument of a tool call: a member of `arguments` (absent when
/// `arguments` is missing).
pub open spec fn call_arg(params: Json, key: Seq<char>) -> Option<Json> {
    match spec_get(params, "arguments"@) {
        Some(args) => spec_get(args, key),
        None => None,
    }
}

/// A string argument of a tool call.
pub open spec fn call_text(params: Json, key: Seq<char>) -> Option<Seq<char>> {
    spec_as_str(call_arg(params, key))
}

/// A number argument of a tool call, cut to 32 bits.
pub open spec fn call_u32(params: Json, key: Seq<char>) -> Option<u32> {
    match spec_as_u64(call_arg(params, key)) {
        Some(n) => Some(n as u32),
        None => None,
    }
}

/// The error for a required argument that is missing.
pub open spec fn missing_arg(r: Result<ToolCall, ToolError>, key: Seq<char>) -> bool {
    r matches Err(e) && is_tool_error(e, -32602, "Missing required argument: "@ + key)
}

/// The paging arguments of a call are `pageSize` and `pageToken`.
pub open spec fn paging_of(params: Json, page_size: Option<u32>, page_token: Option<String>) -> bool {
    page_size == call_u32(params, "pageSize"@) && opt_view(page_token) == call_text(params, "pageToken"@)
}

/// The call that the parameters ask for, with its arguments, or the error
/// that answers them.
pub open spec fn planned_call(params: Json, name: Seq<char>, r: Result<ToolCall, ToolError>) -> bool {
    if name == "auth_status"@ {
        r matches Ok(ToolCall::AuthStatus)
    } else if name == "start_auth"@ {
        r matches Ok(ToolCall::StartAuth)
    } else if name == "search_photos"@ {
        match call_text(params, "query"@) {
            None => missing_arg(r, "query"@),
            Some(q) => r matches Ok(ToolCall::SearchPhotos { query, page_size, page_token }) && query@ == q
                && paging_of(params, page_size, page_token),
        }
    } else if name == "search_media_by_filter"@ {
        match call_arg(params, "filter"@) {
            None => r matches Err(e) && is_tool_error(e, -32602, "Missing filter object"@),
            Some(f) => r matches Ok(ToolCall::SearchMediaByFilter { filter }) && filter == f,
        }
    } else if name == "get_photo"@ {
        match call_text(params, "photoId"@) {
            None => missing_arg(r, "photoId"@),
            Some(id) => r matches Ok(ToolCall::GetPhoto { photo_id }) && photo_id@ == id,
        }
    } else if name == "list_albums"@ {
        r matches Ok(ToolCall::ListAlbums { page_size, page_token }) && paging_of(params, page_size, page_token)
    } else if name == "get_album"@ {
        match call_text(params, "albumId"@) {
            None => missing_arg(r, "albumId"@),
            Some(id) => r matches Ok(ToolCall::GetAlbum { album_id }) && album_id@ == id,
        }
    } else if name == "create_album"@ {
        match call_text(params, "title"@) {
            None => missing_arg(r, "title"@),
            Some(t) => r matches Ok(ToolCall::CreateAlbum { title }) && title@ == t,
        }
    } else if name == "list_album_photos"@ {
        match call_text(params, "albumId"@) {
            None => missing_arg(r, "albumId"@),
            Some(id) => r matches Ok(ToolCall::ListAlbumPhotos { album_id, page_size, page_token })
                && album_id@ == id && paging_of(params, page_size, page_token),
        }
    } else if name == "list_media_items"@ {
        r matches Ok(ToolCall::ListMediaItems { page_size, page_token }) && paging_of(
            params,
            page_size,
            page_token,
        )
    } else if name == "create_picker_session"@ {
        r matches Ok(ToolCall::CreatePickerSession)
    } else if name == "poll_picker_session"@ {
        match call_text(params, "sessionId"@) {
            None => missing_arg(r, "sessionId"@),
            Some(id) => r matches Ok(ToolCall::PollPickerSession { session_id, page_size, page_token })
                && session_id@ == id && paging_of(params, page_size, page_token),
        }
    } else {
        r matches Err(e) && is_tool_error(e, -32601, "Unknown tool: "@ + name)
    }
}

/// Reads a `tools/call` request's parameters: the tool's `name` and its
/// `arguments` (an empty object when absent).
pub fn plan_tool_call(params: Json) -> (r: Result<ToolCall, ToolError>)
    ensures
        match spec_as_str(spec_get(params, "name"@)) {
            None => r matches Err(e) && is_tool_error(e, -32602, "Missing tool name"@),
            Some(name) => planned_call(params, name, r),
        },
        r matches Ok(c) ==> spec_as_str(spec_get(params, "name"@)) == Some(call_tool_name(c)),
{
    let name = match params.get_str("name") {
        Some(n) => n,
        None => {
            return Err(ToolError { code: -32602, message: owned("Missing tool name") });
        },
    };
    let ghost p = params;
    let (_rest, arguments) = params.take("arguments");
    let args = match arguments {
        Some(a) => a,
        None => Json::empty_object(),
    };
    assert(forall|k: Seq<char>| #[trigger] spec_get(args, k) == call_arg(p, k));
    let n = name.as_str();
    if str_eq(n, "auth_status") {
        Ok(ToolCall::AuthStatus)
    } else if str_eq(n, "start_auth") {
        Ok(ToolCall::StartAuth)
    } else if str_eq(n, "search_photos") {
        let query = required_string(&args, "query")?;
        let page_size = optional_u32(&args, "pageSize");
        let page_token = optional_string(&args, "pageToken");
        Ok(ToolCall::SearchPhotos { query, page_size, page_token })
    } else if str_eq(n, "search_media_by_filter") {
        let (_args, filter) = args.take("filter");
        match filter {
            Some(filter) => Ok(ToolCall::SearchMediaByFilter { filter }),
            None => Err(ToolError { code: -32602, message: owned("Missing filter object") }),
        }
    } else if str_eq(n, "get_photo") {
        let photo_id = required_string(&args, "photoId")?;
        Ok(ToolCall::GetPhoto { photo_id })
    } else if str_eq(n, "list_albums") {
        let page_size = optional_u32(&args, "pageSize");
        let page_token = optional_string(&args, "pageToken");
        Ok(ToolCall::ListAlbums { page_size, page_token })
    } else if str_eq(n, "get_album") {
        let album_id = required_string(&args, "albumId")?;
        Ok(ToolCall::GetAlbum { album_id })
    } else if str_eq(n, "create_album") {
        let title = required_string(&args, "title")?;
        Ok(ToolCall::CreateAlbum { title })
    } else if str_eq(n, "list_album_photos") {
        let album_id = required_string(&args, "albumId")?;
        let page_size = optional_u32(&args, "pageSize");
        let page_token = optional_string(&args, "pageToken");
        Ok(ToolCall::ListAlbumPhotos { album_id, page_size, page_token })
    } else if str_eq(n, "list_media_items") {
        let page_size = optional_u32(&args, "pageSize");
        let page_token = optional_string(&args, "pageToken");
        Ok(ToolCall::ListMediaItems { page_size, page_token })
    } else if str_eq(n, "create_picker_session") {
        Ok(ToolCall::CreatePickerSession)
    } else if str_eq(n, "poll_picker_session") {
        let session_id = required_string(&args, "sessionId")?;
        let page_size = optional_u32(&args, "pageSize");
        let page_token = optional_string(&args, "pageToken");
        Ok(ToolCall::PollPickerSession { session_id, page_size, page_token })
    } else {
        Err(ToolError { code: -32601, message: concat2("Unknown tool: ", n) })
    }
}

/// The result of a tool whose output is text:
/// `{"content": [{"type": "text", "text": text}]}`.
pub open spec fn text_content(r: Json, text: Seq<char>) -> bool {
    &&& only_keys(r, seq!["content"@])
    &&& spec_get(r, "content"@) matches Some(Json::Array(items)) && items@.len() == 1 && {
        let item = items@[0];
        &&& only_keys(item, seq!["type"@, "text"@])
        &&& is_text(spec_get(item, "type"@), "text"@)
        &&& is_text(spec_get(item, "text"@), text)
    }
}

fn content_item(text: &str) -> (r: Json)
    ensures
        only_keys(r, seq!["type"@, "text"@]),
        is_text(spec_get(r, "type"@), "text"@),
        is_text(spec_get(r, "text"@), text@),
{
    proof {
        reveal_strlit("type");
        reveal_strlit("text");
        assert("type"@.len() == 4 && "text"@.len() == 4);
        assert("type"@[1] == 'y' && "text"@[1] == 'e');
    }
    let r = Json::empty_object().with("type", Json::from_str("text")).with("text", Json::from_str(text));
    proof {
        let keys = seq!["type"@, "text"@];
        assert forall|k: Seq<char>| !keys.contains(k) implies (#[trigger] spec_get(r, k)) is None by {
            assert(k != keys[0] && k != keys[1]);
        }
    }
    r
}

/// The result of a tool whose output is the given text (the
/// pretty-printed JSON of what the Photos API answered).
pub fn text_result(text: &str) -> (r: Json)
    ensures
        text_content(r, text@),
{
    let item = content_item(text);
    Json::object1("content", Json::Array(vec![item]))
}

/// The shape of the `start_auth` result for a URL.
pub open spec fn start_auth_shape(r: Json, auth_url: Seq<char>) -> bool {
    &&& only_keys(r, seq!["content"@, "authUrl"@])
    &&& is_text(spec_get(r, "authUrl"@), auth_url)
    &&& spec_get(r, "content"@) matches Some(Json::Array(items)) && items@.len() == 1 && {
        let item = items@[0];
        &&& only_keys(item, seq!["type"@, "text"@])
        &&& is_text(spec_get(item, "type"@), "text"@)
        &&& is_text(spec_get(item, "text"@), "Open this URL to authenticate:\n"@ + auth_url)
    }
}

/// The result of `start_auth`: the URL to open, as text and as `authUrl`.
pub fn start_auth_result(auth_url: &str) -> (r: Json)
    ensures
        start_auth_shape(r, auth_url@),
{
    proof {
        reveal_strlit("content");
        reveal_strlit("authUrl");
        assert("content"@.len() == 7 && "authUrl"@.len() == 7);
        assert("content"@[0] == 'c' && "authUrl"@[0] == 'a');
    }
    let text = concat2("Open this URL to authenticate:\n", auth_url);
    let item = content_item(text.as_str());
    let r = Json::empty_object().with("content", Json::Array(vec![item])).with(
        "authUrl",
        Json::from_str(auth_url),
    );
    proof {
        let keys = seq!["content"@, "authUrl"@];
        assert forall|k: Seq<char>| !keys.contains(k) implies (#[trigger] spec_get(r, k)) is None by {
            assert(k != keys[0] && k != keys[1]);
        }
    }
    r
}

/// What the endpoint does with a request: answer it at once with an HTTP
/// status, or carry out a tool call and answer with its outcome.
#[derive(Debug)]
pub enum McpRoute {
    Reply { status: u16, response: RpcResponse },
    CallTool { id: Option<Json>, params: Json },
}

/// The `initialize` result: the server's name and version, and its
/// capabilities (tools, with no options).
pub open spec fn initialize_result(r: Json, version: Seq<char>) -> bool {
    &&& only_keys(r, seq!["serverInfo"@, "capabilities"@])
    &&& spec_get(r, "serverInfo"@) matches Some(info) && {
        &&& only_keys(info, seq!["name"@, "version"@])
        &&& is_text(spec_get(info, "name"@), "gphotos-mcp-rust"@)
        &&& is_text(spec_get(info, "version"@), version)
    }
    &&& spec_get(r, "capabilities"@) matches Some(caps) && {
        &&& only_keys(caps, seq!["tools"@])
        &&& spec_get(caps, "tools"@) matches Some(tools) && only_keys(tools, Seq::empty())
    }
}

/// The `tools/list` result: `{"tools": [..]}` with the catalogue.
pub open spec fn tools_list_result(r: Json) -> bool {
    &&& only_keys(r, seq!["tools"@])
    &&& spec_get(r, "tools"@) matches Some(Json::Array(tools)) && {
        &&& tools@.len() == tool_table().len()
        &&& forall|i: int| 0 <= i < tools@.len() ==> tool_shape(#[trigger] tools@[i], tool_table()[i])
    }
}

fn initialize_info(version: &str) -> (r: Json)
    ensures
        initialize_result(r, version@),
{
    proof {
        reveal_strlit("serverInfo");
        reveal_strlit("capabilities");
        reveal_strlit("name");
        reveal_strlit("version");
        assert("serverInfo"@.len() == 10 && "capabilities"@.len() == 12);
        assert("name"@.len() == 4 && "version"@.len() == 7);
    }
    let info = Json::empty_object().with("name", Json::from_str("gphotos-mcp-rust")).with(
        "version",
        Json::from_str(version),
    );
    let caps = Json::object1("tools", Json::empty_object());
    let r = Json::empty_object().with("serverInfo", info).with("capabilities", caps);
    proof {
        let keys = seq!["name"@, "version"@];
        assert forall|k: Seq<char>| !keys.contains(k) implies (#[trigger] spec_get(info, k)) is None by {
            assert(k != keys[0] && k != keys[1]);
        }
        let keys2 = seq!["serverInfo"@, "capabilities"@];
        assert forall|k: Seq<char>| !keys2.contains(k) implies (#[trigger] spec_get(r, k)) is None by {
            assert(k != keys2[0] && k != keys2[1]);
        }
        let e = spec_get(caps, "tools"@)->0;
        assert forall|k: Seq<char>| !Seq::<Seq<char>>::empty().contains(k) implies (#[trigger] spec_get(
            e,
            k,
        )) is None by {}
    }
    r
}

/// Routes a JSON-RPC request: a wrong `jsonrpc` version is refused with
/// 400, `initialize` and `tools/list` are answered, `tools/call` goes on
/// to the tool, any other method is unknown. `version` is the server's.
pub fn mcp_entry(req: RpcRequest, version: &str) -> (r: McpRoute)
    ensures
        req.jsonrpc@ != "2.0"@ ==> (r matches McpRoute::Reply { status, response } && status == 400
            && is_error_response(response, req.id, -32600, "jsonrpc must be 2.0"@)),
        req.jsonrpc@ == "2.0"@ && req.method@ == "initialize"@ ==> (r matches McpRoute::Reply {
            status,
            response,
        } && (status == 200 && response.id == req.id && response.error is None && response.jsonrpc@
            == "2.0"@ && (response.result matches Some(res) && initialize_result(res, version@)))),
        req.jsonrpc@ == "2.0"@ && req.method@ == "tools/list"@ ==> (r matches McpRoute::Reply {
            status,
            response,
        } && (status == 200 && response.id == req.id && response.error is None && response.jsonrpc@
            == "2.0"@ && (response.result matches Some(res) && tools_list_result(res)))),
        req.jsonrpc@ == "2.0"@ && req.method@ == "tools/call"@ ==> (r matches McpRoute::CallTool {
            id,
            params,
        } && id == req.id && params == req.params),
        req.jsonrpc@ == "2.0"@ && req.method@ != "initialize"@ && req.method@ != "tools/list"@
            && req.method@ != "tools/call"@ ==> (r matches McpRoute::Reply { status, response } && status
            == 200 && is_error_response(response, req.id, -32601, "Method not found"@)),
{
    if !str_eq(req.jsonrpc.as_str(), "2.0") {
        return McpRoute::Reply { status: 400, response: error_response(req.id, -32600, "jsonrpc must be 2.0") };
    }
    proof {
        reveal_strlit("initialize");
        reveal_strlit("tools/list");
        reveal_strlit("tools/call");
        assert("initialize"@[0] == 'i' && "tools/list"@[0] == 't' && "tools/call"@[0] == 't');
        assert("tools/list"@[6] == 'l' && "tools/call"@[6] == 'c');
    }
    let m = req.method.as_str();
    if str_eq(m, "initialize") {
        McpRoute::Reply { status: 200, response: ok_response(req.id, initialize_info(version)) }
    } else if str_eq(m, "tools/list") {
        proof {
            reveal_strlit("tools");
        }
        let tools = list_tools();
        let result = Json::object1("tools", Json::Array(tools));
        McpRoute::Reply { status: 200, response: ok_response(req.id, result) }
    } else if str_eq(m, "tools/call") {
        McpRoute::CallTool { id: req.id, params: req.params }
    } else {
        McpRoute::Reply { status: 200, response: error_response(req.id, -32601, "Method not found") }
    }
}

/// The response to a tool call from its outcome.
pub fn tool_call_response(id: Option<Json>, outcome: Result<Json, ToolError>) -> (r: RpcResponse)
    ensures
        match outcome {
            Ok(v) => is_ok_response(r, id, v),
            Err(e) => is_error_response(r, id, e.code as int, e.message@),
        },
{
    match outcome {
        Ok(v) => ok_response(id, v),
        Err(e) => error_response(id, e.code, e.message.as_str()),
    }
}

/// The HTTP status and response that answer a tool call: always 200 OK,
/// with the tool's result or its error.
pub fn tool_call_reply(id: Option<Json>, outcome: Result<Json, ToolError>) -> (r: (u16, RpcResponse))
    ensures
        r.0 == 200,
        match outcome {
            Ok(v) => is_ok_response(r.1, id, v),
            Err(e) => is_error_response(r.1, id, e.code as int, e.message@),
        },
{
    (200, tool_call_response(id, outcome))
}

/// A JSON-RPC error body for the HTTP routes, without an id.
pub fn error_json(code: i32, message: String) -> (r: RpcResponse)
    ensures
        is_error_response(r, None, code as int, message@),
{
    error_response(None, code, message.as_str())
}

/// The two query parameters of the OAuth callback, or the error that
/// answers a missing one (the code is looked at first).
pub fn callback_params(code: Option<String>, state: Option<String>) -> (r: Result<(String, String), RpcResponse>)
    ensures
        code is None ==> (r matches Err(e) && is_error_response(
            e,
            None,
            -32602,
            "Missing query parameter: code"@,
        )),
        code is Some && state is None ==> (r matches Err(e) && is_error_response(
            e,
            None,
            -32602,
            "Missing query parameter: state"@,
        )),
        code is Some && state is Some ==> r == Ok::<(String, String), RpcResponse>((code->0, state->0)),
{
    let code = match code {
        Some(c) => c,
        None => {
            return Err(error_json(-32602, owned("Missing query parameter: code")));
        },
    };
    let state = match state {
        Some(s) => s,
        None => {
            return Err(error_json(-32602, owned("Missing query parameter: state")));
        },
    };
    Ok((code, state))
}

/// A tool name that the catalogue does not hold is answered with
/// "method not found" (-32601) and the name, whatever the arguments.
pub proof fn law_unknown_tool(params: Json, name: Seq<char>, r: Result<ToolCall, ToolError>)
    requires
        forall|i: int| 0 <= i < tool_table().len() ==> name != (#[trigger] tool_table()[i]).0,
        planned_call(params, name, r),
    ensures
        r matches Err(e) && is_tool_error(e, -32601, "Unknown tool: "@ + name),
{
    let t = tool_table();
    assert(name != t[0].0 && name != t[1].0 && name != t[2].0 && name != t[3].0);
    assert(name != t[4].0 && name != t[5].0 && name != t[6].0 && name != t[7].0);
    assert(name != t[8].0 && name != t[9].0 && name != t[10].0 && name != t[11].0);
}

/// Every tool of the catalogue is one that a `tools/call` carries out:
/// its name is never answered as unknown.
pub proof fn law_listed_tools_are_callable(params: Json, i: int, r: Result<ToolCall, ToolError>)
    requires
        0 <= i < tool_table().len(),
        planned_call(params, tool_table()[i].0, r),
    ensures
        !(r matches Err(e) && e.code == -32601),
{
}

/// A call that is carried out is the call of the tool that was named: a
/// tool name is never dispatched to another tool's action.
pub proof fn law_call_is_of_named_tool(params: Json, name: Seq<char>, r: Result<ToolCall, ToolError>)
    requires
        planned_call(params, name, r),
        r is Ok,
    ensures
        call_tool_name(r->Ok_0) == name,
{
}

/// Every call that can be carried out is of a tool that the catalogue lists.
pub proof fn law_calls_are_listed(c: ToolCall)
    ensures
        exists|i: int| 0 <= i < tool_table().len() && (#[trigger] tool_table()[i]).0 == call_tool_name(c),
{
    let t = tool_table();
    match c {
        ToolCall::AuthStatus => assert(t[0].0 == call_tool_name(c)),
        ToolCall::StartAuth => assert(t[1].0 == call_tool_name(c)),
        ToolCall::SearchPhotos { .. } => assert(t[2].0 == call_tool_name(c)),
        ToolCall::SearchMediaByFilter { .. } => assert(t[3].0 == call_tool_name(c)),
        ToolCall::GetPhoto { .. } => assert(t[4].0 == call_tool_name(c)),
        ToolCall::ListAlbums { .. } => assert(t[5].0 == call_tool_name(c)),
        ToolCall::GetAlbum { .. } => assert(t[6].0 == call_tool_name(c)),
        ToolCall::CreateAlbum { .. } => assert(t[7].0 == call_tool_name(c)),
        ToolCall::ListAlbumPhotos { .. } => assert(t[8].0 == call_tool_name(c)),
        ToolCall::ListMediaItems { .. } => assert(t[9].0 == call_tool_name(c)),
        ToolCall::CreatePickerSession => assert(t[10].0 == call_tool_name(c)),
        ToolCall::PollPickerSession { .. } => assert(t[11].0 == call_tool_name(c)),
    }
}

/// A body for an HTTP route: plain JSON or a JSON-RPC error.
#[derive(Debug)]
pub enum HttpReply {
    Body(Json),
    Rpc(RpcResponse),
}

/// The answer of `/auth/start`: the URL to open, or the error.
pub fn auth_start_reply(outcome: Result<String, String>) -> (r: HttpReply)
    ensures
        match outcome {
            Ok(url) => r matches HttpReply::Body(b) && only_keys(b, seq!["auth_url"@, "instruction"@])
                && is_text(spec_get(b, "auth_url"@), url@) && is_text(
                spec_get(b, "instruction"@),
                "Open auth_url in a browser, then Google redirects to /auth/callback."@,
            ),
            Err(e) => r matches HttpReply::Rpc(resp) && is_error_response(
                resp,
                None,
                -32000,
                "Could not start OAuth flow: "@ + e@,
            ),
        },
{
    match outcome {
        Ok(url) => {
            proof {
                reveal_strlit("auth_url");
                reveal_strlit("instruction");
                assert("auth_url"@.len() == 8 && "instruction"@.len() == 11);
            }
            let b = Json::empty_object().with("auth_url", Json::from_str(url.as_str())).with(
                "instruction",
                Json::from_str("Open auth_url in a browser, then Google redirects to /auth/callback."),
            );
            proof {
                let keys = seq!["auth_url"@, "instruction"@];
                assert forall|k: Seq<char>| !keys.contains(k) implies (#[trigger] spec_get(b, k)) is None by {
                    assert(k != keys[0] && k != keys[1]);
                }
            }
            HttpReply::Body(b)
        },
        Err(e) => HttpReply::Rpc(error_json(-32000, concat2("Could not start OAuth flow: ", e.as_str()))),
    }
}

/// The answer of `/auth/callback` once the exchange was tried.
pub fn auth_callback_reply(outcome: Result<(), String>) -> (r: HttpReply)
    ensures
        match outcome {
            Ok(()) => r matches HttpReply::Body(b) && only_keys(b, seq!["status"@, "message"@]) && is_text(
                spec_get(b, "status"@),
                "authenticated"@,
            ) && is_text(spec_get(b, "message"@), "OAuth tokens saved. You can now use MCP tools."@),
            Err(e) => r matches HttpReply::Rpc(resp) && is_error_response(
                resp,
                None,
                -32001,
                "OAuth callback failed: "@ + e@,
            ),
        },
{
    match outcome {
        Ok(()) => {
            proof {
                reveal_strlit("status");
                reveal_strlit("message");
                assert("status"@.len() == 6 && "message"@.len() == 7);
            }
            let b = Json::empty_object().with("status", Json::from_str("authenticated")).with(
                "message",
                Json::from_str("OAuth tokens saved. You can now use MCP tools."),
            );
            proof {
                let keys = seq!["status"@, "message"@];
                assert forall|k: Seq<char>| !keys.contains(k) implies (#[trigger] spec_get(b, k)) is None by {
                    assert(k != keys[0] && k != keys[1]);
                }
            }
            HttpReply::Body(b)
        },
        Err(e) => HttpReply::Rpc(error_json(-32001, concat2("OAuth callback failed: ", e.as_str()))),
    }
}

/// The body of `/health`: `{"status": "ok", "authenticated": ..}`, where
/// `authenticated` tells whether OAuth tokens are stored, so that the
/// route confirms the login.
pub fn health_body(tokens: &Option<StoredTokens>) -> (r: Json)
    ensures
        only_keys(r, seq!["status"@, "authenticated"@]),
        is_text(spec_get(r, "status"@), "ok"@),
        spec_get(r, "authenticated"@) == Some(Json::Bool(tokens is Some)),
{
    proof {
        reveal_strlit("status");
        reveal_strlit("authenticated");
        assert("status"@.len() == 6 && "authenticated"@.len() == 13);
    }
    let r = Json::empty_object().with("status", Json::from_str("ok")).with(
        "authenticated",
        Json::Bool(tokens.is_some()),
    );
    proof {
        let keys = seq!["status"@, "authenticated"@];
        assert forall|k: Seq<char>| !keys.contains(k) implies (#[trigger] spec_get(r, k)) is None by {
            assert(k != keys[0] && k != keys[1]);
        }
    }
    r
}

/// The body of `/`: the server's name, a description and its routes.
pub fn index_body() -> (r: Json)
    ensures
        only_keys(r, seq!["name"@, "description"@, "routes"@]),
        is_text(spec_get(r, "name"@), "gphotos-mcp-rust"@),
        is_text(spec_get(r, "description"@), "Rust Google Photos MCP bootstrap server"@),
        spec_get(r, "routes"@) matches Some(routes) && {
            &&& only_keys(routes, seq!["auth_start"@, "auth_callback"@, "mcp"@, "health"@])
            &&& is_text(spec_get(routes, "auth_start"@), "/auth/start"@)
            &&& is_text(spec_get(routes, "auth_callback"@), "/auth/callback"@)
            &&& is_text(spec_get(routes, "mcp"@), "/mcp"@)
            &&& is_text(spec_get(routes, "health"@), "/health"@)
        },
{
    proof {
        reveal_strlit("name");
        reveal_strlit("description");
        reveal_strlit("routes");
        reveal_strlit("auth_start");
        reveal_strlit("auth_callback");
        reveal_strlit("mcp");
        reveal_strlit("health");
        assert("name"@.len() == 4 && "description"@.len() == 11 && "routes"@.len() == 6);
        assert("auth_start"@.len() == 10 && "auth_callback"@.len() == 13 && "mcp"@.len() == 3);
        assert("health"@.len() == 6 && "routes"@[0] == 'r' && "health"@[0] == 'h');
    }
    let routes = Json::empty_object().with("auth_start", Json::from_str("/auth/start")).with(
        "auth_callback",
        Json::from_str("/auth/callback"),
    ).with("mcp", Json::from_str("/mcp")).with("health", Json::from_str("/health"));
    let r = Json::empty_object().with("name", Json::from_str("gphotos-mcp-rust")).with(
        "description",
        Json::from_str("Rust Google Photos MCP bootstrap server"),
    ).with("routes", routes);
    proof {
        let keys = seq!["auth_start"@, "auth_callback"@, "mcp"@, "health"@];
        assert forall|k: Seq<char>| !keys.contains(k) implies (#[trigger] spec_get(routes, k)) is None by {
            assert(k != keys[0] && k != keys[1] && k != keys[2] && k != keys[3]);
        }
        let keys2 = seq!["name"@, "description"@, "routes"@];
        assert forall|k: Seq<char>| !keys2.contains(k) implies (#[trigger] spec_get(r, k)) is None by {
            assert(k != keys2[0] && k != keys2[1] && k != keys2[2]);
        }
    }
    r
}

/// The result of a tool from the pretty-printed text of its output, or
/// from the message of a failure to print it.
pub open spec fn printed_result(printed: Result<String, String>, r: Result<Json, ToolError>) -> bool {
    match printed {
        Ok(t) => r matches Ok(j) && text_content(j, t@),
        Err(m) => r matches Err(e) && is_tool_error(e, -32000, "Internal error: "@ + m@),
    }
}

/// A tool's text result, or an internal error when its output could not
/// be printed.
pub fn printed_outcome(printed: Result<String, String>) -> (r: Result<Json, ToolError>)
    ensures
        printed_result(printed, r),
{
    match printed {
        Ok(t) => Ok(text_result(t.as_str())),
        Err(m) => Err(internal_err(m.as_str())),
    }
}

/// The outcome of a Photos tool: the tool error for a failed request, else
/// the printed answer.
pub fn photos_tool_outcome(outcome: Result<Result<String, String>, GooglePhotosError>) -> (r: Result<
    Json,
    ToolError,
>)
    ensures
        match outcome {
            Err(e) => r matches Err(te) && gp_tool_error(e, te),
            Ok(printed) => printed_result(printed, r),
        },
{
    match outcome {
        Err(e) => Err(map_gp_err(e)),
        Ok(printed) => printed_outcome(printed),
    }
}

/// The outcome of a tool whose own failures (by their message) are
/// internal errors: `auth_status`.
pub fn internal_tool_outcome(outcome: Result<Result<String, String>, String>) -> (r: Result<Json, ToolError>)
    ensures
        match outcome {
            Err(m) => r matches Err(e) && is_tool_error(e, -32000, "Internal error: "@ + m@),
            Ok(printed) => printed_result(printed, r),
        },
{
    match outcome {
        Err(m) => Err(internal_err(m.as_str())),
        Ok(printed) => printed_outcome(printed),
    }
}

/// The outcome of `start_auth`: the URL to open, or an internal error.
pub fn start_auth_outcome(outcome: Result<String, String>) -> (r: Result<Json, ToolError>)
    ensures
        match outcome {
            Err(m) => r matches Err(e) && is_tool_error(e, -32000, "Internal error: "@ + m@),
            Ok(url) => r matches Ok(j) && start_auth_shape(j, url@),
        },
{
    match outcome {
        Err(m) => Err(internal_err(m.as_str())),
        Ok(url) => Ok(start_auth_result(url.as_str())),
    }
}

} // verus!
