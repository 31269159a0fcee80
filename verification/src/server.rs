//! The method dispatcher: reads one wire line, routes it to the matching
//! method handler, and writes one response line, composing the registry,
//! the admission gate and the audit ledger.  A malformed line never
//! tears the connection down; it is answered like any other request.
use vstd::prelude::*;

use crate::json::{
    json_chars, jv_of, jv_of_pairs, lemma_jv_of_pairs, lemma_jv_of_seq, lookup, parse_json,
    parse_text, JsonV, JsonValue,
};
use crate::jsonrpc::{
    req_of_jv, resp_jv, wf_response, ErrV, JsonRpcError, JsonRpcRequest, JsonRpcResponse, ReqV,
    RespV,
};
use crate::registry::{
    all_resources, all_tools, owns_resource, owns_tool, MCPContent, MCPToolResult, Resource,
    ResourceV, Tool, ToolArgs, ToolV,
};
use crate::strutil::string_eq;
use crate::{LinuxMCPServer, MCPError};

verus! {

/// The document form of one declared tool.
pub open spec fn tool_jv(t: ToolV) -> JsonV {
    JsonV::Obj(
        seq![
            ("name"@, JsonV::Str(t.name)),
            ("description"@, JsonV::Str(t.description)),
            ("input_schema"@, t.input_schema),
        ],
    )
}

/// The document form of a tool list.
pub open spec fn tools_jv(ts: Seq<ToolV>) -> Seq<JsonV> {
    Seq::new(ts.len(), |i: int| tool_jv(ts[i]))
}

/// The document form of one declared resource; absent fields are null.
pub open spec fn resource_jv(r: ResourceV) -> JsonV {
    JsonV::Obj(
        seq![
            ("uri"@, JsonV::Str(r.uri)),
            ("name"@, JsonV::Str(r.name)),
            (
                "description"@,
                match r.description {
                    Some(d) => JsonV::Str(d),
                    None => JsonV::Null,
                },
            ),
            (
                "mime_type"@,
                match r.mime_type {
                    Some(m) => JsonV::Str(m),
                    None => JsonV::Null,
                },
            ),
        ],
    )
}

/// The document form of a resource list.
pub open spec fn resources_jv(rs: Seq<ResourceV>) -> Seq<JsonV> {
    Seq::new(rs.len(), |i: int| resource_jv(rs[i]))
}

/// Writes a tool declaration as a document.
fn tool_to_json(t: &Tool) -> (v: JsonValue)
    ensures
        v@ == tool_jv(t@),
{
    let mut ps: Vec<(String, JsonValue)> = Vec::new();
    ps.push((String::from_str("name"), JsonValue::Str(t.name.clone())));
    ps.push((String::from_str("description"), JsonValue::Str(t.description.clone())));
    ps.push((String::from_str("input_schema"), t.input_schema.duplicate()));
    proof {
        lemma_jv_of_pairs(ps@);
        assert(jv_of_pairs(ps@) =~= tool_jv(t@)->Obj_0);
    }
    JsonValue::Obj(ps)
}

/// Writes a resource declaration as a document.
fn resource_to_json(r: &Resource) -> (v: JsonValue)
    ensures
        v@ == resource_jv(r@),
{
    let mut ps: Vec<(String, JsonValue)> = Vec::new();
    ps.push((String::from_str("uri"), JsonValue::Str(r.uri.clone())));
    ps.push((String::from_str("name"), JsonValue::Str(r.name.clone())));
    let d: JsonValue = match &r.description {
        Some(d) => JsonValue::Str(d.clone()),
        None => JsonValue::Null,
    };
    ps.push((String::from_str("description"), d));
    let m: JsonValue = match &r.mime_type {
        Some(m) => JsonValue::Str(m.clone()),
        None => JsonValue::Null,
    };
    ps.push((String::from_str("mime_type"), m));
    proof {
        lemma_jv_of_pairs(ps@);
        assert(jv_of_pairs(ps@) =~= resource_jv(r@)->Obj_0);
    }
    JsonValue::Obj(ps)
}

/// Writes a tool list as a document array.
fn tools_to_json(ts: &Vec<Tool>) -> (v: JsonValue)
    ensures
        v@ == JsonV::Arr(tools_jv(ts.deep_view())),
{
    let n = ts.len();
    let mut out: Vec<JsonValue> = Vec::new();
    let mut i: usize = 0;
    while i < n
        invariant
            i <= n,
            n == ts@.len(),
            out@.len() == i,
            forall|j: int| 0 <= j < i ==> jv_of(#[trigger] out@[j]) == tool_jv(ts@[j]@),
        decreases n - i,
    {
        out.push(tool_to_json(&ts[i]));
        i = i + 1;
    }
    proof {
        lemma_jv_of_seq(out@);
        assert forall|j: int| 0 <= j < n implies crate::json::jv_of_seq(out@)[j] == tools_jv(
            ts.deep_view(),
        )[j] by {
            assert(jv_of(out@[j]) == tool_jv(ts@[j]@));
            assert(ts.deep_view()[j] == ts@[j]@);
        }
        assert(crate::json::jv_of_seq(out@) =~= tools_jv(ts.deep_view()));
    }
    JsonValue::Arr(out)
}

/// Writes a resource list as a document array.
fn resources_to_json(rs: &Vec<Resource>) -> (v: JsonValue)
    ensures
        v@ == JsonV::Arr(resources_jv(rs.deep_view())),
{
    let n = rs.len();
    let mut out: Vec<JsonValue> = Vec::new();
    let mut i: usize = 0;
    while i < n
        invariant
            i <= n,
            n == rs@.len(),
            out@.len() == i,
            forall|j: int| 0 <= j < i ==> jv_of(#[trigger] out@[j]) == resource_jv(rs@[j]@),
        decreases n - i,
    {
        out.push(resource_to_json(&rs[i]));
        i = i + 1;
    }
    proof {
        lemma_jv_of_seq(out@);
        assert forall|j: int| 0 <= j < n implies crate::json::jv_of_seq(out@)[j] == resources_jv(
            rs.deep_view(),
        )[j] by {
            assert(jv_of(out@[j]) == resource_jv(rs@[j]@));
            assert(rs.deep_view()[j] == rs@[j]@);
        }
        assert(crate::json::jv_of_seq(out@) =~= resources_jv(rs.deep_view()));
    }
    JsonValue::Arr(out)
}

/// The document form of one content item of a tool result.
pub open spec fn content_jv(c: MCPContent) -> JsonV {
    match c {
        MCPContent::Text { text } => JsonV::Obj(
            seq![("type"@, JsonV::Str("text"@)), ("text"@, JsonV::Str(text@))],
        ),
        MCPContent::Image { data, mime_type } => JsonV::Obj(
            seq![
                ("type"@, JsonV::Str("image"@)),
                ("data"@, JsonV::Str(data@)),
                ("mime_type"@, JsonV::Str(mime_type@)),
            ],
        ),
        MCPContent::Resource { uri, text, mime_type } => JsonV::Obj(
            seq![
                ("type"@, JsonV::Str("resource"@)),
                ("uri"@, JsonV::Str(uri@)),
                (
                    "text"@,
                    match text {
                        Some(t) => JsonV::Str(t@),
                        None => JsonV::Null,
                    },
                ),
                (
                    "mime_type"@,
                    match mime_type {
                        Some(m) => JsonV::Str(m@),
                        None => JsonV::Null,
                    },
                ),
            ],
        ),
    }
}

/// The document form of a whole tool result.
pub open spec fn tool_result_jv(r: MCPToolResult) -> JsonV {
    JsonV::Obj(
        seq![("content"@, JsonV::Arr(Seq::new(r.content@.len(), |i: int| content_jv(r.content@[i]))))]
            + (match r.is_error {
            Some(b) => seq![("is_error"@, JsonV::Bool(b))],
            None => Seq::empty(),
        }) + (match r.metadata {
            Some(m) => seq![("metadata"@, jv_of(m))],
            None => Seq::empty(),
        }),
    )
}

fn content_to_json(c: &MCPContent) -> (v: JsonValue)
    ensures
        v@ == content_jv(*c),
{
    match c {
        MCPContent::Text { text } => {
            let mut ps: Vec<(String, JsonValue)> = Vec::new();
            ps.push((String::from_str("type"), JsonValue::Str(String::from_str("text"))));
            ps.push((String::from_str("text"), JsonValue::Str(text.clone())));
            proof {
                lemma_jv_of_pairs(ps@);
                assert(jv_of_pairs(ps@) =~= content_jv(*c)->Obj_0);
            }
            JsonValue::Obj(ps)
        },
        MCPContent::Image { data, mime_type } => {
            let mut ps: Vec<(String, JsonValue)> = Vec::new();
            ps.push((String::from_str("type"), JsonValue::Str(String::from_str("image"))));
            ps.push((String::from_str("data"), JsonValue::Str(data.clone())));
            ps.push((String::from_str("mime_type"), JsonValue::Str(mime_type.clone())));
            proof {
                lemma_jv_of_pairs(ps@);
                assert(jv_of_pairs(ps@) =~= content_jv(*c)->Obj_0);
            }
            JsonValue::Obj(ps)
        },
        MCPContent::Resource { uri, text, mime_type } => {
            let mut ps: Vec<(String, JsonValue)> = Vec::new();
            ps.push((String::from_str("type"), JsonValue::Str(String::from_str("resource"))));
            ps.push((String::from_str("uri"), JsonValue::Str(uri.clone())));
            let t: JsonValue = match text {
                Some(t) => JsonValue::Str(t.clone()),
                None => JsonValue::Null,
            };
            ps.push((String::from_str("text"), t));
            let m: JsonValue = match mime_type {
                Some(m) => JsonValue::Str(m.clone()),
                None => JsonValue::Null,
            };
            ps.push((String::from_str("mime_type"), m));
            proof {
                lemma_jv_of_pairs(ps@);
                assert(jv_of_pairs(ps@) =~= content_jv(*c)->Obj_0);
            }
            JsonValue::Obj(ps)
        },
    }
}

/// Writes a tool result as a document.
pub fn tool_result_to_json(r: &MCPToolResult) -> (v: JsonValue)
    ensures
        v@ == tool_result_jv(*r),
{
    let n = r.content.len();
    let mut items: Vec<JsonValue> = Vec::new();
    let mut i: usize = 0;
    while i < n
        invariant
            i <= n,
            n == r.content@.len(),
            items@.len() == i,
            forall|j: int| 0 <= j < i ==> jv_of(#[trigger] items@[j]) == content_jv(r.content@[j]),
        decreases n - i,
    {
        items.push(content_to_json(&r.content[i]));
        i = i + 1;
    }
    proof {
        lemma_jv_of_seq(items@);
        assert forall|j: int|
            0 <= j < n implies crate::json::jv_of_seq(items@)[j] == Seq::new(
            r.content@.len(),
            |i: int| content_jv(r.content@[i]),
        )[j] by {
            assert(jv_of(items@[j]) == content_jv(r.content@[j]));
        }
        assert(crate::json::jv_of_seq(items@) =~= Seq::new(
            r.content@.len(),
            |i: int| content_jv(r.content@[i]),
        ));
    }
    let mut ps: Vec<(String, JsonValue)> = Vec::new();
    ps.push((String::from_str("content"), JsonValue::Arr(items)));
    match &r.is_error {
        Some(b) => {
            ps.push((String::from_str("is_error"), JsonValue::Bool(*b)));
        },
        None => {},
    }
    match &r.metadata {
        Some(m) => {
            ps.push((String::from_str("metadata"), m.duplicate()));
        },
        None => {},
    }
    proof {
        lemma_jv_of_pairs(ps@);
        assert(jv_of_pairs(ps@) =~= tool_result_jv(*r)->Obj_0);
    }
    JsonValue::Obj(ps)
}

/// The response answering a line that could not be read as a request:
/// null id, parse-error code.
pub open spec fn parse_error_resp() -> RespV {
    RespV {
        jsonrpc: "2.0"@,
        id: JsonV::Null,
        result: None,
        error: Some(ErrV { code: -32700, message: "Parse error"@, data: None }),
    }
}

/// The request carried by one wire line, if the line parses as one.
pub open spec fn line_request(line: Seq<char>) -> Option<ReqV> {
    match parse_text(line) {
        Some(v) => req_of_jv(v),
        None => None,
    }
}

/// The tool name of a tools/call request, when the parameters have the
/// required shape.
pub open spec fn call_tool_name(rq: ReqV) -> Option<Seq<char>> {
    match rq.params {
        Some(p) => if p is Obj {
            match lookup(p->Obj_0, "name"@) {
                Some(JsonV::Str(n)) => Some(n),
                _ => None,
            }
        } else {
            None
        },
        None => None,
    }
}

/// The URI of a resources/read request, when the parameters carry one
/// as a string.
pub open spec fn read_uri(rq: ReqV) -> Option<Seq<char>> {
    match rq.params {
        Some(p) => if p is Obj {
            match lookup(p->Obj_0, "uri"@) {
                Some(JsonV::Str(u)) => Some(u),
                _ => None,
            }
        } else {
            None
        },
        None => None,
    }
}

/// Whether the arguments of a tools/call request are acceptable:
/// absent, or an object.
pub open spec fn call_args_ok(rq: ReqV) -> bool {
    match rq.params {
        Some(p) => p is Obj && match lookup(p->Obj_0, "arguments"@) {
            Some(a) => a is Obj,
            None => true,
        },
        None => false,
    }
}

/// The parameters snapshot an executed tools/call records: the given
/// arguments object, or the empty mapping when none was given.
pub open spec fn call_args_jv(rq: ReqV) -> JsonV {
    match rq.params {
        Some(p) => if p is Obj {
            match lookup(p->Obj_0, "arguments"@) {
                Some(a) => a,
                None => JsonV::Obj(Seq::empty()),
            }
        } else {
            JsonV::Obj(Seq::empty())
        },
        None => JsonV::Obj(Seq::empty()),
    }
}

/// The method names the dispatcher recognizes.
pub open spec fn known_method(m: Seq<char>) -> bool {
    ||| m == "initialize"@
    ||| m == "initialized"@
    ||| m == "tools/list"@
    ||| m == "tools/call"@
    ||| m == "resources/list"@
    ||| m == "resources/read"@
}

/// A failed response, serialized to its wire line.
fn error_reply(id: JsonValue, error: JsonRpcError) -> (s: String)
    ensures
        ({
            let resp = RespV { jsonrpc: "2.0"@, id: id@, result: None, error: Some(error@) };
            s@ == json_chars(resp_jv(resp)) && wf_response(resp)
        }),
{
    let resp = JsonRpcResponse::failure(id, error);
    proof {
        crate::jsonrpc::lemma_response_wf(resp);
    }
    resp.to_line()
}

/// A successful response, serialized to its wire line.
fn result_reply(id: JsonValue, result: JsonValue) -> (s: String)
    ensures
        ({
            let resp = RespV { jsonrpc: "2.0"@, id: id@, result: Some(result@), error: None };
            s@ == json_chars(resp_jv(resp)) && wf_response(resp)
        }),
{
    let resp = JsonRpcResponse::result(id, result);
    proof {
        crate::jsonrpc::lemma_response_wf(resp);
    }
    resp.to_line()
}

/// Whether one optional capability member decodes: absent, or an object
/// carrying the required boolean under the given key.
pub open spec fn cap_ok(cs: Seq<(Seq<char>, JsonV)>, member: Seq<char>, key: Seq<char>) -> bool {
    match lookup(cs, member) {
        Some(c) => c is Obj && (lookup(c->Obj_0, key) matches Some(JsonV::Bool(_))),
        None => true,
    }
}

/// Whether initialize parameters have the required shape: a protocol
/// version string, a capabilities object whose optional members decode,
/// and a client identity of name and version strings.
pub open spec fn init_params_ok(p: JsonV) -> bool {
    &&& p is Obj
    &&& (lookup(p->Obj_0, "protocol_version"@) matches Some(JsonV::Str(_)))
    &&& match lookup(p->Obj_0, "capabilities"@) {
        Some(c) => c is Obj && cap_ok(c->Obj_0, "roots"@, "list_changed"@) && cap_ok(
            c->Obj_0,
            "sampling"@,
            "supported"@,
        ),
        None => false,
    }
    &&& match lookup(p->Obj_0, "client_info"@) {
        Some(ci) => ci is Obj && (lookup(ci->Obj_0, "name"@) matches Some(JsonV::Str(_))) && (
        lookup(ci->Obj_0, "version"@) matches Some(JsonV::Str(_))),
        None => false,
    }
}

/// The fixed initialize result: the protocol version this server
/// speaks, its capability flags, and its identity.
pub open spec fn init_result_jv() -> JsonV {
    JsonV::Obj(
        seq![
            ("protocol_version"@, JsonV::Str("2024-11-05"@)),
            (
                "capabilities"@,
                JsonV::Obj(
                    seq![
                        ("tools"@, JsonV::Obj(seq![("list_changed"@, JsonV::Bool(true))])),
                        (
                            "resources"@,
                            JsonV::Obj(
                                seq![
                                    ("subscribe"@, JsonV::Bool(true)),
                                    ("list_changed"@, JsonV::Bool(true)),
                                ],
                            ),
                        ),
                        ("prompts"@, JsonV::Obj(seq![("list_changed"@, JsonV::Bool(true))])),
                    ],
                ),
            ),
            (
                "server_info"@,
                JsonV::Obj(
                    seq![
                        ("name"@, JsonV::Str("mcp-arch-linux"@)),
                        ("version"@, JsonV::Str("0.1.0"@)),
                    ],
                ),
            ),
        ],
    )
}

fn bool_member_ok(obj: &Vec<(String, JsonValue)>, member: &str, key: &str) -> (r: bool)
    ensures
        r == cap_ok(jv_of_pairs(obj@), member@, key@),
{
    match crate::json::obj_get(obj, member) {
        Some(c) => match c {
            JsonValue::Obj(cs) => match crate::json::obj_get(cs, key) {
                Some(JsonValue::Bool(_)) => true,
                _ => false,
            },
            _ => false,
        },
        None => true,
    }
}

/// Validates and answers an initialize request: valid parameters are
/// answered with the fixed capability document, anything else with the
/// invalid-params error.
fn handle_initialize(req: JsonRpcRequest) -> (reply: String)
    ensures
        exists|resp: RespV|
            reply@ == json_chars(#[trigger] resp_jv(resp)) && wf_response(resp) && resp.id
                == req@.id && resp.jsonrpc == "2.0"@,
        (match req@.params {
            Some(p) => init_params_ok(p),
            None => false,
        }) ==> reply@ == json_chars(
            resp_jv(
                RespV {
                    jsonrpc: "2.0"@,
                    id: req@.id,
                    result: Some(init_result_jv()),
                    error: None,
                },
            ),
        ),
        !(match req@.params {
            Some(p) => init_params_ok(p),
            None => false,
        }) ==> reply@ == json_chars(
            resp_jv(
                RespV {
                    jsonrpc: "2.0"@,
                    id: req@.id,
                    result: None,
                    error: Some(ErrV { code: -32602, message: "Invalid params"@, data: None }),
                },
            ),
        ),
{
    let JsonRpcRequest { jsonrpc: _, method: _, params, id } = req;
    let p = match params {
        None => {
            return error_reply(id, JsonRpcError::invalid_params());
        },
        Some(p) => p,
    };
    let ps = match &p {
        JsonValue::Obj(ps) => ps,
        _ => {
            return error_reply(id, JsonRpcError::invalid_params());
        },
    };
    let pv_ok = match crate::json::obj_get(ps, "protocol_version") {
        Some(JsonValue::Str(_)) => true,
        _ => false,
    };
    let caps_ok = match crate::json::obj_get(ps, "capabilities") {
        Some(c) => match c {
            JsonValue::Obj(cs) => bool_member_ok(cs, "roots", "list_changed") && bool_member_ok(
                cs,
                "sampling",
                "supported",
            ),
            _ => false,
        },
        _ => false,
    };
    let ci_ok = match crate::json::obj_get(ps, "client_info") {
        Some(ci) => match ci {
            JsonValue::Obj(cis) => {
                let n_ok = match crate::json::obj_get(cis, "name") {
                    Some(JsonValue::Str(_)) => true,
                    _ => false,
                };
                let v_ok = match crate::json::obj_get(cis, "version") {
                    Some(JsonValue::Str(_)) => true,
                    _ => false,
                };
                n_ok && v_ok
            },
            _ => false,
        },
        _ => false,
    };
    if !(pv_ok && caps_ok && ci_ok) {
        return error_reply(id, JsonRpcError::invalid_params());
    }
    let result = init_result_doc();
    result_reply(id, result)
}

/// Builds the fixed initialize result document.
fn init_result_doc() -> (v: JsonValue)
    ensures
        v@ == init_result_jv(),
{
    let mut tools_caps: Vec<(String, JsonValue)> = Vec::new();
    tools_caps.push((String::from_str("list_changed"), JsonValue::Bool(true)));
    proof {
        lemma_jv_of_pairs(tools_caps@);
        assert(jv_of_pairs(tools_caps@) =~= seq![("list_changed"@, JsonV::Bool(true))]);
    }
    let mut res_caps: Vec<(String, JsonValue)> = Vec::new();
    res_caps.push((String::from_str("subscribe"), JsonValue::Bool(true)));
    res_caps.push((String::from_str("list_changed"), JsonValue::Bool(true)));
    proof {
        lemma_jv_of_pairs(res_caps@);
        assert(jv_of_pairs(res_caps@) =~= seq![
            ("subscribe"@, JsonV::Bool(true)),
            ("list_changed"@, JsonV::Bool(true)),
        ]);
    }
    let mut prompt_caps: Vec<(String, JsonValue)> = Vec::new();
    prompt_caps.push((String::from_str("list_changed"), JsonValue::Bool(true)));
    proof {
        lemma_jv_of_pairs(prompt_caps@);
        assert(jv_of_pairs(prompt_caps@) =~= seq![("list_changed"@, JsonV::Bool(true))]);
    }
    let mut caps: Vec<(String, JsonValue)> = Vec::new();
    caps.push((String::from_str("tools"), JsonValue::Obj(tools_caps)));
    caps.push((String::from_str("resources"), JsonValue::Obj(res_caps)));
    caps.push((String::from_str("prompts"), JsonValue::Obj(prompt_caps)));
    proof {
        lemma_jv_of_pairs(caps@);
        assert(jv_of_pairs(caps@) =~= init_result_jv()->Obj_0[1].1->Obj_0);
    }
    let mut info: Vec<(String, JsonValue)> = Vec::new();
    info.push((String::from_str("name"), JsonValue::Str(String::from_str("mcp-arch-linux"))));
    info.push((String::from_str("version"), JsonValue::Str(String::from_str("0.1.0"))));
    proof {
        lemma_jv_of_pairs(info@);
        assert(jv_of_pairs(info@) =~= seq![
            ("name"@, JsonV::Str("mcp-arch-linux"@)),
            ("version"@, JsonV::Str("0.1.0"@)),
        ]);
    }
    let mut ps: Vec<(String, JsonValue)> = Vec::new();
    ps.push((String::from_str("protocol_version"), JsonValue::Str(String::from_str("2024-11-05"))));
    ps.push((String::from_str("capabilities"), JsonValue::Obj(caps)));
    ps.push((String::from_str("server_info"), JsonValue::Obj(info)));
    proof {
        lemma_jv_of_pairs(ps@);
        assert(jv_of_pairs(ps@) =~= init_result_jv()->Obj_0);
    }
    JsonValue::Obj(ps)
}

/// The dispatcher: wraps the assembled server and answers wire lines.
pub struct MCPJsonRpcServer {
    pub server: LinuxMCPServer,
}

impl MCPJsonRpcServer {
    /// Wraps an assembled server.
    pub fn new(server: LinuxMCPServer) -> (r: MCPJsonRpcServer)
        ensures
            r.server == server,
    {
        MCPJsonRpcServer { server }
    }

    /// Answers one wire line with one response line.  A line that does
    /// not parse as a request is answered with the parse error under a
    /// null id, and the connection stays usable; every parsed request
    /// is answered under its own id; an unrecognized method is refused
    /// as not found; an executed tool call appends exactly one audit
    /// record bearing the tool's name, and no other request touches the
    /// ledger; every admission unit taken is returned before the reply
    /// goes out.
    #[verifier::rlimit(60)]
    pub fn handle_message(&mut self, line: &str) -> (reply: String)
        requires
            old(self).server.gate.wf(),
        ensures
            final(self).server.gate == old(self).server.gate,
            final(self).server.registry == old(self).server.registry,
            final(self).server.config == old(self).server.config,
            final(self).server.security.session_id == old(self).server.security.session_id,
            exists|resp: RespV|
                reply@ == json_chars(#[trigger] resp_jv(resp)) && wf_response(resp) && resp.jsonrpc
                    == "2.0"@,
            line_request(line@) is None ==> reply@ == json_chars(resp_jv(parse_error_resp())),
            line_request(line@) is None ==> final(self).server.security.audit_logger.ledger@
                == old(self).server.security.audit_logger.ledger@,
            line_request(line@) matches Some(rq) ==> (exists|resp: RespV|
                reply@ == json_chars(#[trigger] resp_jv(resp)) && wf_response(resp) && resp.id
                    == rq.id),
            line_request(line@) matches Some(rq) ==> (rq.method == "tools/list"@ ==> reply@
                == json_chars(
                resp_jv(
                    RespV {
                        jsonrpc: "2.0"@,
                        id: rq.id,
                        result: Some(
                            JsonV::Arr(tools_jv(all_tools(old(self).server.registry.entries@))),
                        ),
                        error: None,
                    },
                ),
            )),
            line_request(line@) matches Some(rq) ==> (rq.method == "resources/list"@ ==> reply@
                == json_chars(
                resp_jv(
                    RespV {
                        jsonrpc: "2.0"@,
                        id: rq.id,
                        result: Some(
                            JsonV::Arr(
                                resources_jv(all_resources(old(self).server.registry.entries@)),
                            ),
                        ),
                        error: None,
                    },
                ),
            )),
            line_request(line@) matches Some(rq) ==> (!known_method(rq.method) ==> reply@
                == json_chars(
                resp_jv(
                    RespV {
                        jsonrpc: "2.0"@,
                        id: rq.id,
                        result: None,
                        error: Some(
                            ErrV { code: -32601, message: "Method not found"@, data: None },
                        ),
                    },
                ),
            )),
            line_request(line@) matches Some(rq) ==> (rq.method == "tools/call"@ && call_args_ok(
                rq,
            ) && old(self).server.gate.in_flight < old(self).server.gate.capacity ==> (
            call_tool_name(rq) matches Some(nm) ==> (final(self).server.security.audit_logger.ledger@.len() == old(self).server.security.audit_logger.ledger@.len() + 1 && final(self).server.security.audit_logger.ledger@.subrange(
                0,
                old(self).server.security.audit_logger.ledger@.len() as int,
            ) == old(self).server.security.audit_logger.ledger@ && final(self).server.security.audit_logger.ledger@.last().name@ == nm && final(self).server.security.audit_logger.ledger@.last()@.parameters == call_args_jv(rq)))),
            line_request(line@) matches Some(rq) ==> (!(rq.method == "tools/call"@
                && call_tool_name(rq) is Some && call_args_ok(rq) && old(self).server.gate.in_flight
                < old(self).server.gate.capacity) ==> final(self).server.security.audit_logger.ledger@ == old(self).server.security.audit_logger.ledger@),
            line_request(line@) matches Some(rq) ==> (rq.method == "tools/call"@ && call_args_ok(
                rq,
            ) && old(self).server.gate.in_flight < old(self).server.gate.capacity ==> (
            call_tool_name(rq) matches Some(nm) ==> (!owns_tool(
                old(self).server.registry.entries@,
                nm,
            ) ==> reply@ == json_chars(
                resp_jv(
                    RespV {
                        jsonrpc: "2.0"@,
                        id: rq.id,
                        result: None,
                        error: Some(
                            ErrV {
                                code: -32603,
                                message: "Other error: "@ + ("Tool not found: "@ + nm),
                                data: None,
                            },
                        ),
                    },
                ),
            )))),
            line_request(line@) matches Some(rq) ==> (rq.method == "tools/call"@
                && call_tool_name(rq) is None ==> reply@ == json_chars(
                resp_jv(
                    RespV {
                        jsonrpc: "2.0"@,
                        id: rq.id,
                        result: None,
                        error: Some(
                            ErrV { code: -32602, message: "Invalid params"@, data: None },
                        ),
                    },
                ),
            )),
            line_request(line@) matches Some(rq) ==> (rq.method == "tools/call"@
                && call_tool_name(rq) is Some && old(self).server.gate.in_flight < old(self).server.gate.capacity && !call_args_ok(rq) ==> reply@ == json_chars(
                resp_jv(
                    RespV {
                        jsonrpc: "2.0"@,
                        id: rq.id,
                        result: None,
                        error: Some(
                            ErrV { code: -32602, message: "Invalid params"@, data: None },
                        ),
                    },
                ),
            )),
            line_request(line@) matches Some(rq) ==> (rq.method == "resources/read"@
                && read_uri(rq) is None ==> reply@ == json_chars(
                resp_jv(
                    RespV {
                        jsonrpc: "2.0"@,
                        id: rq.id,
                        result: None,
                        error: Some(
                            ErrV { code: -32602, message: "Invalid params"@, data: None },
                        ),
                    },
                ),
            )),
            line_request(line@) matches Some(rq) ==> (rq.method == "resources/read"@ ==> (
            read_uri(rq) matches Some(u) ==> (!owns_resource(
                old(self).server.registry.entries@,
                u,
            ) ==> reply@ == json_chars(
                resp_jv(
                    RespV {
                        jsonrpc: "2.0"@,
                        id: rq.id,
                        result: None,
                        error: Some(
                            ErrV {
                                code: -32603,
                                message: "Other error: "@ + ("Resource not found: "@ + u),
                                data: None,
                            },
                        ),
                    },
                ),
            )))),
            line_request(line@) matches Some(rq) ==> (rq.method == "resources/read"@ ==> (
            read_uri(rq) is Some ==> (exists|resp: RespV|
                reply@ == json_chars(#[trigger] resp_jv(resp)) && wf_response(resp) && resp.id
                    == rq.id && resp.jsonrpc == "2.0"@ && (match resp.result {
                    Some(rv) => exists|c: Seq<char>| rv == JsonV::Obj(seq![("content"@, JsonV::Str(c))]),
                    None => resp.error matches Some(e) && e.code == -32603,
                })))),
    {
        let v = match parse_json(line) {
            None => {
                proof {
                    assert(line_request(line@) is None);
                }
                return error_reply(JsonValue::Null, JsonRpcError::parse_error());
            },
            Some(v) => v,
        };
        let req = match JsonRpcRequest::from_json(&v) {
            None => {
                proof {
                    assert(line_request(line@) is None);
                }
                return error_reply(JsonValue::Null, JsonRpcError::parse_error());
            },
            Some(r) => r,
        };
        proof {
            reveal_strlit("initialize");
            reveal_strlit("initialized");
            reveal_strlit("tools/list");
            reveal_strlit("tools/call");
            reveal_strlit("resources/list");
            reveal_strlit("resources/read");
            assert("tools/call"@[6] == 'c' && "tools/list"@[6] == 'l');
            assert("tools/call"@ != "tools/list"@);
            assert("tools/call"@[0] == 't' && "initialize"@[0] == 'i');
            assert("tools/call"@ != "initialize"@);
            assert("tools/call"@ != "resources/list"@);
            assert("initialize"@ != "tools/list"@);
            assert("initialized"@[0] == 'i' && "tools/list"@[0] == 't');
            assert("initialized"@ != "tools/list"@);
            assert("resources/list"@ != "tools/list"@);
            assert("resources/read"@[10] == 'r' && "resources/list"@[10] == 'l');
            assert("resources/read"@ != "resources/list"@);
        }
        if string_eq(&req.method, "tools/call") {
            return self.handle_tool_call(req);
        }
        if string_eq(&req.method, "initialize") {
            return handle_initialize(req);
        }
        if string_eq(&req.method, "initialized") {
            return result_reply(req.id, JsonValue::Obj(Vec::new()));
        }
        if string_eq(&req.method, "tools/list") {
            return self.handle_tools_list(req);
        }
        if string_eq(&req.method, "resources/list") {
            return self.handle_resources_list(req);
        }
        if string_eq(&req.method, "resources/read") {
            return self.handle_resource_read(req);
        }
        error_reply(req.id, JsonRpcError::method_not_found())
    }

    /// Runs one tool call: decodes the parameters, takes one admission
    /// unit, executes the tool under audit, and returns the unit on
    /// every path.
    fn handle_tool_call(&mut self, req: JsonRpcRequest) -> (reply: String)
        requires
            old(self).server.gate.wf(),
        ensures
            final(self).server.gate == old(self).server.gate,
            final(self).server.registry == old(self).server.registry,
            final(self).server.config == old(self).server.config,
            final(self).server.security.session_id == old(self).server.security.session_id,
            exists|resp: RespV|
                reply@ == json_chars(#[trigger] resp_jv(resp)) && wf_response(resp) && resp.id
                    == req@.id && resp.jsonrpc == "2.0"@,
            call_args_ok(req@) && old(self).server.gate.in_flight < old(self).server.gate.capacity
                ==> (call_tool_name(req@) matches Some(nm) ==> (final(self).server.security.audit_logger.ledger@.len() == old(self).server.security.audit_logger.ledger@.len() + 1 && final(self).server.security.audit_logger.ledger@.subrange(
                0,
                old(self).server.security.audit_logger.ledger@.len() as int,
            ) == old(self).server.security.audit_logger.ledger@ && final(self).server.security.audit_logger.ledger@.last().name@ == nm && final(self).server.security.audit_logger.ledger@.last()@.parameters == call_args_jv(req@))),
            !(call_tool_name(req@) is Some && call_args_ok(req@) && old(self).server.gate.in_flight
                < old(self).server.gate.capacity) ==> final(self).server.security.audit_logger.ledger@ == old(self).server.security.audit_logger.ledger@,
            call_args_ok(req@) && old(self).server.gate.in_flight < old(self).server.gate.capacity
                ==> (call_tool_name(req@) matches Some(nm) ==> (!owns_tool(
                old(self).server.registry.entries@,
                nm,
            ) ==> reply@ == json_chars(
                resp_jv(
                    RespV {
                        jsonrpc: "2.0"@,
                        id: req@.id,
                        result: None,
                        error: Some(
                            ErrV {
                                code: -32603,
                                message: "Other error: "@ + ("Tool not found: "@ + nm),
                                data: None,
                            },
                        ),
                    },
                ),
            ))),
            call_tool_name(req@) is None ==> reply@ == json_chars(
                resp_jv(
                    RespV {
                        jsonrpc: "2.0"@,
                        id: req@.id,
                        result: None,
                        error: Some(
                            ErrV { code: -32602, message: "Invalid params"@, data: None },
                        ),
                    },
                ),
            ),
            call_tool_name(req@) is Some && !(old(self).server.gate.in_flight < old(self).server.gate.capacity) ==> reply@ == json_chars(
                resp_jv(
                    RespV {
                        jsonrpc: "2.0"@,
                        id: req@.id,
                        result: None,
                        error: Some(
                            ErrV { code: -32603, message: "Internal error"@, data: None },
                        ),
                    },
                ),
            ),
            call_tool_name(req@) is Some && old(self).server.gate.in_flight < old(self).server.gate.capacity && !call_args_ok(req@) ==> reply@ == json_chars(
                resp_jv(
                    RespV {
                        jsonrpc: "2.0"@,
                        id: req@.id,
                        result: None,
                        error: Some(
                            ErrV { code: -32602, message: "Invalid params"@, data: None },
                        ),
                    },
                ),
            ),
    {
        let ghost rq = req@;
        let JsonRpcRequest { jsonrpc: _, method: _, params, id } = req;
        let p = match params {
            None => {
                return error_reply(id, JsonRpcError::invalid_params());
            },
            Some(p) => p,
        };
        let ps = match &p {
            JsonValue::Obj(ps) => ps,
            _ => {
                return error_reply(id, JsonRpcError::invalid_params());
            },
        };
        let name: String = match crate::json::obj_get(ps, "name") {
            Some(JsonValue::Str(n)) => n.clone(),
            _ => {
                return error_reply(id, JsonRpcError::invalid_params());
            },
        };
        let granted = self.server.gate.try_acquire();
        if !granted {
            return error_reply(id, JsonRpcError::internal_error());
        }
        let args_doc: JsonValue = match crate::json::obj_get(ps, "arguments") {
            Some(a) => {
                match a {
                    JsonValue::Obj(_) => {},
                    _ => {
                        self.server.gate.release();
                        return error_reply(id, JsonRpcError::invalid_params());
                    },
                }
                a.duplicate()
            },
            None => {
                let empty: Vec<(String, JsonValue)> = Vec::new();
                proof {
                    assert(crate::json::jv_of_pairs(empty@) =~= Seq::<(Seq<char>, JsonV)>::empty());
                }
                JsonValue::Obj(empty)
            },
        };
        let args: ToolArgs = match args_doc.duplicate() {
            JsonValue::Obj(m) => ToolArgs { args: m },
            _ => {
                proof {
                    assert(false);
                }
                ToolArgs::empty()
            },
        };
        let started = self.server.security.start_operation();
        let result = self.server.registry.execute_tool(name.as_str(), &args);
        let outcome: Result<String, String> = match &result {
            Ok(_) => Ok(String::from_str("Success")),
            Err(e) => Err(e.message()),
        };
        self.server.security.record_operation(name.as_str(), args_doc, started, outcome);
        self.server.gate.release();
        match result {
            Ok(tr) => {
                let doc = tool_result_to_json(&tr);
                result_reply(id, doc)
            },
            Err(e) => {
                let msg = e.message();
                error_reply(id, JsonRpcError::new(-32603, msg))
            },
        }
    }

    /// Lists every registered provider's declared tools, exactly as the
    /// registry holds them.
    fn handle_tools_list(&self, req: JsonRpcRequest) -> (reply: String)
        ensures
            reply@ == json_chars(
                resp_jv(
                    RespV {
                        jsonrpc: "2.0"@,
                        id: req@.id,
                        result: Some(
                            JsonV::Arr(tools_jv(all_tools(self.server.registry.entries@))),
                        ),
                        error: None,
                    },
                ),
            ),
            ({
                let resp = RespV {
                    jsonrpc: "2.0"@,
                    id: req@.id,
                    result: Some(JsonV::Arr(tools_jv(all_tools(self.server.registry.entries@)))),
                    error: None,
                };
                wf_response(resp)
            }),
    {
        let tools = self.server.registry.list_tools();
        let doc = tools_to_json(&tools);
        result_reply(req.id, doc)
    }

    /// Lists every registered provider's declared resources, exactly as
    /// the registry holds them.
    fn handle_resources_list(&self, req: JsonRpcRequest) -> (reply: String)
        ensures
            reply@ == json_chars(
                resp_jv(
                    RespV {
                        jsonrpc: "2.0"@,
                        id: req@.id,
                        result: Some(
                            JsonV::Arr(resources_jv(all_resources(self.server.registry.entries@))),
                        ),
                        error: None,
                    },
                ),
            ),
            ({
                let resp = RespV {
                    jsonrpc: "2.0"@,
                    id: req@.id,
                    result: Some(
                        JsonV::Arr(resources_jv(all_resources(self.server.registry.entries@))),
                    ),
                    error: None,
                };
                wf_response(resp)
            }),
    {
        let resources = self.server.registry.list_resources();
        let doc = resources_to_json(&resources);
        result_reply(req.id, doc)
    }

    /// Reads one resource: decodes the required string URI and delegates
    /// to the owning provider; parameters without a string URI are
    /// invalid, and a URI nobody owns is answered with the not-found
    /// error.
    fn handle_resource_read(&self, req: JsonRpcRequest) -> (reply: String)
        ensures
            exists|resp: RespV|
                reply@ == json_chars(#[trigger] resp_jv(resp)) && wf_response(resp) && resp.id
                    == req@.id && resp.jsonrpc == "2.0"@,
            read_uri(req@) is None ==> reply@ == json_chars(
                resp_jv(
                    RespV {
                        jsonrpc: "2.0"@,
                        id: req@.id,
                        result: None,
                        error: Some(
                            ErrV { code: -32602, message: "Invalid params"@, data: None },
                        ),
                    },
                ),
            ),
            read_uri(req@) matches Some(u) ==> (!owns_resource(
                self.server.registry.entries@,
                u,
            ) ==> reply@ == json_chars(
                resp_jv(
                    RespV {
                        jsonrpc: "2.0"@,
                        id: req@.id,
                        result: None,
                        error: Some(
                            ErrV {
                                code: -32603,
                                message: "Other error: "@ + ("Resource not found: "@ + u),
                                data: None,
                            },
                        ),
                    },
                ),
            )),
            read_uri(req@) is Some ==> (exists|resp: RespV|
                reply@ == json_chars(#[trigger] resp_jv(resp)) && wf_response(resp) && resp.id
                    == req@.id && resp.jsonrpc == "2.0"@ && (match resp.result {
                    Some(rv) => exists|c: Seq<char>|
                        rv == JsonV::Obj(seq![("content"@, JsonV::Str(c))]),
                    None => resp.error matches Some(e) && e.code == -32603,
                })),
    {
        let JsonRpcRequest { jsonrpc: _, method: _, params, id } = req;
        let p = match params {
            None => {
                return error_reply(id, JsonRpcError::invalid_params());
            },
            Some(p) => p,
        };
        let ps = match &p {
            JsonValue::Obj(ps) => ps,
            _ => {
                return error_reply(id, JsonRpcError::invalid_params());
            },
        };
        let uri: String = match crate::json::obj_get(ps, "uri") {
            Some(JsonValue::Str(u)) => u.clone(),
            _ => {
                return error_reply(id, JsonRpcError::invalid_params());
            },
        };
        match self.server.registry.read_resource(uri.as_str()) {
            Ok(content) => {
                let ghost gc = content@;
                let mut m: Vec<(String, JsonValue)> = Vec::new();
                m.push((String::from_str("content"), JsonValue::Str(content)));
                proof {
                    lemma_jv_of_pairs(m@);
                    assert(jv_of_pairs(m@) =~= seq![("content"@, JsonV::Str(gc))]);
                }
                result_reply(id, JsonValue::Obj(m))
            },
            Err(e) => {
                let msg = e.message();
                error_reply(id, JsonRpcError::new(-32603, msg))
            },
        }
    }
}

} // verus!
