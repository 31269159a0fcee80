//! The wire envelope: requests, responses, notifications and error
//! objects, with verified encoding to and decoding from structured
//! documents, and the law that a response survives the trip onto the wire
//! and back.
use vstd::prelude::*;

use crate::json::{
    json_chars, jv_of, lookup, obj_get, parse_text, to_text, wf_json, JsonV, JsonValue,
    lemma_json_round_trip, lemma_jv_of_pairs, lemma_jv_wf,
};

verus! {

/// An error object as it appears in specifications.
pub ghost struct ErrV {
    pub code: int,
    pub message: Seq<char>,
    pub data: Option<JsonV>,
}

/// A response as it appears in specifications.
pub ghost struct RespV {
    pub jsonrpc: Seq<char>,
    pub id: JsonV,
    pub result: Option<JsonV>,
    pub error: Option<ErrV>,
}

/// A request as it appears in specifications.
pub ghost struct ReqV {
    pub jsonrpc: Seq<char>,
    pub method: Seq<char>,
    pub params: Option<JsonV>,
    pub id: JsonV,
}

/// A wire error: a code, a message, and optional structured data.
#[derive(Debug)]
pub struct JsonRpcError {
    pub code: i32,
    pub message: String,
    pub data: Option<JsonValue>,
}

impl View for JsonRpcError {
    type V = ErrV;

    open spec fn view(&self) -> ErrV {
        ErrV {
            code: self.code as int,
            message: self.message@,
            data: match self.data {
                Some(d) => Some(jv_of(d)),
                None => None,
            },
        }
    }
}

/// A request: protocol tag, method name, optional parameters, and an id.
#[derive(Debug)]
pub struct JsonRpcRequest {
    pub jsonrpc: String,
    pub method: String,
    pub params: Option<JsonValue>,
    pub id: JsonValue,
}

impl View for JsonRpcRequest {
    type V = ReqV;

    open spec fn view(&self) -> ReqV {
        ReqV {
            jsonrpc: self.jsonrpc@,
            method: self.method@,
            params: match self.params {
                Some(p) => Some(jv_of(p)),
                None => None,
            },
            id: jv_of(self.id),
        }
    }
}

/// A response: the request's id and exactly one of a result or an error.
#[derive(Debug)]
pub struct JsonRpcResponse {
    pub jsonrpc: String,
    pub id: JsonValue,
    pub result: Option<JsonValue>,
    pub error: Option<JsonRpcError>,
}

impl View for JsonRpcResponse {
    type V = RespV;

    open spec fn view(&self) -> RespV {
        RespV {
            jsonrpc: self.jsonrpc@,
            id: jv_of(self.id),
            result: match self.result {
                Some(v) => Some(jv_of(v)),
                None => None,
            },
            error: match self.error {
                Some(e) => Some(e@),
                None => None,
            },
        }
    }
}

/// A notification: a method and optional parameters, but no id, so no
/// response is owed.
#[derive(Debug)]
pub struct JsonRpcNotification {
    pub jsonrpc: String,
    pub method: String,
    pub params: Option<JsonValue>,
}

/// Any message of the wire protocol.
#[derive(Debug)]
pub enum JsonRpcMessage {
    Request(JsonRpcRequest),
    Response(JsonRpcResponse),
    Notification(JsonRpcNotification),
}

impl JsonRpcError {
    /// An error with the given code and message and no data.
    pub fn new(code: i32, message: String) -> (r: JsonRpcError)
        ensures
            r@ == (ErrV { code: code as int, message: message@, data: None }),
    {
        JsonRpcError { code, message, data: None }
    }

    /// The standard error for unreadable input.
    pub fn parse_error() -> (r: JsonRpcError)
        ensures
            r@ == (ErrV { code: -32700, message: "Parse error"@, data: None }),
    {
        Self::new(-32700, String::from_str("Parse error"))
    }

    /// The standard error for a request of the wrong shape.
    pub fn invalid_request() -> (r: JsonRpcError)
        ensures
            r@ == (ErrV { code: -32600, message: "Invalid Request"@, data: None }),
    {
        Self::new(-32600, String::from_str("Invalid Request"))
    }

    /// The standard error for a method nobody registered.
    pub fn method_not_found() -> (r: JsonRpcError)
        ensures
            r@ == (ErrV { code: -32601, message: "Method not found"@, data: None }),
    {
        Self::new(-32601, String::from_str("Method not found"))
    }

    /// The standard error for parameters of the wrong shape.
    pub fn invalid_params() -> (r: JsonRpcError)
        ensures
            r@ == (ErrV { code: -32602, message: "Invalid params"@, data: None }),
    {
        Self::new(-32602, String::from_str("Invalid params"))
    }

    /// The standard error for a failure inside the server.
    pub fn internal_error() -> (r: JsonRpcError)
        ensures
            r@ == (ErrV { code: -32603, message: "Internal error"@, data: None }),
    {
        Self::new(-32603, String::from_str("Internal error"))
    }
}

/// The document form of an error object.
pub open spec fn err_jv(e: ErrV) -> JsonV {
    JsonV::Obj(
        seq![("code"@, JsonV::Int(e.code)), ("message"@, JsonV::Str(e.message))] + match e.data {
            Some(d) => seq![("data"@, d)],
            None => Seq::empty(),
        },
    )
}

/// The document form of a response: protocol tag, id, then whichever of
/// result or error is present.
pub open spec fn resp_jv(r: RespV) -> JsonV {
    JsonV::Obj(
        seq![("jsonrpc"@, JsonV::Str(r.jsonrpc)), ("id"@, r.id)] + (match r.result {
            Some(v) => seq![("result"@, v)],
            None => Seq::empty(),
        }) + (match r.error {
            Some(e) => seq![("error"@, err_jv(e))],
            None => Seq::empty(),
        }),
    )
}

/// Reading an error object back from a document.
pub open spec fn err_of_jv(v: JsonV) -> Option<ErrV> {
    if !(v is Obj) {
        None
    } else {
        let ps = v->Obj_0;
        match (lookup(ps, "code"@), lookup(ps, "message"@)) {
            (Some(JsonV::Int(c)), Some(JsonV::Str(m))) => if i32::MIN <= c <= i32::MAX {
                Some(ErrV { code: c, message: m, data: lookup(ps, "data"@) })
            } else {
                None
            },
            _ => None,
        }
    }
}

/// Reading a response back from a document: the id must be present and
/// exactly one of result or error, never both, never neither.
pub open spec fn resp_of_jv(v: JsonV) -> Option<RespV> {
    if !(v is Obj) {
        None
    } else {
        let ps = v->Obj_0;
        match (lookup(ps, "jsonrpc"@), lookup(ps, "id"@)) {
            (Some(JsonV::Str(ver)), Some(id)) => match (lookup(ps, "result"@), lookup(
                ps,
                "error"@,
            )) {
                (Some(rv), None) => Some(
                    RespV { jsonrpc: ver, id: id, result: Some(rv), error: None },
                ),
                (None, Some(ev)) => match err_of_jv(ev) {
                    Some(e) => Some(RespV { jsonrpc: ver, id: id, result: None, error: Some(e) }),
                    None => None,
                },
                _ => None,
            },
            _ => None,
        }
    }
}

/// Reading a request from a document: method and id are required,
/// parameters are optional, and the protocol tag — a string when
/// present — defaults when absent.
pub open spec fn req_of_jv(v: JsonV) -> Option<ReqV> {
    if !(v is Obj) {
        None
    } else {
        let ps = v->Obj_0;
        match (lookup(ps, "method"@), lookup(ps, "id"@)) {
            (Some(JsonV::Str(m)), Some(id)) => match lookup(ps, "jsonrpc"@) {
                Some(JsonV::Str(ver)) => Some(
                    ReqV { jsonrpc: ver, method: m, params: lookup(ps, "params"@), id: id },
                ),
                None => Some(
                    ReqV { jsonrpc: "2.0"@, method: m, params: lookup(ps, "params"@), id: id },
                ),
                _ => None,
            },
            _ => None,
        }
    }
}

impl JsonRpcError {
    /// The document form of this error.
    pub fn to_json(self) -> (v: JsonValue)
        ensures
            v@ == err_jv(self@),
    {
        let ghost ge = self@;
        let mut ps: Vec<(String, JsonValue)> = Vec::new();
        ps.push((String::from_str("code"), JsonValue::Int(self.code as i64)));
        ps.push((String::from_str("message"), JsonValue::Str(self.message)));
        match self.data {
            Some(d) => {
                ps.push((String::from_str("data"), d));
            },
            None => {},
        }
        proof {
            lemma_jv_of_pairs(ps@);
            assert(jv_of_pairs_matches(ps@, ge));
        }
        JsonValue::Obj(ps)
    }
}

/// Whether a member list denotes exactly the members of `err_jv(e)`.
spec fn jv_of_pairs_matches(ps: Seq<(String, JsonValue)>, e: ErrV) -> bool {
    crate::json::jv_of_pairs(ps) =~= err_jv(e)->Obj_0
}

impl JsonRpcResponse {
    /// A successful response carrying `result`.
    pub fn result(id: JsonValue, result: JsonValue) -> (r: JsonRpcResponse)
        ensures
            r@ == (RespV {
                jsonrpc: "2.0"@,
                id: id@,
                result: Some(result@),
                error: None,
            }),
    {
        JsonRpcResponse {
            jsonrpc: String::from_str("2.0"),
            id,
            result: Some(result),
            error: None,
        }
    }

    /// A failed response carrying `error`.
    pub fn failure(id: JsonValue, error: JsonRpcError) -> (r: JsonRpcResponse)
        ensures
            r@ == (RespV { jsonrpc: "2.0"@, id: id@, result: None, error: Some(error@) }),
    {
        JsonRpcResponse {
            jsonrpc: String::from_str("2.0"),
            id,
            result: None,
            error: Some(error),
        }
    }

    /// The document form of this response.
    pub fn to_json(self) -> (v: JsonValue)
        ensures
            v@ == resp_jv(self@),
    {
        let ghost gr = self@;
        let mut ps: Vec<(String, JsonValue)> = Vec::new();
        ps.push((String::from_str("jsonrpc"), JsonValue::Str(self.jsonrpc)));
        ps.push((String::from_str("id"), self.id));
        match self.result {
            Some(v) => {
                ps.push((String::from_str("result"), v));
            },
            None => {},
        }
        match self.error {
            Some(e) => {
                let ghost gee = e@;
                let ej = e.to_json();
                ps.push((String::from_str("error"), ej));
            },
            None => {},
        }
        proof {
            lemma_jv_of_pairs(ps@);
            assert(crate::json::jv_of_pairs(ps@) =~= resp_jv(gr)->Obj_0);
        }
        JsonValue::Obj(ps)
    }

    /// The one line of text that answers a request on the wire.
    pub fn to_line(self) -> (s: String)
        ensures
            s@ == json_chars(resp_jv(self@)),
    {
        let ghost gr = self@;
        let v = self.to_json();
        to_text(&v)
    }
}

impl JsonRpcError {
    /// Reads an error object back from a document.
    pub fn from_json(v: &JsonValue) -> (r: Option<JsonRpcError>)
        ensures
            match r {
                Some(e) => err_of_jv(v@) == Some(e@),
                None => err_of_jv(v@) is None,
            },
    {
        match v {
            JsonValue::Obj(ps) => {
                match (obj_get(ps, "code"), obj_get(ps, "message")) {
                    (Some(JsonValue::Int(c)), Some(JsonValue::Str(m))) => {
                        let c64: i64 = *c;
                        if -2147483648i64 <= c64 && c64 <= 2147483647i64 {
                            let data = match obj_get(ps, "data") {
                                Some(d) => Some(d.duplicate()),
                                None => None,
                            };
                            Some(JsonRpcError { code: c64 as i32, message: m.clone(), data })
                        } else {
                            None
                        }
                    },
                    _ => None,
                }
            },
            _ => None,
        }
    }
}

impl JsonRpcResponse {
    /// Reads a response back from a document.
    pub fn from_json(v: &JsonValue) -> (r: Option<JsonRpcResponse>)
        ensures
            match r {
                Some(resp) => resp_of_jv(v@) == Some(resp@),
                None => resp_of_jv(v@) is None,
            },
    {
        match v {
            JsonValue::Obj(ps) => {
                match (obj_get(ps, "jsonrpc"), obj_get(ps, "id")) {
                    (Some(JsonValue::Str(ver)), Some(idr)) => {
                        match (obj_get(ps, "result"), obj_get(ps, "error")) {
                            (Some(rv), None) => Some(
                                JsonRpcResponse {
                                    jsonrpc: ver.clone(),
                                    id: idr.duplicate(),
                                    result: Some(rv.duplicate()),
                                    error: None,
                                },
                            ),
                            (None, Some(ev)) => match JsonRpcError::from_json(ev) {
                                Some(e) => Some(
                                    JsonRpcResponse {
                                        jsonrpc: ver.clone(),
                                        id: idr.duplicate(),
                                        result: None,
                                        error: Some(e),
                                    },
                                ),
                                None => None,
                            },
                            _ => None,
                        }
                    },
                    _ => None,
                }
            },
            _ => None,
        }
    }
}

impl JsonRpcRequest {
    /// Reads a request from a document; anything of the wrong shape is
    /// no request.
    pub fn from_json(v: &JsonValue) -> (r: Option<JsonRpcRequest>)
        ensures
            match r {
                Some(req) => req_of_jv(v@) == Some(req@),
                None => req_of_jv(v@) is None,
            },
    {
        match v {
            JsonValue::Obj(ps) => {
                match (obj_get(ps, "method"), obj_get(ps, "id")) {
                    (Some(JsonValue::Str(m)), Some(idr)) => {
                        let ver: String = match obj_get(ps, "jsonrpc") {
                            Some(JsonValue::Str(ver)) => ver.clone(),
                            Some(_) => {
                                return None;
                            },
                            None => String::from_str("2.0"),
                        };
                        let params = match obj_get(ps, "params") {
                            Some(p) => Some(p.duplicate()),
                            None => None,
                        };
                        Some(
                            JsonRpcRequest {
                                jsonrpc: ver,
                                method: m.clone(),
                                params,
                                id: idr.duplicate(),
                            },
                        )
                    },
                    _ => None,
                }
            },
            _ => None,
        }
    }
}

/// Whether an error object can go onto the wire and come back whole.
pub open spec fn wf_error(e: ErrV) -> bool {
    &&& i32::MIN <= e.code <= i32::MAX
    &&& match e.data {
        Some(d) => wf_json(d),
        None => true,
    }
}

/// Whether a response is well-formed: exactly one of result or error is
/// present, and every carried document fits the wire.
pub open spec fn wf_response(r: RespV) -> bool {
    &&& (r.result is Some) != (r.error is Some)
    &&& wf_json(r.id)
    &&& match r.result {
        Some(v) => wf_json(v),
        None => true,
    }
    &&& match r.error {
        Some(e) => wf_error(e),
        None => true,
    }
}

proof fn lemma_wf_err_jv(e: ErrV)
    requires
        wf_error(e),
    ensures
        wf_json(err_jv(e)),
{
    let ps = err_jv(e)->Obj_0;
    assert forall|i: int| 0 <= i < ps.len() implies wf_json(#[trigger] ps[i].1) by {
        if i == 0 {
            assert(ps[0].1 == JsonV::Int(e.code));
        } else if i == 1 {
            assert(ps[1].1 == JsonV::Str(e.message));
        } else {
            match e.data {
                Some(d) => {
                    assert(ps[2].1 == d);
                },
                None => {},
            }
        }
    }
}

proof fn lemma_wf_resp_jv(r: RespV)
    requires
        wf_response(r),
    ensures
        wf_json(resp_jv(r)),
{
    let ps = resp_jv(r)->Obj_0;
    match r.error {
        Some(e) => {
            lemma_wf_err_jv(e);
        },
        None => {},
    }
    assert forall|i: int| 0 <= i < ps.len() implies wf_json(#[trigger] ps[i].1) by {
        if i == 0 {
            assert(ps[0].1 == JsonV::Str(r.jsonrpc));
        } else if i == 1 {
            assert(ps[1].1 == r.id);
        } else {
            match (r.result, r.error) {
                (Some(v), None) => {
                    assert(ps[2].1 == v);
                },
                (None, Some(e)) => {
                    assert(ps[2].1 == err_jv(e));
                },
                (Some(v), Some(e)) => {
                    assert(ps[2].1 == v || ps[3].1 == err_jv(e));
                    assert(i == 2 || i == 3);
                },
                (None, None) => {},
            }
        }
    }
}

proof fn lemma_err_decode_encode(e: ErrV)
    requires
        wf_error(e),
    ensures
        err_of_jv(err_jv(e)) == Some(e),
{
    reveal_strlit("code");
    reveal_strlit("message");
    reveal_strlit("data");
    let ps = err_jv(e)->Obj_0;
    assert(ps[0].0 == "code"@ && ps[0].1 == JsonV::Int(e.code));
    assert(ps[1].0 == "message"@ && ps[1].1 == JsonV::Str(e.message));
    assert("message"@.len() == 7 && "code"@.len() == 4 && "data"@.len() == 4);
    assert("code"@[0] == 'c' && "data"@[0] == 'd');
    assert(lookup(ps, "code"@) == Some(JsonV::Int(e.code)));
    assert(crate::json::lookup_from(ps, "message"@, 1) == Some(JsonV::Str(e.message)));
    assert(lookup(ps, "message"@) == Some(JsonV::Str(e.message)));
    match e.data {
        Some(d) => {
            assert(ps.len() == 3 && ps[2].0 == "data"@ && ps[2].1 == d);
            assert(crate::json::lookup_from(ps, "data"@, 2) == Some(d));
            assert(crate::json::lookup_from(ps, "data"@, 1) == Some(d));
            assert(lookup(ps, "data"@) == Some(d));
        },
        None => {
            assert(ps.len() == 2);
            assert(crate::json::lookup_from(ps, "data"@, 2) is None);
            assert(crate::json::lookup_from(ps, "data"@, 1) is None);
            assert(lookup(ps, "data"@) is None);
        },
    }
}

proof fn lemma_resp_decode_encode(r: RespV)
    requires
        wf_response(r),
    ensures
        resp_of_jv(resp_jv(r)) == Some(r),
{
    reveal_strlit("jsonrpc");
    reveal_strlit("id");
    reveal_strlit("result");
    reveal_strlit("error");
    let ps = resp_jv(r)->Obj_0;
    assert(ps[0].0 == "jsonrpc"@ && ps[0].1 == JsonV::Str(r.jsonrpc));
    assert(ps[1].0 == "id"@ && ps[1].1 == r.id);
    assert("jsonrpc"@.len() == 7 && "id"@.len() == 2 && "result"@.len() == 6 && "error"@.len()
        == 5);
    assert(lookup(ps, "jsonrpc"@) == Some(JsonV::Str(r.jsonrpc)));
    assert(crate::json::lookup_from(ps, "id"@, 1) == Some(r.id));
    assert(lookup(ps, "id"@) == Some(r.id));
    match (r.result, r.error) {
        (Some(v), None) => {
            assert(ps.len() == 3 && ps[2].0 == "result"@ && ps[2].1 == v);
            assert(crate::json::lookup_from(ps, "result"@, 2) == Some(v));
            assert(crate::json::lookup_from(ps, "result"@, 1) == Some(v));
            assert(lookup(ps, "result"@) == Some(v));
            assert(crate::json::lookup_from(ps, "error"@, 3) is None);
            assert(crate::json::lookup_from(ps, "error"@, 2) is None);
            assert(crate::json::lookup_from(ps, "error"@, 1) is None);
            assert(lookup(ps, "error"@) is None);
        },
        (None, Some(e)) => {
            assert(ps.len() == 3 && ps[2].0 == "error"@ && ps[2].1 == err_jv(e));
            assert(crate::json::lookup_from(ps, "error"@, 2) == Some(err_jv(e)));
            assert(crate::json::lookup_from(ps, "error"@, 1) == Some(err_jv(e)));
            assert(lookup(ps, "error"@) == Some(err_jv(e)));
            assert(crate::json::lookup_from(ps, "result"@, 3) is None);
            assert(crate::json::lookup_from(ps, "result"@, 2) is None);
            assert(crate::json::lookup_from(ps, "result"@, 1) is None);
            assert(lookup(ps, "result"@) is None);
            lemma_err_decode_encode(e);
        },
        _ => {},
    }
}

/// The response round trip: writing a well-formed response onto the wire
/// and parsing the line back yields the same document, and decoding that
/// document restores the response whole — same id, and the same single
/// one of result or error.
pub proof fn lemma_response_round_trip(r: RespV)
    requires
        wf_response(r),
    ensures
        parse_text(json_chars(resp_jv(r))) == Some(resp_jv(r)),
        resp_of_jv(resp_jv(r)) == Some(r),
{
    lemma_wf_resp_jv(r);
    lemma_json_round_trip(resp_jv(r));
    lemma_resp_decode_encode(r);
}

/// Every response built from run-time values is well-formed, provided
/// exactly one of result and error is present.
pub proof fn lemma_response_wf(r: JsonRpcResponse)
    requires
        (r.result is Some) != (r.error is Some),
    ensures
        wf_response(r@),
{
    lemma_jv_wf(r.id);
    match r.result {
        Some(v) => {
            lemma_jv_wf(v);
        },
        None => {},
    }
    match r.error {
        Some(e) => {
            match e.data {
                Some(d) => {
                    lemma_jv_wf(d);
                },
                None => {},
            }
        },
        None => {},
    }
}

} // verus!
