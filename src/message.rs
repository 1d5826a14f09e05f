//! JSON-RPC 2.0 messages and their JSON form.
use vstd::prelude::*;
use crate::json::{Json, member, non_null, take_members, distinct_names, lemma_distinct_names};

verus! {

/// A call that expects a reply carrying the same `id`.
#[derive(Debug, PartialEq)]
pub struct JsonRpcRequest {
    pub jsonrpc: String,
    pub id: u64,
    pub method: String,
    pub params: Json,
}

/// The error object of a failed call.
#[derive(Debug, PartialEq)]
pub struct JsonRpcError {
    pub code: i32,
    pub message: String,
    pub data: Option<Json>,
}

/// The reply to a request: a result, an error, or (from a faulty peer) neither.
#[derive(Debug, PartialEq)]
pub struct JsonRpcResponse {
    /// The protocol version, where the peer wrote one.
    pub jsonrpc: Option<String>,
    pub id: u64,
    pub result: Option<Json>,
    pub error: Option<JsonRpcError>,
}

/// A one-way message: no `id`, no reply.
#[derive(Debug, PartialEq)]
pub struct JsonRpcNotification {
    pub jsonrpc: String,
    pub method: String,
    pub params: Json,
}

/// A string member.
pub open spec fn as_text(o: Option<Json>) -> Option<String> {
    match o {
        Some(Json::Str(s)) => Some(s),
        _ => None,
    }
}

/// A member that is an integer in the range of `u64`.
pub open spec fn as_u64(o: Option<Json>) -> Option<u64> {
    match o {
        Some(Json::UInt(n)) => Some(n),
        _ => None,
    }
}

/// A member that is an integer in the range of `i32`.
pub open spec fn as_i32(o: Option<Json>) -> Option<i32> {
    match o {
        Some(Json::UInt(n)) => if n <= i32::MAX {
            Some(n as i32)
        } else {
            None
        },
        Some(Json::Int(n)) => if i32::MIN <= n <= i32::MAX {
            Some(n as i32)
        } else {
            None
        },
        _ => None,
    }
}

/// The error object that `j` holds, if it is one.
pub open spec fn decode_error(j: Json) -> Option<JsonRpcError> {
    let code = as_i32(member(j, "code"@));
    let message = as_text(member(j, "message"@));
    if code is Some && message is Some {
        Some(
            JsonRpcError {
                code: code.unwrap(),
                message: message.unwrap(),
                data: member(j, "data"@),
            },
        )
    } else {
        None
    }
}

/// A member that may be missing but, where present, is a string.
pub open spec fn optional_text(o: Option<Json>) -> Option<Option<String>> {
    match o {
        None => Some(None),
        Some(Json::Str(s)) => Some(Some(s)),
        _ => None,
    }
}

/// The response that `j` holds, if it is one: an object with an `id` and,
/// where present, a `result` (any value, `null` included) and an `error`
/// object. A `jsonrpc` member may be missing; an `error` that is `null` counts
/// as absent; members of other names are ignored.
pub open spec fn decode_response(j: Json) -> Option<JsonRpcResponse> {
    let jsonrpc = optional_text(member(j, "jsonrpc"@));
    let id = as_u64(member(j, "id"@));
    let error = non_null(member(j, "error"@));
    if jsonrpc is Some && id is Some && (error is None || decode_error(error.unwrap()) is Some) {
        Some(
            JsonRpcResponse {
                jsonrpc: jsonrpc.unwrap(),
                id: id.unwrap(),
                result: member(j, "result"@),
                error: match error {
                    Some(e) => decode_error(e),
                    None => None,
                },
            },
        )
    } else {
        None
    }
}

/// The request that `j` holds, if it is one.
pub open spec fn decode_request(j: Json) -> Option<JsonRpcRequest> {
    let jsonrpc = as_text(member(j, "jsonrpc"@));
    let id = as_u64(member(j, "id"@));
    let method = as_text(member(j, "method"@));
    let params = member(j, "params"@);
    if jsonrpc is Some && id is Some && method is Some && params is Some {
        Some(
            JsonRpcRequest {
                jsonrpc: jsonrpc.unwrap(),
                id: id.unwrap(),
                method: method.unwrap(),
                params: params.unwrap(),
            },
        )
    } else {
        None
    }
}

/// The notification that `j` holds, if it is one.
pub open spec fn decode_notification(j: Json) -> Option<JsonRpcNotification> {
    let jsonrpc = as_text(member(j, "jsonrpc"@));
    let method = as_text(member(j, "method"@));
    let params = member(j, "params"@);
    if jsonrpc is Some && method is Some && params is Some {
        Some(
            JsonRpcNotification {
                jsonrpc: jsonrpc.unwrap(),
                method: method.unwrap(),
                params: params.unwrap(),
            },
        )
    } else {
        None
    }
}

/// The value of a member that may be missing but, where present, is a string.
pub fn into_optional_text(o: Option<Json>) -> (r: Option<Option<String>>)
    ensures
        r == optional_text(o),
{
    match o {
        None => Some(None),
        Some(Json::Str(s)) => Some(Some(s)),
        _ => None,
    }
}

/// The text of a string member.
pub fn into_text(o: Option<Json>) -> (r: Option<String>)
    ensures
        r == as_text(o),
{
    match o {
        Some(Json::Str(s)) => Some(s),
        _ => None,
    }
}

/// The value of a member that is an integer in the range of `u64`.
pub fn into_u64(o: Option<Json>) -> (r: Option<u64>)
    ensures
        r == as_u64(o),
{
    match o {
        Some(Json::UInt(n)) => Some(n),
        _ => None,
    }
}

/// The value of a member that is an integer in the range of `i32`.
pub fn into_i32(o: Option<Json>) -> (r: Option<i32>)
    ensures
        r == as_i32(o),
{
    match o {
        Some(Json::UInt(n)) => if n <= i32::MAX as u64 {
            Some(n as i32)
        } else {
            None
        },
        Some(Json::Int(n)) => if i32::MIN as i64 <= n && n <= i32::MAX as i64 {
            Some(n as i32)
        } else {
            None
        },
        _ => None,
    }
}

/// A member that is `null` counts as missing.
pub fn drop_null(o: Option<Json>) -> (r: Option<Json>)
    ensures
        r == non_null(o),
{
    match o {
        Some(Json::Null) => None,
        _ => o,
    }
}

/// A key paired with a value, as an object entry.
pub fn entry(key: &str, value: Json) -> (r: (String, Json))
    ensures
        r.0@ == key@,
        r.1 == value,
{
    (String::from_str(key), value)
}

/// Moves the members named `names` out of `j`; nothing for a value that is
/// not an object.
pub fn members_of(j: Json, names: &Vec<&str>) -> (r: Option<Vec<Option<Json>>>)
    requires
        distinct_names(names@),
    ensures
        r is None <==> !(j is Object),
        r matches Some(v) ==> v@.len() == names@.len() && forall|k: int|
            0 <= k < names@.len() ==> #[trigger] v@[k] == member(j, names@[k]@),
{
    match j {
        Json::Object(fields) => Some(take_members(fields, names)),
        _ => None,
    }
}

/// The member names of a response, in the order that `members_of` takes them.
pub fn response_member_names() -> (r: Vec<&'static str>)
    ensures
        r@.len() == 4,
        r@[0]@ == "jsonrpc"@,
        r@[1]@ == "id"@,
        r@[2]@ == "result"@,
        r@[3]@ == "error"@,
        distinct_names(r@),
{
    let names: Vec<&str> = vec!["jsonrpc", "id", "result", "error"];
    proof {
        reveal_strlit("jsonrpc");
        assert("jsonrpc"@.len() == 7);
        reveal_strlit("id");
        assert("id"@.len() == 2);
        reveal_strlit("result");
        assert("result"@.len() == 6);
        reveal_strlit("error");
        assert("error"@.len() == 5);
        assert(names@[0]@ == "jsonrpc"@);
        assert(names@[1]@ == "id"@);
        assert(names@[2]@ == "result"@);
        assert(names@[3]@ == "error"@);
        lemma_distinct_names(names@);
    }
    names
}

impl JsonRpcError {
    /// Reads an error object.
    pub fn from_json(j: Json) -> (r: Option<JsonRpcError>)
        ensures
            r == decode_error(j),
    {
        let names: Vec<&str> = vec!["code", "message", "data"];
        proof {
            reveal_with_fuel(crate::json::lookup_from, 6);
            reveal_strlit("code");
            assert("code"@.len() == 4);
            reveal_strlit("message");
            assert("message"@.len() == 7);
            reveal_strlit("data");
            assert("data"@.len() == 4);
            assert(names@[0]@ == "code"@);
            assert(names@[1]@ == "message"@);
            assert(names@[2]@ == "data"@);
            assert("code"@[0] != "data"@[0]);
            lemma_distinct_names(names@);
        }
        match members_of(j, &names) {
            None => None,
            Some(mut v) => {
                let data = v.pop().unwrap();
                let message = into_text(v.pop().unwrap());
                let code = into_i32(v.pop().unwrap());
                match (code, message) {
                    (Some(c), Some(m)) => Some(JsonRpcError { code: c, message: m, data }),
                    _ => None,
                }
            },
        }
    }

    /// Writes this error as an object with `code`, `message` and, where there
    /// is one, `data`.
    pub fn to_json(self) -> (r: Json)
        ensures
            member(r, "code"@) == Some(
                if self.code >= 0 {
                    Json::UInt(self.code as u64)
                } else {
                    Json::Int(self.code as i64)
                },
            ),
            member(r, "message"@) == Some(Json::Str(self.message)),
            member(r, "data"@) == self.data,
            decode_error(r) == Some(self),
    {
        let ghost old_self = self;
        let mut f: Vec<(String, Json)> = Vec::new();
        let code = if self.code >= 0 {
            Json::UInt(self.code as u64)
        } else {
            Json::Int(self.code as i64)
        };
        f.push(entry("code", code));
        f.push(entry("message", Json::Str(self.message)));
        match self.data {
            Some(d) => f.push(entry("data", d)),
            None => {},
        }
        let r = Json::Object(f);
        proof {
            reveal_with_fuel(crate::json::lookup_from, 6);
            reveal_strlit("code");
            assert("code"@.len() == 4);
            reveal_strlit("message");
            assert("message"@.len() == 7);
            reveal_strlit("data");
            assert("data"@.len() == 4);
            assert("code"@[0] != "data"@[0]);
            assert(member(r, "code"@) == Some(code));
            assert(member(r, "message"@) == Some(Json::Str(old_self.message)));
            assert(member(r, "data"@) == old_self.data);
        }
        r
    }
}

impl JsonRpcRequest {
    /// A request of protocol version "2.0".
    pub fn new(id: u64, method: &str, params: Json) -> (r: JsonRpcRequest)
        ensures
            r.jsonrpc@ == "2.0"@,
            r.id == id,
            r.method@ == method@,
            r.params == params,
    {
        JsonRpcRequest { jsonrpc: String::from_str("2.0"), id, method: String::from_str(method), params }
    }

    /// Writes this request as an object with `jsonrpc`, `id`, `method` and `params`.
    pub fn to_json(self) -> (r: Json)
        ensures
            member(r, "jsonrpc"@) == Some(Json::Str(self.jsonrpc)),
            member(r, "id"@) == Some(Json::UInt(self.id)),
            member(r, "method"@) == Some(Json::Str(self.method)),
            member(r, "params"@) == Some(self.params),
            decode_request(r) == Some(self),
    {
        let ghost old_self = self;
        let mut f: Vec<(String, Json)> = Vec::new();
        f.push(entry("jsonrpc", Json::Str(self.jsonrpc)));
        f.push(entry("id", Json::UInt(self.id)));
        f.push(entry("method", Json::Str(self.method)));
        f.push(entry("params", self.params));
        let r = Json::Object(f);
        proof {
            reveal_with_fuel(crate::json::lookup_from, 6);
            reveal_strlit("jsonrpc");
            assert("jsonrpc"@.len() == 7);
            reveal_strlit("id");
            assert("id"@.len() == 2);
            reveal_strlit("method");
            assert("method"@.len() == 6);
            reveal_strlit("params");
            assert("params"@.len() == 6);
            assert("method"@[0] != "params"@[0]);
            assert(member(r, "jsonrpc"@) == Some(Json::Str(old_self.jsonrpc)));
            assert(member(r, "id"@) == Some(Json::UInt(old_self.id)));
            assert(member(r, "method"@) == Some(Json::Str(old_self.method)));
            assert(member(r, "params"@) == Some(old_self.params));
        }
        r
    }

    /// Reads a request.
    pub fn from_json(j: Json) -> (r: Option<JsonRpcRequest>)
        ensures
            r == decode_request(j),
    {
        let names: Vec<&str> = vec!["jsonrpc", "id", "method", "params"];
        proof {
            reveal_with_fuel(crate::json::lookup_from, 6);
            reveal_strlit("jsonrpc");
            assert("jsonrpc"@.len() == 7);
            reveal_strlit("id");
            assert("id"@.len() == 2);
            reveal_strlit("method");
            assert("method"@.len() == 6);
            reveal_strlit("params");
            assert("params"@.len() == 6);
            assert(names@[0]@ == "jsonrpc"@);
            assert(names@[1]@ == "id"@);
            assert(names@[2]@ == "method"@);
            assert(names@[3]@ == "params"@);
            assert("method"@[0] != "params"@[0]);
            lemma_distinct_names(names@);
        }
        match members_of(j, &names) {
            None => None,
            Some(mut v) => {
                let params = v.pop().unwrap();
                let method = into_text(v.pop().unwrap());
                let id = into_u64(v.pop().unwrap());
                let jsonrpc = into_text(v.pop().unwrap());
                match (jsonrpc, id, method, params) {
                    (Some(jsonrpc), Some(id), Some(method), Some(params)) => Some(
                        JsonRpcRequest { jsonrpc, id, method, params },
                    ),
                    _ => None,
                }
            },
        }
    }
}

impl JsonRpcNotification {
    /// A notification of protocol version "2.0".
    pub fn new(method: &str, params: Json) -> (r: JsonRpcNotification)
        ensures
            r.jsonrpc@ == "2.0"@,
            r.method@ == method@,
            r.params == params,
    {
        JsonRpcNotification { jsonrpc: String::from_str("2.0"), method: String::from_str(method), params }
    }

    /// Writes this notification as an object with `jsonrpc`, `method` and
    /// `params`, and no `id`.
    pub fn to_json(self) -> (r: Json)
        ensures
            member(r, "jsonrpc"@) == Some(Json::Str(self.jsonrpc)),
            member(r, "id"@) is None,
            member(r, "method"@) == Some(Json::Str(self.method)),
            member(r, "params"@) == Some(self.params),
            decode_notification(r) == Some(self),
    {
        let ghost old_self = self;
        let mut f: Vec<(String, Json)> = Vec::new();
        f.push(entry("jsonrpc", Json::Str(self.jsonrpc)));
        f.push(entry("method", Json::Str(self.method)));
        f.push(entry("params", self.params));
        let r = Json::Object(f);
        proof {
            reveal_with_fuel(crate::json::lookup_from, 6);
            reveal_strlit("jsonrpc");
            assert("jsonrpc"@.len() == 7);
            reveal_strlit("id");
            assert("id"@.len() == 2);
            reveal_strlit("method");
            assert("method"@.len() == 6);
            reveal_strlit("params");
            assert("params"@.len() == 6);
            assert("method"@[0] != "params"@[0]);
            assert(member(r, "jsonrpc"@) == Some(Json::Str(old_self.jsonrpc)));
            assert(member(r, "id"@) is None);
            assert(member(r, "method"@) == Some(Json::Str(old_self.method)));
            assert(member(r, "params"@) == Some(old_self.params));
        }
        r
    }

    /// Reads a notification.
    pub fn from_json(j: Json) -> (r: Option<JsonRpcNotification>)
        ensures
            r == decode_notification(j),
    {
        let names: Vec<&str> = vec!["jsonrpc", "method", "params"];
        proof {
            reveal_with_fuel(crate::json::lookup_from, 6);
            reveal_strlit("jsonrpc");
            assert("jsonrpc"@.len() == 7);
            reveal_strlit("method");
            assert("method"@.len() == 6);
            reveal_strlit("params");
            assert("params"@.len() == 6);
            assert(names@[0]@ == "jsonrpc"@);
            assert(names@[1]@ == "method"@);
            assert(names@[2]@ == "params"@);
            assert("method"@[0] != "params"@[0]);
            lemma_distinct_names(names@);
        }
        match members_of(j, &names) {
            None => None,
            Some(mut v) => {
                let params = v.pop().unwrap();
                let method = into_text(v.pop().unwrap());
                let jsonrpc = into_text(v.pop().unwrap());
                match (jsonrpc, method, params) {
                    (Some(jsonrpc), Some(method), Some(params)) => Some(
                        JsonRpcNotification { jsonrpc, method, params },
                    ),
                    _ => None,
                }
            },
        }
    }
}

impl JsonRpcResponse {
    /// Writes this response as an object with an `id`, and `jsonrpc`,
    /// `result` and `error` where they are present. Reading it back gives the
    /// same response, field for field.
    pub fn to_json(self) -> (r: Json)
        ensures
            member(r, "jsonrpc"@) == match self.jsonrpc {
                Some(v) => Some(Json::Str(v)),
                None => None::<Json>,
            },
            member(r, "id"@) == Some(Json::UInt(self.id)),
            member(r, "result"@) == self.result,
            (member(r, "error"@) is Some) == (self.error is Some),
            decode_response(r) == Some(self),
    {
        let ghost old_self = self;
        let mut f: Vec<(String, Json)> = Vec::new();
        let ghost version: Option<Json> = None;
        match self.jsonrpc {
            Some(v) => {
                f.push(entry("jsonrpc", Json::Str(v)));
                proof {
                    version = Some(Json::Str(v));
                }
            },
            None => {},
        }
        f.push(entry("id", Json::UInt(self.id)));
        match self.result {
            Some(v) => f.push(entry("result", v)),
            None => {},
        }
        let ghost n_before_error = f@.len();
        let ghost err_json: Option<Json> = None;
        match self.error {
            Some(e) => {
                let ej = e.to_json();
                proof {
                    err_json = Some(ej);
                }
                f.push(entry("error", ej));
            },
            None => {},
        }
        let r = Json::Object(f);
        proof {
            reveal_with_fuel(crate::json::lookup_from, 6);
            reveal_strlit("jsonrpc");
            assert("jsonrpc"@.len() == 7);
            reveal_strlit("id");
            assert("id"@.len() == 2);
            reveal_strlit("result");
            assert("result"@.len() == 6);
            reveal_strlit("error");
            assert("error"@.len() == 5);
            assert(member(r, "jsonrpc"@) == version);
            assert(member(r, "id"@) == Some(Json::UInt(old_self.id)));
            assert(member(r, "result"@) == old_self.result);
            assert(member(r, "error"@) == err_json);
        }
        r
    }

    /// Reads a response; a line that holds anything else reads as nothing.
    pub fn from_json(j: Json) -> (r: Option<JsonRpcResponse>)
        ensures
            r == decode_response(j),
    {
        let names: Vec<&str> = vec!["jsonrpc", "id", "result", "error"];
        proof {
            reveal_with_fuel(crate::json::lookup_from, 6);
            reveal_strlit("jsonrpc");
            assert("jsonrpc"@.len() == 7);
            reveal_strlit("id");
            assert("id"@.len() == 2);
            reveal_strlit("result");
            assert("result"@.len() == 6);
            reveal_strlit("error");
            assert("error"@.len() == 5);
            assert(names@[0]@ == "jsonrpc"@);
            assert(names@[1]@ == "id"@);
            assert(names@[2]@ == "result"@);
            assert(names@[3]@ == "error"@);
            lemma_distinct_names(names@);
        }
        match members_of(j, &names) {
            None => None,
            Some(mut v) => {
                let error = drop_null(v.pop().unwrap());
                let result = v.pop().unwrap();
                let id = into_u64(v.pop().unwrap());
                let jsonrpc = into_optional_text(v.pop().unwrap());
                let error = match error {
                    None => None,
                    Some(e) => match JsonRpcError::from_json(e) {
                        None => {
                            return None;
                        },
                        Some(e) => Some(e),
                    },
                };
                match (jsonrpc, id) {
                    (Some(jsonrpc), Some(id)) => Some(JsonRpcResponse { jsonrpc, id, result, error }),
                    _ => None,
                }
            },
        }
    }
}

} // verus!
