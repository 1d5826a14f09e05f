//! The messages of the tool protocol: the handshake, the tool list and tool calls.
use vstd::prelude::*;
use crate::json::{Json, member, non_null, distinct_names, lemma_distinct_names};
use crate::message::{as_text, into_text, drop_null, entry, members_of};

verus! {

/// The protocol version that this client speaks.
pub const PROTOCOL_VERSION: &'static str = "2024-11-05";

/// The name under which this client introduces itself.
pub const CLIENT_NAME: &'static str = "smolpc-codehelper";

/// The version under which this client introduces itself.
pub const CLIENT_VERSION: &'static str = "0.1.0";

/// Parameters of the `initialize` request.
#[derive(Debug, Clone, PartialEq)]
pub struct InitializeParams {
    pub protocol_version: String,
    pub capabilities: ClientCapabilities,
    pub client_info: ClientInfo,
}

/// What the client offers to the server; nothing so far.
#[derive(Debug, Clone, PartialEq)]
pub struct ClientCapabilities {}

/// Name and version of the client.
#[derive(Debug, Clone, PartialEq)]
pub struct ClientInfo {
    pub name: String,
    pub version: String,
}

/// The result of the `initialize` request.
#[derive(Debug, PartialEq)]
pub struct InitializeResult {
    pub protocol_version: String,
    pub capabilities: ServerCapabilities,
    pub server_info: ServerInfo,
}

/// What the server offers.
#[derive(Debug, PartialEq)]
pub struct ServerCapabilities {
    pub experimental: Option<Json>,
    pub prompts: Option<PromptsCapability>,
    pub resources: Option<ResourcesCapability>,
    pub tools: Option<ToolsCapability>,
}

/// Whether the server announces changes of its prompt list.
#[derive(Debug, Clone, PartialEq)]
pub struct PromptsCapability {
    pub list_changed: bool,
}

/// Whether the server offers subscriptions to resources and announces changes of their list.
#[derive(Debug, Clone, PartialEq)]
pub struct ResourcesCapability {
    pub subscribe: bool,
    pub list_changed: bool,
}

/// Whether the server announces changes of its tool list.
#[derive(Debug, Clone, PartialEq)]
pub struct ToolsCapability {
    pub list_changed: bool,
}

/// Name and version of the server.
#[derive(Debug, Clone, PartialEq)]
pub struct ServerInfo {
    pub name: String,
    pub version: String,
}

/// The result of `tools/list`.
#[derive(Debug, PartialEq)]
pub struct ToolsListResult {
    pub tools: Vec<Tool>,
}

/// A tool that the server offers; its schemas are not interpreted here.
#[derive(Debug, PartialEq)]
pub struct Tool {
    pub name: String,
    pub description: String,
    pub input_schema: Json,
    pub output_schema: Option<Json>,
}

/// Parameters of `tools/call`.
#[derive(Debug, PartialEq)]
pub struct ToolCallParams {
    pub name: String,
    pub arguments: Json,
}

/// The usual shape of a tool's result.
#[derive(Debug, PartialEq)]
pub struct ToolCallResult {
    pub content: Vec<Content>,
    pub structured_content: Option<Json>,
    pub is_error: Option<bool>,
}

/// One piece of a tool's result.
#[derive(Debug, Clone, PartialEq)]
pub enum Content {
    Text { text: String },
    Image { data: String, mime_type: String },
    Resource { uri: String, mime_type: String },
}

/// A boolean member.
pub open spec fn as_bool(o: Option<Json>) -> Option<bool> {
    match o {
        Some(Json::Bool(b)) => Some(b),
        _ => None,
    }
}

/// An optional member read by `decode`: missing or `null` gives `Some(None)`,
/// a value that `decode` refuses gives `None`.
pub open spec fn optional<T>(o: Option<Json>, decoded: Option<T>) -> Option<Option<T>> {
    match non_null(o) {
        None => Some(None),
        Some(_) => match decoded {
            Some(t) => Some(Some(t)),
            None => None,
        },
    }
}

/// The prompts capability that `j` holds.
pub open spec fn decode_prompts(j: Json) -> Option<PromptsCapability> {
    match as_bool(member(j, "listChanged"@)) {
        Some(b) => Some(PromptsCapability { list_changed: b }),
        None => None,
    }
}

/// The resources capability that `j` holds.
pub open spec fn decode_resources(j: Json) -> Option<ResourcesCapability> {
    match (as_bool(member(j, "subscribe"@)), as_bool(member(j, "listChanged"@))) {
        (Some(s), Some(l)) => Some(ResourcesCapability { subscribe: s, list_changed: l }),
        _ => None,
    }
}

/// The tools capability that `j` holds.
pub open spec fn decode_tools_capability(j: Json) -> Option<ToolsCapability> {
    match as_bool(member(j, "listChanged"@)) {
        Some(b) => Some(ToolsCapability { list_changed: b }),
        None => None,
    }
}

/// The value inside a present member, for the decoders of optional members.
pub open spec fn inner(o: Option<Json>) -> Json {
    match o {
        Some(v) => v,
        None => Json::Null,
    }
}

/// The server capabilities that `j` holds: an object whose `prompts`,
/// `resources` and `tools` members, where present, are well formed.
pub open spec fn decode_capabilities(j: Json) -> Option<ServerCapabilities> {
    let prompts = optional(member(j, "prompts"@), decode_prompts(inner(member(j, "prompts"@))));
    let resources = optional(
        member(j, "resources"@),
        decode_resources(inner(member(j, "resources"@))),
    );
    let tools = optional(member(j, "tools"@), decode_tools_capability(inner(member(j, "tools"@))));
    if j is Object && prompts is Some && resources is Some && tools is Some {
        Some(
            ServerCapabilities {
                experimental: non_null(member(j, "experimental"@)),
                prompts: prompts.unwrap(),
                resources: resources.unwrap(),
                tools: tools.unwrap(),
            },
        )
    } else {
        None
    }
}

/// The server name and version that `j` holds.
pub open spec fn decode_server_info(j: Json) -> Option<ServerInfo> {
    match (as_text(member(j, "name"@)), as_text(member(j, "version"@))) {
        (Some(n), Some(v)) => Some(ServerInfo { name: n, version: v }),
        _ => None,
    }
}

/// The `initialize` result that `j` holds, if it is one.
pub open spec fn decode_initialize_result(j: Json) -> Option<InitializeResult> {
    let version = as_text(member(j, "protocolVersion"@));
    let caps = match member(j, "capabilities"@) {
        Some(c) => decode_capabilities(c),
        None => None,
    };
    let info = match member(j, "serverInfo"@) {
        Some(i) => decode_server_info(i),
        None => None,
    };
    if version is Some && caps is Some && info is Some {
        Some(
            InitializeResult {
                protocol_version: version.unwrap(),
                capabilities: caps.unwrap(),
                server_info: info.unwrap(),
            },
        )
    } else {
        None
    }
}

/// The tool that `j` holds: a name, a description and an input schema, and
/// maybe an output schema.
pub open spec fn decode_tool(j: Json) -> Option<Tool> {
    let name = as_text(member(j, "name"@));
    let description = as_text(member(j, "description"@));
    let input = member(j, "inputSchema"@);
    if name is Some && description is Some && input is Some {
        Some(
            Tool {
                name: name.unwrap(),
                description: description.unwrap(),
                input_schema: input.unwrap(),
                output_schema: non_null(member(j, "outputSchema"@)),
            },
        )
    } else {
        None
    }
}

/// The tools that the first `n` of `items` hold, if each of them holds one.
pub open spec fn decode_tool_prefix(items: Seq<Json>, n: int) -> Option<Seq<Tool>>
    decreases n,
{
    if n <= 0 {
        Some(Seq::empty())
    } else {
        match (decode_tool_prefix(items, n - 1), decode_tool(items[n - 1])) {
            (Some(s), Some(t)) => Some(s.push(t)),
            _ => None,
        }
    }
}

/// The tools that a `tools/list` result holds: a member `tools` that is an
/// array of tools, every one well formed.
pub open spec fn decode_tools_list(j: Json) -> Option<Seq<Tool>> {
    match member(j, "tools"@) {
        Some(Json::Array(items)) => decode_tool_prefix(items@, items@.len() as int),
        _ => None,
    }
}

/// The value of a boolean member.
pub fn into_bool(o: Option<Json>) -> (r: Option<bool>)
    ensures
        r == as_bool(o),
{
    match o {
        Some(Json::Bool(b)) => Some(b),
        _ => None,
    }
}

impl Default for InitializeParams {
    /// The parameters this client sends: its protocol version, no
    /// capabilities, and its name and version.
    fn default() -> (r: InitializeParams)
        ensures
            r.protocol_version@ == PROTOCOL_VERSION@,
            r.client_info.name@ == CLIENT_NAME@,
            r.client_info.version@ == CLIENT_VERSION@,
    {
        InitializeParams {
            protocol_version: String::from_str(PROTOCOL_VERSION),
            capabilities: ClientCapabilities {  },
            client_info: ClientInfo {
                name: String::from_str(CLIENT_NAME),
                version: String::from_str(CLIENT_VERSION),
            },
        }
    }
}

impl InitializeParams {
    /// Writes the parameters as `{protocolVersion, capabilities: {},
    /// clientInfo: {name, version}}`.
    pub fn to_json(self) -> (r: Json)
        ensures
            member(r, "protocolVersion"@) == Some(Json::Str(self.protocol_version)),
            member(r, "capabilities"@) matches Some(Json::Object(c)) && c@.len() == 0,
            member(r, "clientInfo"@) matches Some(info) && member(info, "name"@) == Some(
                Json::Str(self.client_info.name),
            ) && member(info, "version"@) == Some(Json::Str(self.client_info.version)),
    {
        let ghost old_self = self;
        let mut info: Vec<(String, Json)> = Vec::new();
        info.push(entry("name", Json::Str(self.client_info.name)));
        info.push(entry("version", Json::Str(self.client_info.version)));
        let info = Json::Object(info);
        let mut f: Vec<(String, Json)> = Vec::new();
        f.push(entry("protocolVersion", Json::Str(self.protocol_version)));
        f.push(entry("capabilities", Json::empty_object()));
        f.push(entry("clientInfo", info));
        let r = Json::Object(f);
        proof {
            reveal_with_fuel(crate::json::lookup_from, 4);
            reveal_strlit("name");
            assert("name"@.len() == 4);
            reveal_strlit("version");
            assert("version"@.len() == 7);
            reveal_strlit("protocolVersion");
            assert("protocolVersion"@.len() == 15);
            reveal_strlit("capabilities");
            assert("capabilities"@.len() == 12);
            reveal_strlit("clientInfo");
            assert("clientInfo"@.len() == 10);
            assert(member(info, "name"@) == Some(Json::Str(old_self.client_info.name)));
            assert(member(info, "version"@) == Some(Json::Str(old_self.client_info.version)));
            assert(member(r, "protocolVersion"@) == Some(Json::Str(old_self.protocol_version)));
            assert(member(r, "clientInfo"@) == Some(info));
        }
        r
    }
}

impl ToolCallParams {
    /// Writes the parameters as `{name, arguments}`.
    pub fn to_json(self) -> (r: Json)
        ensures
            member(r, "name"@) == Some(Json::Str(self.name)),
            member(r, "arguments"@) == Some(self.arguments),
    {
        let ghost old_self = self;
        let mut f: Vec<(String, Json)> = Vec::new();
        f.push(entry("name", Json::Str(self.name)));
        f.push(entry("arguments", self.arguments));
        let r = Json::Object(f);
        proof {
            reveal_with_fuel(crate::json::lookup_from, 3);
            reveal_strlit("name");
            assert("name"@.len() == 4);
            reveal_strlit("arguments");
            assert("arguments"@.len() == 9);
            assert(member(r, "name"@) == Some(Json::Str(old_self.name)));
        }
        r
    }
}

/// A single member name, for `members_of`.
fn names1(a: &'static str) -> (r: Vec<&'static str>)
    ensures
        r@.len() == 1,
        r@[0]@ == a@,
        distinct_names(r@),
{
    vec![a]
}

impl PromptsCapability {
    /// Reads the prompts capability.
    pub fn from_json(j: Json) -> (r: Option<PromptsCapability>)
        ensures
            r == decode_prompts(j),
    {
        let names = names1("listChanged");
        match members_of(j, &names) {
            None => None,
            Some(mut v) => match into_bool(v.pop().unwrap()) {
                Some(b) => Some(PromptsCapability { list_changed: b }),
                None => None,
            },
        }
    }
}

impl ToolsCapability {
    /// Reads the tools capability.
    pub fn from_json(j: Json) -> (r: Option<ToolsCapability>)
        ensures
            r == decode_tools_capability(j),
    {
        let names = names1("listChanged");
        match members_of(j, &names) {
            None => None,
            Some(mut v) => match into_bool(v.pop().unwrap()) {
                Some(b) => Some(ToolsCapability { list_changed: b }),
                None => None,
            },
        }
    }
}

impl ResourcesCapability {
    /// Reads the resources capability.
    pub fn from_json(j: Json) -> (r: Option<ResourcesCapability>)
        ensures
            r == decode_resources(j),
    {
        let names: Vec<&str> = vec!["subscribe", "listChanged"];
        proof {
            reveal_strlit("subscribe");
            assert("subscribe"@.len() == 9);
            reveal_strlit("listChanged");
            assert("listChanged"@.len() == 11);
            assert(names@[0]@ == "subscribe"@);
            assert(names@[1]@ == "listChanged"@);
            lemma_distinct_names(names@);
        }
        match members_of(j, &names) {
            None => None,
            Some(mut v) => {
                let l = into_bool(v.pop().unwrap());
                let s = into_bool(v.pop().unwrap());
                match (s, l) {
                    (Some(s), Some(l)) => Some(ResourcesCapability { subscribe: s, list_changed: l }),
                    _ => None,
                }
            },
        }
    }
}

fn optional_prompts(o: Option<Json>) -> (r: Option<Option<PromptsCapability>>)
    ensures
        r == optional(o, decode_prompts(inner(o))),
{
    match drop_null(o) {
        None => Some(None),
        Some(x) => match PromptsCapability::from_json(x) {
            Some(t) => Some(Some(t)),
            None => None,
        },
    }
}

fn optional_resources(o: Option<Json>) -> (r: Option<Option<ResourcesCapability>>)
    ensures
        r == optional(o, decode_resources(inner(o))),
{
    match drop_null(o) {
        None => Some(None),
        Some(x) => match ResourcesCapability::from_json(x) {
            Some(t) => Some(Some(t)),
            None => None,
        },
    }
}

fn optional_tools(o: Option<Json>) -> (r: Option<Option<ToolsCapability>>)
    ensures
        r == optional(o, decode_tools_capability(inner(o))),
{
    match drop_null(o) {
        None => Some(None),
        Some(x) => match ToolsCapability::from_json(x) {
            Some(t) => Some(Some(t)),
            None => None,
        },
    }
}

impl ServerCapabilities {
    /// Reads the server capabilities.
    pub fn from_json(j: Json) -> (r: Option<ServerCapabilities>)
        ensures
            r == decode_capabilities(j),
    {
        let names: Vec<&str> = vec!["experimental", "prompts", "resources", "tools"];
        proof {
            reveal_strlit("experimental");
            assert("experimental"@.len() == 12);
            reveal_strlit("prompts");
            assert("prompts"@.len() == 7);
            reveal_strlit("resources");
            assert("resources"@.len() == 9);
            reveal_strlit("tools");
            assert("tools"@.len() == 5);
            assert(names@[0]@ == "experimental"@);
            assert(names@[1]@ == "prompts"@);
            assert(names@[2]@ == "resources"@);
            assert(names@[3]@ == "tools"@);
            lemma_distinct_names(names@);
        }
        match members_of(j, &names) {
            None => None,
            Some(mut v) => {
                let tools = optional_tools(v.pop().unwrap());
                let resources = optional_resources(v.pop().unwrap());
                let prompts = optional_prompts(v.pop().unwrap());
                let experimental = drop_null(v.pop().unwrap());
                match (prompts, resources, tools) {
                    (Some(prompts), Some(resources), Some(tools)) => Some(
                        ServerCapabilities { experimental, prompts, resources, tools },
                    ),
                    _ => None,
                }
            },
        }
    }
}

impl ServerInfo {
    /// Reads the server's name and version.
    pub fn from_json(j: Json) -> (r: Option<ServerInfo>)
        ensures
            r == decode_server_info(j),
    {
        let names: Vec<&str> = vec!["name", "version"];
        proof {
            reveal_strlit("name");
            assert("name"@.len() == 4);
            reveal_strlit("version");
            assert("version"@.len() == 7);
            assert(names@[0]@ == "name"@);
            assert(names@[1]@ == "version"@);
            lemma_distinct_names(names@);
        }
        match members_of(j, &names) {
            None => None,
            Some(mut v) => {
                let version = into_text(v.pop().unwrap());
                let name = into_text(v.pop().unwrap());
                match (name, version) {
                    (Some(name), Some(version)) => Some(ServerInfo { name, version }),
                    _ => None,
                }
            },
        }
    }
}

impl InitializeResult {
    /// Reads the result of `initialize`.
    pub fn from_json(j: Json) -> (r: Option<InitializeResult>)
        ensures
            r == decode_initialize_result(j),
    {
        let names: Vec<&str> = vec!["protocolVersion", "capabilities", "serverInfo"];
        proof {
            reveal_strlit("protocolVersion");
            assert("protocolVersion"@.len() == 15);
            reveal_strlit("capabilities");
            assert("capabilities"@.len() == 12);
            reveal_strlit("serverInfo");
            assert("serverInfo"@.len() == 10);
            assert(names@[0]@ == "protocolVersion"@);
            assert(names@[1]@ == "capabilities"@);
            assert(names@[2]@ == "serverInfo"@);
            lemma_distinct_names(names@);
        }
        match members_of(j, &names) {
            None => None,
            Some(mut v) => {
                let info = match v.pop().unwrap() {
                    Some(i) => ServerInfo::from_json(i),
                    None => None,
                };
                let caps = match v.pop().unwrap() {
                    Some(c) => ServerCapabilities::from_json(c),
                    None => None,
                };
                let version = into_text(v.pop().unwrap());
                match (version, caps, info) {
                    (Some(protocol_version), Some(capabilities), Some(server_info)) => Some(
                        InitializeResult { protocol_version, capabilities, server_info },
                    ),
                    _ => None,
                }
            },
        }
    }
}

impl Tool {
    /// Reads one tool of a `tools/list` result.
    pub fn from_json(j: Json) -> (r: Option<Tool>)
        ensures
            r == decode_tool(j),
    {
        let names: Vec<&str> = vec!["name", "description", "inputSchema", "outputSchema"];
        proof {
            reveal_strlit("name");
            assert("name"@.len() == 4);
            reveal_strlit("description");
            assert("description"@.len() == 11);
            reveal_strlit("inputSchema");
            assert("inputSchema"@.len() == 11);
            reveal_strlit("outputSchema");
            assert("outputSchema"@.len() == 12);
            assert(names@[0]@ == "name"@);
            assert(names@[1]@ == "description"@);
            assert(names@[2]@ == "inputSchema"@);
            assert(names@[3]@ == "outputSchema"@);
            assert("description"@[0] != "inputSchema"@[0]);
            lemma_distinct_names(names@);
        }
        match members_of(j, &names) {
            None => None,
            Some(mut v) => {
                let output_schema = drop_null(v.pop().unwrap());
                let input = v.pop().unwrap();
                let description = into_text(v.pop().unwrap());
                let name = into_text(v.pop().unwrap());
                match (name, description, input) {
                    (Some(name), Some(description), Some(input_schema)) => Some(
                        Tool { name, description, input_schema, output_schema },
                    ),
                    _ => None,
                }
            },
        }
    }
}

impl ToolsListResult {
    /// Reads a `tools/list` result; nothing unless every tool in it is well formed.
    pub fn from_json(j: Json) -> (r: Option<ToolsListResult>)
        ensures
            r is None <==> decode_tools_list(j) is None,
            r matches Some(t) ==> decode_tools_list(j) == Some(t.tools@),
    {
        let names = names1("tools");
        let ghost jv = j;
        let items = match members_of(j, &names) {
            None => {
                return None;
            },
            Some(mut v) => match v.pop().unwrap() {
                Some(Json::Array(items)) => items,
                _ => {
                    return None;
                },
            },
        };
        let ghost orig = items@;
        assert(member(jv, "tools"@) == Some(Json::Array(items)));
        assert(decode_tools_list(jv) == decode_tool_prefix(orig, orig.len() as int));
        let n: usize = items.len();
        let mut items = items;
        let mut tools: Vec<Tool> = Vec::new();
        let mut i: usize = 0;
        while items.len() > 0
            invariant
                i + items@.len() == orig.len(),
                orig.len() == n,
                decode_tools_list(jv) == decode_tool_prefix(orig, orig.len() as int),
                jv == j,
                items@ == orig.subrange(i as int, orig.len() as int),
                decode_tool_prefix(orig, i as int) == Some(tools@),
            decreases items@.len(),
        {
            let item = items.remove(0);
            assert(item == orig[i as int]);
            match Tool::from_json(item) {
                Some(t) => tools.push(t),
                None => {
                    proof {
                        assert(decode_tool_prefix(orig, i as int + 1) is None);
                        lemma_prefix_fails(orig, i as int + 1, orig.len() as int);
                    }
                    return None;
                },
            }
            i = i + 1;
            assert(items@ =~= orig.subrange(i as int, orig.len() as int));
        }
        Some(ToolsListResult { tools })
    }
}

/// Once one item is no tool, no longer prefix decodes either.
proof fn lemma_prefix_fails(items: Seq<Json>, n: int, m: int)
    requires
        1 <= n <= m,
        decode_tool_prefix(items, n) is None,
    ensures
        decode_tool_prefix(items, m) is None,
    decreases m - n,
{
    if n < m {
        lemma_prefix_fails(items, n, m - 1);
    }
}

} // verus!
