use vstd::prelude::*;
use crate::model::{BufferPost, DeploymentStatus, FirestoreLead, GmailSendResult, SendGmailRequest};
use crate::text::{join2, text_eq};

verus! {

/// The `error` member of a JSON-RPC 2.0 response.
pub struct RpcError {
    pub code: i32,
    pub message: String,
}

/// The `initialize` handshake answer: the protocol version and the
/// server's name and version.
pub struct ServerInfo {
    pub protocol_version: String,
    pub name: String,
    pub version: String,
}

/// One input of a tool: its name, JSON type and description.
pub struct ToolParam {
    pub name: String,
    pub kind: String,
    pub description: String,
}

/// One entry of the `tools/list` answer: the tool's name, description,
/// the properties of its object-typed input schema, and the required ones.
pub struct ToolSpec {
    pub name: String,
    pub description: String,
    pub params: Vec<ToolParam>,
    pub required: Vec<String>,
}

pub open spec fn is_server_info(i: ServerInfo) -> bool {
    &&& i.protocol_version@ == "2024-11-05"@
    &&& i.name@ == "agentic-rust-mcp"@
    &&& i.version@ == "0.4.0"@
}

pub type ParamText = (Seq<char>, Seq<char>, Seq<char>);

pub type ToolText = (Seq<char>, Seq<char>, Seq<ParamText>, Seq<Seq<char>>);

pub open spec fn param_text(p: ToolParam) -> ParamText {
    (p.name@, p.kind@, p.description@)
}

pub open spec fn tool_text(t: ToolSpec) -> ToolText {
    (
        t.name@,
        t.description@,
        t.params@.map_values(|p: ToolParam| param_text(p)),
        t.required@.map_values(|s: String| s@),
    )
}

pub open spec fn catalog_text(tools: Seq<ToolSpec>) -> Seq<ToolText> {
    tools.map_values(|t: ToolSpec| tool_text(t))
}

/// The four tools, in order: three without inputs, and `send_gmail` with
/// the required string inputs `to`, `subject` and `body`.
pub open spec fn spec_tool_catalog() -> Seq<ToolText> {
    seq![
        (
            "agency_pulse"@,
            "Check live deployment status on Render and Vercel"@,
            Seq::<ParamText>::empty(),
            Seq::<Seq<char>>::empty(),
        ),
        (
            "content_check"@,
            "Check Buffer scheduled posts across channels"@,
            Seq::<ParamText>::empty(),
            Seq::<Seq<char>>::empty(),
        ),
        (
            "data_vault"@,
            "Query Firestore for leads/data"@,
            Seq::<ParamText>::empty(),
            Seq::<Seq<char>>::empty(),
        ),
        (
            "send_gmail"@,
            "Send an email via Gmail SMTP"@,
            seq![
                ("to"@, "string"@, "Recipient email address"@),
                ("subject"@, "string"@, "Email subject line"@),
                ("body"@, "string"@, "Plain text email body"@),
            ],
            seq!["to"@, "subject"@, "body"@],
        ),
    ]
}

/// The handshake answer.
pub fn server_info() -> (r: ServerInfo)
    ensures
        is_server_info(r),
{
    ServerInfo {
        protocol_version: "2024-11-05".to_owned(),
        name: "agentic-rust-mcp".to_owned(),
        version: "0.4.0".to_owned(),
    }
}

fn tool_without_inputs(name: &str, description: &str) -> (r: ToolSpec)
    ensures
        tool_text(r) == (name@, description@, Seq::<ParamText>::empty(), Seq::<Seq<char>>::empty()),
{
    let r = ToolSpec {
        name: name.to_owned(),
        description: description.to_owned(),
        params: Vec::new(),
        required: Vec::new(),
    };
    assert(tool_text(r).2 =~= Seq::<ParamText>::empty());
    assert(tool_text(r).3 =~= Seq::<Seq<char>>::empty());
    r
}

fn string_param(name: &str, description: &str) -> (r: ToolParam)
    ensures
        param_text(r) == (name@, "string"@, description@),
{
    ToolParam { name: name.to_owned(), kind: "string".to_owned(), description: description.to_owned() }
}

/// The `tools/list` answer.
pub fn tool_catalog() -> (r: Vec<ToolSpec>)
    ensures
        catalog_text(r@) =~~= spec_tool_catalog(),
{
    let mut params = Vec::new();
    params.push(string_param("to", "Recipient email address"));
    params.push(string_param("subject", "Email subject line"));
    params.push(string_param("body", "Plain text email body"));
    let mut required = Vec::new();
    required.push("to".to_owned());
    required.push("subject".to_owned());
    required.push("body".to_owned());
    let gmail = ToolSpec {
        name: "send_gmail".to_owned(),
        description: "Send an email via Gmail SMTP".to_owned(),
        params,
        required,
    };
    assert(tool_text(gmail).2 =~~= seq![
        ("to"@, "string"@, "Recipient email address"@),
        ("subject"@, "string"@, "Email subject line"@),
        ("body"@, "string"@, "Plain text email body"@),
    ]);
    assert(tool_text(gmail).3 =~~= seq!["to"@, "subject"@, "body"@]);
    let mut tools = Vec::new();
    tools.push(
        tool_without_inputs("agency_pulse", "Check live deployment status on Render and Vercel"),
    );
    tools.push(tool_without_inputs("content_check", "Check Buffer scheduled posts across channels"));
    tools.push(tool_without_inputs("data_vault", "Query Firestore for leads/data"));
    tools.push(gmail);
    assert(catalog_text(tools@) =~~= spec_tool_catalog());
    tools
}

/// The `result` member of a JSON-RPC 2.0 response, before serialisation.
pub enum RpcPayload {
    ServerInfo(ServerInfo),
    ToolCatalog(Vec<ToolSpec>),
    Pulse(DeploymentStatus),
    Content(BufferPost),
    Leads(Vec<FirestoreLead>),
    Mail(GmailSendResult),
}

/// A JSON-RPC 2.0 response; `I` is the request identifier, which the
/// library only carries.
pub struct RpcResponse<I> {
    pub jsonrpc: String,
    pub id: Option<I>,
    pub result: Option<RpcPayload>,
    pub error: Option<RpcError>,
}

/// A successful response to the request with identifier `id`.
pub open spec fn is_reply<I>(r: RpcResponse<I>, id: Option<I>) -> bool {
    &&& r.jsonrpc@ == "2.0"@
    &&& r.id == id
    &&& r.result is Some
    &&& r.error is None
}

/// A successful response to the request with identifier `id`, with this
/// result.
pub open spec fn is_result<I>(r: RpcResponse<I>, id: Option<I>, payload: RpcPayload) -> bool {
    &&& is_reply(r, id)
    &&& r.result == Some(payload)
}

/// The handshake answer to the request with identifier `id`.
pub open spec fn answers_handshake<I>(step: RpcStep<I>, id: Option<I>) -> bool {
    match step {
        RpcStep::Reply(r) => is_reply(r, id) && match r.result {
            Some(RpcPayload::ServerInfo(info)) => is_server_info(info),
            _ => false,
        },
        _ => false,
    }
}

/// The tool list answer to the request with identifier `id`.
pub open spec fn answers_catalog<I>(step: RpcStep<I>, id: Option<I>) -> bool {
    match step {
        RpcStep::Reply(r) => is_reply(r, id) && match r.result {
            Some(RpcPayload::ToolCatalog(tools)) => catalog_text(tools@) == spec_tool_catalog(),
            _ => false,
        },
        _ => false,
    }
}

/// An error response to the request with identifier `id`.
pub open spec fn is_error<I>(r: RpcResponse<I>, id: Option<I>, code: int, message: Seq<char>) -> bool {
    &&& r.jsonrpc@ == "2.0"@
    &&& r.id == id
    &&& r.result is None
    &&& r.error matches Some(e) && e.code == code && e.message@ == message
}

/// Version `2.0`, and exactly one of `result` and `error`.
pub open spec fn well_formed<I>(r: RpcResponse<I>) -> bool {
    &&& r.jsonrpc@ == "2.0"@
    &&& (r.result is Some) != (r.error is Some)
}

/// Every success and every error response is a well-formed JSON-RPC 2.0
/// response.
pub proof fn responses_are_well_formed<I>(
    r: RpcResponse<I>,
    id: Option<I>,
    payload: RpcPayload,
    code: int,
    message: Seq<char>,
)
    ensures
        is_result(r, id, payload) ==> well_formed(r),
        is_error(r, id, code, message) ==> well_formed(r),
{
}

fn result_response<I>(id: Option<I>, payload: RpcPayload) -> (r: RpcResponse<I>)
    ensures
        is_result(r, id, payload),
{
    RpcResponse { jsonrpc: "2.0".to_owned(), id, result: Some(payload), error: None }
}

fn error_response<I>(id: Option<I>, code: i32, message: String) -> (r: RpcResponse<I>)
    ensures
        is_error(r, id, code as int, message@),
{
    RpcResponse {
        jsonrpc: "2.0".to_owned(),
        id,
        result: None,
        error: Some(RpcError { code, message }),
    }
}

/// The tools the server offers.
pub enum ToolName {
    AgencyPulse,
    ContentCheck,
    DataVault,
    SendGmail,
}

/// Where a request goes, by its method and, for `tools/call`, the tool
/// named in its parameters.
pub enum RpcRoute {
    Initialize,
    ListTools,
    Call(ToolName),
    UnknownTool,
    UnknownMethod,
}

pub open spec fn spec_tool(name: Option<Seq<char>>) -> Option<ToolName> {
    match name {
        Some(n) => if n == "agency_pulse"@ {
            Some(ToolName::AgencyPulse)
        } else if n == "content_check"@ {
            Some(ToolName::ContentCheck)
        } else if n == "data_vault"@ {
            Some(ToolName::DataVault)
        } else if n == "send_gmail"@ {
            Some(ToolName::SendGmail)
        } else {
            None
        },
        None => None,
    }
}

pub open spec fn spec_route(method: Seq<char>, tool_name: Option<Seq<char>>) -> RpcRoute {
    if method == "initialize"@ {
        RpcRoute::Initialize
    } else if method == "tools/list"@ {
        RpcRoute::ListTools
    } else if method == "tools/call"@ {
        match spec_tool(tool_name) {
            Some(t) => RpcRoute::Call(t),
            None => RpcRoute::UnknownTool,
        }
    } else {
        RpcRoute::UnknownMethod
    }
}

/// The handshake and the tool list go by their method names; `tools/call`
/// goes to the tool its `name` parameter names, one for each of the four
/// tool names, and to no tool for any other name or none; every other
/// method is unknown.
pub proof fn route_law(method: Seq<char>, tool: Option<Seq<char>>)
    ensures
        method == "initialize"@ ==> spec_route(method, tool) is Initialize,
        method == "tools/list"@ ==> spec_route(method, tool) is ListTools,
        method == "tools/call"@ && tool == Some("agency_pulse"@) ==> spec_route(method, tool)
            == RpcRoute::Call(ToolName::AgencyPulse),
        method == "tools/call"@ && tool == Some("content_check"@) ==> spec_route(method, tool)
            == RpcRoute::Call(ToolName::ContentCheck),
        method == "tools/call"@ && tool == Some("data_vault"@) ==> spec_route(method, tool)
            == RpcRoute::Call(ToolName::DataVault),
        method == "tools/call"@ && tool == Some("send_gmail"@) ==> spec_route(method, tool)
            == RpcRoute::Call(ToolName::SendGmail),
        method == "tools/call"@ && tool != Some("agency_pulse"@) && tool != Some("content_check"@)
            && tool != Some("data_vault"@) && tool != Some("send_gmail"@) ==> spec_route(
            method,
            tool,
        ) is UnknownTool,
        method != "initialize"@ && method != "tools/list"@ && method != "tools/call"@ ==> spec_route(
            method,
            tool,
        ) is UnknownMethod,
{
    reveal_strlit("initialize");
    reveal_strlit("tools/list");
    reveal_strlit("tools/call");
    reveal_strlit("agency_pulse");
    reveal_strlit("content_check");
    reveal_strlit("data_vault");
    reveal_strlit("send_gmail");
    assert("initialize"@ != "tools/list"@) by {
        assert("initialize"@[0] != "tools/list"@[0]);
    }
    assert("initialize"@ != "tools/call"@) by {
        assert("initialize"@[0] != "tools/call"@[0]);
    }
    assert("tools/list"@ != "tools/call"@) by {
        assert("tools/list"@[6] != "tools/call"@[6]);
    }
    assert("agency_pulse"@ != "content_check"@) by {
        assert("agency_pulse"@[0] != "content_check"@[0]);
    }
    assert("agency_pulse"@ != "data_vault"@) by {
        assert("agency_pulse"@[0] != "data_vault"@[0]);
    }
    assert("agency_pulse"@ != "send_gmail"@) by {
        assert("agency_pulse"@[0] != "send_gmail"@[0]);
    }
    assert("content_check"@ != "data_vault"@) by {
        assert("content_check"@[0] != "data_vault"@[0]);
    }
    assert("content_check"@ != "send_gmail"@) by {
        assert("content_check"@[0] != "send_gmail"@[0]);
    }
    assert("data_vault"@ != "send_gmail"@) by {
        assert("data_vault"@[0] != "send_gmail"@[0]);
    }
}

fn tool_of(name: Option<&str>) -> (r: Option<ToolName>)
    ensures
        r == spec_tool(match name {
            Some(n) => Some(n@),
            None => None,
        }),
{
    match name {
        Some(n) => {
            if text_eq(n, "agency_pulse") {
                Some(ToolName::AgencyPulse)
            } else if text_eq(n, "content_check") {
                Some(ToolName::ContentCheck)
            } else if text_eq(n, "data_vault") {
                Some(ToolName::DataVault)
            } else if text_eq(n, "send_gmail") {
                Some(ToolName::SendGmail)
            } else {
                None
            }
        },
        None => None,
    }
}

/// Routes a request by its method and (for `tools/call`) the `name` of
/// its parameters.
pub fn route_request(method: &str, tool_name: Option<&str>) -> (r: RpcRoute)
    ensures
        r == spec_route(
            method@,
            match tool_name {
                Some(n) => Some(n@),
                None => None,
            },
        ),
{
    if text_eq(method, "initialize") {
        RpcRoute::Initialize
    } else if text_eq(method, "tools/list") {
        RpcRoute::ListTools
    } else if text_eq(method, "tools/call") {
        match tool_of(tool_name) {
            Some(t) => RpcRoute::Call(t),
            None => RpcRoute::UnknownTool,
        }
    } else {
        RpcRoute::UnknownMethod
    }
}

/// What the server does with a request.
pub enum RpcStep<I> {
    /// Answer at once with this response.
    Reply(RpcResponse<I>),
    /// Run the tool, then answer with `complete_tool_call` (for
    /// `send_gmail`, first check its arguments with `check_gmail_arguments`).
    Invoke(Option<I>, ToolName),
}

/// Starts handling a request: the handshake and the tool list are answered
/// at once, an unknown method or tool with the JSON-RPC "Method not found"
/// error, and a known tool is to be run. Every response carries the
/// request's identifier.
pub fn begin_request<I>(id: Option<I>, method: &str, tool_name: Option<&str>) -> (r: RpcStep<I>)
    ensures
        match spec_route(
            method@,
            match tool_name {
                Some(n) => Some(n@),
                None => None,
            },
        ) {
            RpcRoute::Initialize => answers_handshake(r, id),
            RpcRoute::ListTools => answers_catalog(r, id),
            RpcRoute::Call(t) => r == RpcStep::Invoke(id, t),
            _ => r matches RpcStep::Reply(resp) && is_error(
                resp,
                id,
                -32601,
                "Method not found"@,
            ),
        },
{
    match route_request(method, tool_name) {
        RpcRoute::Initialize => RpcStep::Reply(
            result_response(id, RpcPayload::ServerInfo(server_info())),
        ),
        RpcRoute::ListTools => RpcStep::Reply(
            result_response(id, RpcPayload::ToolCatalog(tool_catalog())),
        ),
        RpcRoute::Call(t) => RpcStep::Invoke(id, t),
        RpcRoute::UnknownTool => RpcStep::Reply(
            error_response(id, -32601, "Method not found".to_owned()),
        ),
        RpcRoute::UnknownMethod => RpcStep::Reply(
            error_response(id, -32601, "Method not found".to_owned()),
        ),
    }
}

/// Checks the arguments of a `send_gmail` call as parsed (or the parse
/// error's text): malformed arguments and a missing recipient are refused
/// with "Invalid params", each with its own message; otherwise the call
/// goes on with the identifier and the request.
pub fn check_gmail_arguments<I>(id: Option<I>, parsed: Result<SendGmailRequest, String>) -> (r:
    Result<(Option<I>, SendGmailRequest), RpcResponse<I>>)
    ensures
        match parsed {
            Err(e) => r matches Err(resp) && is_error(
                resp,
                id,
                -32602,
                "Invalid arguments: "@ + e@,
            ),
            Ok(req) => if req.to@.len() == 0 {
                r matches Err(resp) && is_error(
                    resp,
                    id,
                    -32602,
                    "Missing required parameter: to"@,
                )
            } else {
                r == Ok::<(Option<I>, SendGmailRequest), RpcResponse<I>>((id, req))
            },
        },
{
    match parsed {
        Err(e) => Err(error_response(id, -32602, join2("Invalid arguments: ", e.as_str()))),
        Ok(req) => {
            if req.to.as_str().is_empty() {
                Err(error_response(id, -32602, "Missing required parameter: to".to_owned()))
            } else {
                Ok((id, req))
            }
        },
    }
}

/// What a tool run came to: its value, or the text of its failure.
pub enum ToolOutcome {
    Pulse(Result<DeploymentStatus, String>),
    Content(Result<BufferPost, String>),
    Leads(Result<Vec<FirestoreLead>, String>),
    Mail(Result<GmailSendResult, String>),
}

/// Answers a tool run: its value as the result, or an "Internal error"
/// (for `send_gmail`, "Email send failed") carrying the failure's text.
pub fn complete_tool_call<I>(id: Option<I>, outcome: ToolOutcome) -> (r: RpcResponse<I>)
    ensures
        match outcome {
            ToolOutcome::Pulse(Ok(v)) => is_result(r, id, RpcPayload::Pulse(v)),
            ToolOutcome::Content(Ok(v)) => is_result(r, id, RpcPayload::Content(v)),
            ToolOutcome::Leads(Ok(v)) => is_result(r, id, RpcPayload::Leads(v)),
            ToolOutcome::Mail(Ok(v)) => is_result(r, id, RpcPayload::Mail(v)),
            ToolOutcome::Mail(Err(e)) => is_error(r, id, -32603, "Email send failed: "@ + e@),
            ToolOutcome::Pulse(Err(e)) => is_error(r, id, -32603, "Internal error: "@ + e@),
            ToolOutcome::Content(Err(e)) => is_error(r, id, -32603, "Internal error: "@ + e@),
            ToolOutcome::Leads(Err(e)) => is_error(r, id, -32603, "Internal error: "@ + e@),
        },
{
    match outcome {
        ToolOutcome::Pulse(Ok(v)) => result_response(id, RpcPayload::Pulse(v)),
        ToolOutcome::Content(Ok(v)) => result_response(id, RpcPayload::Content(v)),
        ToolOutcome::Leads(Ok(v)) => result_response(id, RpcPayload::Leads(v)),
        ToolOutcome::Mail(Ok(v)) => result_response(id, RpcPayload::Mail(v)),
        ToolOutcome::Mail(Err(e)) => error_response(
            id,
            -32603,
            join2("Email send failed: ", e.as_str()),
        ),
        ToolOutcome::Pulse(Err(e)) => error_response(
            id,
            -32603,
            join2("Internal error: ", e.as_str()),
        ),
        ToolOutcome::Content(Err(e)) => error_response(
            id,
            -32603,
            join2("Internal error: ", e.as_str()),
        ),
        ToolOutcome::Leads(Err(e)) => error_response(
            id,
            -32603,
            join2("Internal error: ", e.as_str()),
        ),
    }
}

/// The answer to a line that is not a JSON-RPC request: "Parse error",
/// with no identifier.
pub fn parse_error_response<I>() -> (r: RpcResponse<I>)
    ensures
        is_error(r, None, -32700, "Parse error"@),
{
    error_response(None, -32700, "Parse error".to_owned())
}

} // verus!
