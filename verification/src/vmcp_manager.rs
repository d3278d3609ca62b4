//! Creates a virtual MCP server for a request and fetches the tools it offers.
//!
//! Talking to the skill store and to the MCP server is up to the caller: the filter says what
//! is to be done next, and is told what came of it.

use crate::filter::{BodyAccess, BodyMode, FilterError, HttpFilterContext};
use crate::json::{
    json_error_message, json_list_in_text, json_of, json_text, jsons_of, nesting_limit,
    object_value, reads_back, text_value, write_list, Json,
};
use crate::status::{reason_phrase, shown_status, status_number, status_text};
use crate::store::{
    answer_of, check_setup, outcome_of, setup_message, transport_error, transport_message,
    TransportFailure, TransportFailureView,
};
use crate::text::{
    decimal, decimal_text, occurs_at, replace_all, replace_all_at_first_occurrence,
    replace_all_without_occurrence, replace_text, replacing_keeps_text_without_the_pattern,
    replacing_starts_at_the_first_position,
};
use vstd::prelude::*;

verus! {

/// The settings of a [`VmcpManagerFilter`].
pub struct VmcpManagerConfig {
    /// The address of the skill store.
    pub store_base_url: String,
    /// The server's name, in which `{env_id}` stands for the environment.
    pub vmcp_name_template: String,
    /// How long a request may take.
    pub timeout_ms: u64,
    /// Whether a server that exists already is an error.
    pub always_create: bool,
    /// Whether a server is to be removed after an error.
    pub cleanup_on_error: bool,
}

/// What a [`VmcpManagerConfig`] says.
pub struct ManagerView {
    pub store_base_url: Seq<char>,
    pub vmcp_name_template: Seq<char>,
    pub timeout_ms: u64,
    pub always_create: bool,
    pub cleanup_on_error: bool,
}

impl View for VmcpManagerConfig {
    type V = ManagerView;

    open spec fn view(&self) -> ManagerView {
        ManagerView {
            store_base_url: self.store_base_url@,
            vmcp_name_template: self.vmcp_name_template@,
            timeout_ms: self.timeout_ms,
            always_create: self.always_create,
            cleanup_on_error: self.cleanup_on_error,
        }
    }
}

/// A server as the store describes it.
pub struct VmcpResponse {
    pub uuid: String,
    pub name: String,
    pub port: u16,
    pub skill_uuid: Option<String>,
    pub runtime_tools: Option<serde_json::Value>,
}

/// What of a [`VmcpResponse`] is used.
pub struct VmcpView {
    pub uuid: Seq<char>,
    pub name: Seq<char>,
    pub port: u16,
    pub runtime_tools: Option<Json>,
}

impl View for VmcpResponse {
    type V = VmcpView;

    open spec fn view(&self) -> VmcpView {
        VmcpView {
            uuid: self.uuid@,
            name: self.name@,
            port: self.port,
            runtime_tools: match self.runtime_tools {
                Some(value) => Some(json_of(value)),
                None => None,
            },
        }
    }
}

/// A tool as an MCP server describes it.
pub struct McpTool {
    pub name: String,
    pub description: String,
    pub input_schema: serde_json::Value,
}

/// What a [`McpTool`] says.
pub struct ToolView {
    pub name: Seq<char>,
    pub description: Seq<char>,
    pub input_schema: Json,
}

impl View for McpTool {
    type V = ToolView;

    open spec fn view(&self) -> ToolView {
        ToolView {
            name: self.name@,
            description: self.description@,
            input_schema: json_of(self.input_schema),
        }
    }
}

/// What the tools of a list say, in their order.
pub open spec fn tool_views(tools: Seq<McpTool>) -> Seq<ToolView> {
    tools.map_values(|tool: McpTool| tool@)
}

/// A request to the store for a new server.
pub struct CreateRequest {
    pub url: String,
    pub headers: Vec<(String, String)>,
    pub query: Vec<(String, String)>,
    pub timeout_ms: u64,
}

/// What a [`CreateRequest`] says.
pub struct CreateRequestView {
    pub url: Seq<char>,
    pub headers: Seq<(Seq<char>, Seq<char>)>,
    pub query: Seq<(Seq<char>, Seq<char>)>,
    pub timeout_ms: u64,
}

/// What pairs of strings say.
pub open spec fn pairs_of(pairs: Seq<(String, String)>) -> Seq<(Seq<char>, Seq<char>)> {
    pairs.map_values(|pair: (String, String)| (pair.0@, pair.1@))
}

impl View for CreateRequest {
    type V = CreateRequestView;

    open spec fn view(&self) -> CreateRequestView {
        CreateRequestView {
            url: self.url@,
            headers: pairs_of(self.headers@),
            query: pairs_of(self.query@),
            timeout_ms: self.timeout_ms,
        }
    }
}

/// Why a call to an MCP server gave no result.
pub enum McpFailure {
    /// The time for the call ran out.
    TimedOut,
    /// Any other reason, as a message.
    Failed(String),
}

/// What a [`McpFailure`] says.
pub enum McpFailureView {
    TimedOut,
    Failed(Seq<char>),
}

impl View for McpFailure {
    type V = McpFailureView;

    open spec fn view(&self) -> McpFailureView {
        match self {
            McpFailure::TimedOut => McpFailureView::TimedOut,
            McpFailure::Failed(cause) => McpFailureView::Failed(cause@),
        }
    }
}

// ---- Creating a server ----

/// The name of the server for an environment.
pub open spec fn vmcp_name(template: Seq<char>, env_id: Seq<char>) -> Seq<char> {
    replace_all(template, "{env_id}"@, env_id)
}

/// The query with which a server is created; the skill is named where there is one.
pub open spec fn create_query(
    name: Seq<char>,
    skill_uuid: Option<Seq<char>>,
    env_id: Seq<char>,
) -> Seq<(Seq<char>, Seq<char>)> {
    let query = seq![
        ("name"@, name),
        ("description"@, "VMCP server for environment "@ + env_id),
    ];
    match skill_uuid {
        Some(uuid) => query.push(("skill_uuid"@, uuid)),
        None => query,
    }
}

/// The request with which a server is created.
pub open spec fn create_request(
    filter: ManagerView,
    name: Seq<char>,
    skill_uuid: Option<Seq<char>>,
    env_id: Seq<char>,
) -> CreateRequestView {
    CreateRequestView {
        url: filter.store_base_url + "/vmcp_servers/"@,
        headers: seq![("skillberry-context-env-id"@, env_id)],
        query: create_query(name, skill_uuid, env_id),
        timeout_ms: filter.timeout_ms,
    }
}

/// The message for an answer that holds no server, where it holds none, by its status: whether
/// that is a success, its number and how it is shown.
pub open spec fn status_failure(
    name: Seq<char>,
    always_create: bool,
    success: bool,
    number: u16,
    shown: Seq<char>,
) -> Option<Seq<char>> {
    if success {
        None
    } else if number == 409 {
        if always_create {
            Some("VMCP '"@ + name + "' already exists"@)
        } else {
            Some("VMCP reuse not yet implemented"@)
        }
    } else {
        Some("VMCP creation failed with status "@ + shown)
    }
}

/// The message for a creation without a server to read, where there is none.
pub open spec fn creation_failure(
    name: Seq<char>,
    always_create: bool,
    answer: Result<http::StatusCode, TransportFailureView>,
) -> Option<Seq<char>> {
    match answer {
        Ok(status) => status_failure(
            name,
            always_create,
            crate::status::is_success_number(status_number(status)),
            status_number(status),
            shown_status(status),
        ),
        Err(failure) => Some(transport_message("VMCP creation"@, failure)),
    }
}

/// The message for a server that cannot be read.
pub open spec fn unreadable_message(cause: Seq<char>) -> Seq<char> {
    "invalid VMCP response: "@ + cause
}

/// The metadata with a new server.
pub open spec fn with_vmcp(
    metadata: Map<Seq<char>, Seq<char>>,
    vmcp: VmcpView,
) -> Map<Seq<char>, Seq<char>> {
    let described = metadata.insert("vmcp_uuid"@, vmcp.uuid).insert("vmcp_name"@, vmcp.name).insert(
        "vmcp_port"@,
        decimal(vmcp.port as nat),
    );
    match vmcp.runtime_tools {
        Some(Json::Array(tools)) => described.insert("vmcp_tools_count"@, decimal(tools.len())),
        _ => described,
    }
}

/// Whether the status of the store's answer lets a server be read from it.
pub fn judge_creation_status(
    name: &str,
    always_create: bool,
    success: bool,
    number: u16,
    shown: &str,
) -> (r: Result<(), FilterError>)
    ensures
        match (r, status_failure(name@, always_create, success, number, shown@)) {
            (Ok(_), None) => true,
            (Err(error), Some(message)) => error@ == message,
            _ => false,
        },
{
    if success {
        Ok(())
    } else if number == 409 {
        if always_create {
            Err(FilterError::new("VMCP '".to_owned().concat(name).concat("' already exists")))
        } else {
            Err(FilterError::new("VMCP reuse not yet implemented".to_owned()))
        }
    } else {
        Err(FilterError::new("VMCP creation failed with status ".to_owned().concat(shown)))
    }
}

/// Whether the store's answer lets a server be read from it.
pub fn judge_creation_answer(
    name: &str,
    always_create: bool,
    answer: Result<http::StatusCode, TransportFailure>,
) -> (r: Result<(), FilterError>)
    ensures
        match (r, creation_failure(name@, always_create, answer_of(answer))) {
            (Ok(_), None) => true,
            (Err(error), Some(message)) => error@ == message,
            _ => false,
        },
{
    match answer {
        Ok(status) => judge_creation_status(
            name,
            always_create,
            status.is_success(),
            status.as_u16(),
            status_text(&status).as_str(),
        ),
        Err(failure) => Err(transport_error("VMCP creation", failure)),
    }
}

// ---- Fetching tools ----

/// The address at which the server on a port is reached.
pub open spec fn sse_url(port: u16) -> Seq<char> {
    "http://localhost:"@ + decimal(port as nat) + "/sse"@
}

/// A tool as a chat completion request holds it.
pub open spec fn tool_json(tool: ToolView) -> Json {
    Json::Object(
        Map::empty().insert("type"@, Json::Str("function"@)).insert(
            "function"@,
            Json::Object(
                Map::empty().insert("name"@, Json::Str(tool.name)).insert(
                    "description"@,
                    Json::Str(tool.description),
                ).insert("parameters"@, tool.input_schema),
            ),
        ),
    )
}

/// Tools as a chat completion request holds them.
pub open spec fn tool_jsons(tools: Seq<ToolView>) -> Seq<Json> {
    tools.map_values(|tool: ToolView| tool_json(tool))
}

/// The message for a transport that did not start.
pub open spec fn transport_start_message(cause: Seq<char>) -> Seq<char> {
    "SSE transport start failed: "@ + cause
}

/// The message for a client that was not initialized.
pub open spec fn initialization_message(failure: McpFailureView) -> Seq<char> {
    match failure {
        McpFailureView::TimedOut => "MCP initialization timeout"@,
        McpFailureView::Failed(cause) => "MCP initialization failed: "@ + cause,
    }
}

/// The message for tools that were not listed.
pub open spec fn listing_message(failure: McpFailureView) -> Seq<char> {
    match failure {
        McpFailureView::TimedOut => "MCP list_tools timeout"@,
        McpFailureView::Failed(cause) => "MCP list_tools failed: "@ + cause,
    }
}

fn initialization_error(failure: McpFailure) -> (error: FilterError)
    ensures
        error@ == initialization_message(failure@),
{
    FilterError::new(
        match failure {
            McpFailure::TimedOut => "MCP initialization timeout".to_owned(),
            McpFailure::Failed(cause) => "MCP initialization failed: ".to_owned().concat(
                cause.as_str(),
            ),
        },
    )
}

fn listing_error(failure: McpFailure) -> (error: FilterError)
    ensures
        error@ == listing_message(failure@),
{
    FilterError::new(
        match failure {
            McpFailure::TimedOut => "MCP list_tools timeout".to_owned(),
            McpFailure::Failed(cause) => "MCP list_tools failed: ".to_owned().concat(
                cause.as_str(),
            ),
        },
    )
}

/// A tool as a chat completion request holds it.
pub fn tool_value(tool: McpTool) -> (value: serde_json::Value)
    ensures
        json_of(value) == tool_json(tool@),
{
    let mut function = serde_json::Map::<String, serde_json::Value>::new();
    function.insert("name".to_owned(), text_value(tool.name));
    function.insert("description".to_owned(), text_value(tool.description));
    function.insert("parameters".to_owned(), tool.input_schema);
    let mut object = serde_json::Map::<String, serde_json::Value>::new();
    object.insert("type".to_owned(), text_value("function".to_owned()));
    object.insert("function".to_owned(), object_value(function));
    object_value(object)
}

/// Tools as a chat completion request holds them, in their order.
pub fn tool_values(tools: Vec<McpTool>) -> (values: Vec<serde_json::Value>)
    ensures
        jsons_of(values@) == tool_jsons(tool_views(tools@)),
{
    let ghost all = tool_jsons(tool_views(tools@));
    let mut values: Vec<serde_json::Value> = Vec::new();
    for tool in it: tools
        invariant
            it.seq() == tools@,
            all == tool_jsons(tool_views(tools@)),
            jsons_of(values@) == all.take(it.index()),
    {
        let ghost before = values@;
        assert(all[it.index()] == tool_json(tool@));
        values.push(tool_value(tool));
        assert(jsons_of(values@) =~= jsons_of(before).push(all[it.index()]));
        assert(all.take(it.index() + 1) =~= all.take(it.index()).push(all[it.index()]));
    }
    assert(all.take(all.len() as int) =~= all);
    values
}

// ---- The filter ----

/// How far the work for a request has come.
pub enum VmcpState {
    /// Nothing has been done.
    Start,
    /// The store is being asked for a server of this name.
    Creating { name: String },
    /// The store's answer is being read.
    ReadingVmcp,
    /// The transport to the server is being opened.
    OpeningTransport,
    /// The MCP client is being initialized.
    Initializing,
    /// The server is being asked for its tools.
    ListingTools,
    /// The request goes on, or has failed.
    Finished,
}

/// What happened.
pub enum VmcpEvent {
    /// A request came.
    Request,
    /// The status of the store's answer, or why there is none.
    Answer(Result<http::StatusCode, TransportFailure>),
    /// The server in the store's answer, or why it cannot be read.
    Vmcp(Result<VmcpResponse, String>),
    /// The transport was opened, or why it was not.
    Transport(Result<(), String>),
    /// The client was initialized, or why it was not.
    Initialized(Result<(), McpFailure>),
    /// The server's tools, or why they were not listed.
    Tools(Result<Vec<McpTool>, McpFailure>),
}

/// What is to be done next.
pub enum VmcpCommand {
    /// Post this request.
    Post(CreateRequest),
    /// Read a server from the answer.
    ReadVmcp,
    /// Open a transport to this address.
    OpenTransport(String),
    /// Initialize an MCP client of this name, within this many milliseconds.
    Initialize { client_name: String, timeout_ms: u64 },
    /// List the server's tools, within this many milliseconds.
    ListTools { timeout_ms: u64 },
    /// Let the request go on.
    Continue,
    /// Let the request go on without tools; this is why there are none.
    ContinueWithoutTools(FilterError),
    /// Fail the request.
    Fail(FilterError),
    /// Nothing: the event was not awaited.
    Ignore,
}

/// What a [`VmcpState`] says.
pub enum VmcpStateView {
    Start,
    Creating { name: Seq<char> },
    ReadingVmcp,
    OpeningTransport,
    Initializing,
    ListingTools,
    Finished,
}

/// What a [`VmcpEvent`] says.
pub enum VmcpEventView {
    Request,
    Answer(Result<http::StatusCode, TransportFailureView>),
    Vmcp(Result<VmcpView, Seq<char>>),
    Transport(Result<(), Seq<char>>),
    Initialized(Result<(), McpFailureView>),
    Tools(Result<Seq<ToolView>, McpFailureView>),
}

/// What a [`VmcpCommand`] says.
pub enum VmcpCommandView {
    Post(CreateRequestView),
    ReadVmcp,
    OpenTransport(Seq<char>),
    Initialize { client_name: Seq<char>, timeout_ms: u64 },
    ListTools { timeout_ms: u64 },
    Continue,
    ContinueWithoutTools(Seq<char>),
    Fail(Seq<char>),
    Ignore,
}

impl View for VmcpState {
    type V = VmcpStateView;

    open spec fn view(&self) -> VmcpStateView {
        match self {
            VmcpState::Start => VmcpStateView::Start,
            VmcpState::Creating { name } => VmcpStateView::Creating { name: name@ },
            VmcpState::ReadingVmcp => VmcpStateView::ReadingVmcp,
            VmcpState::OpeningTransport => VmcpStateView::OpeningTransport,
            VmcpState::Initializing => VmcpStateView::Initializing,
            VmcpState::ListingTools => VmcpStateView::ListingTools,
            VmcpState::Finished => VmcpStateView::Finished,
        }
    }
}

impl View for VmcpEvent {
    type V = VmcpEventView;

    open spec fn view(&self) -> VmcpEventView {
        match self {
            VmcpEvent::Request => VmcpEventView::Request,
            VmcpEvent::Answer(answer) => VmcpEventView::Answer(answer_of(*answer)),
            VmcpEvent::Vmcp(Ok(vmcp)) => VmcpEventView::Vmcp(Ok(vmcp@)),
            VmcpEvent::Vmcp(Err(cause)) => VmcpEventView::Vmcp(Err(cause@)),
            VmcpEvent::Transport(Ok(_)) => VmcpEventView::Transport(Ok(())),
            VmcpEvent::Transport(Err(cause)) => VmcpEventView::Transport(Err(cause@)),
            VmcpEvent::Initialized(Ok(_)) => VmcpEventView::Initialized(Ok(())),
            VmcpEvent::Initialized(Err(failure)) => VmcpEventView::Initialized(Err(failure@)),
            VmcpEvent::Tools(Ok(tools)) => VmcpEventView::Tools(Ok(tool_views(tools@))),
            VmcpEvent::Tools(Err(failure)) => VmcpEventView::Tools(Err(failure@)),
        }
    }
}

impl View for VmcpCommand {
    type V = VmcpCommandView;

    open spec fn view(&self) -> VmcpCommandView {
        match self {
            VmcpCommand::Post(request) => VmcpCommandView::Post(request@),
            VmcpCommand::ReadVmcp => VmcpCommandView::ReadVmcp,
            VmcpCommand::OpenTransport(url) => VmcpCommandView::OpenTransport(url@),
            VmcpCommand::Initialize { client_name, timeout_ms } => VmcpCommandView::Initialize {
                client_name: client_name@,
                timeout_ms: *timeout_ms,
            },
            VmcpCommand::ListTools { timeout_ms } => VmcpCommandView::ListTools {
                timeout_ms: *timeout_ms,
            },
            VmcpCommand::Continue => VmcpCommandView::Continue,
            VmcpCommand::ContinueWithoutTools(error) => VmcpCommandView::ContinueWithoutTools(
                error@,
            ),
            VmcpCommand::Fail(error) => VmcpCommandView::Fail(error@),
            VmcpCommand::Ignore => VmcpCommandView::Ignore,
        }
    }
}

/// The message for a request whose environment is not known.
pub open spec fn missing_env_id_message() -> Seq<char> {
    "env_id is required in filter_metadata (set by context_extractor)"@
}

/// The skill that the metadata names.
pub open spec fn skill_in(metadata: Map<Seq<char>, Seq<char>>) -> Option<Seq<char>> {
    if metadata.contains_key("skill_uuid"@) {
        Some(metadata["skill_uuid"@])
    } else {
        None
    }
}

/// The metadata with the server's tools.
pub open spec fn with_tools(
    metadata: Map<Seq<char>, Seq<char>>,
    tools: Seq<ToolView>,
) -> Map<Seq<char>, Seq<char>> {
    metadata.insert("mcp_tools"@, json_text(Json::Array(tool_jsons(tools))))
}

/// What follows an event: the next state, what is to be done, and the metadata.
///
/// A server is created for the environment in the metadata; without one the request fails, and
/// so it does where no server comes about. Once there is a server, it is described in the
/// metadata and asked for its tools. Where these are not to be had, the request goes on without
/// them.
pub open spec fn manage(
    filter: ManagerView,
    state: VmcpStateView,
    event: VmcpEventView,
    metadata: Map<Seq<char>, Seq<char>>,
) -> (VmcpStateView, VmcpCommandView, Map<Seq<char>, Seq<char>>) {
    match (state, event) {
        (VmcpStateView::Start, VmcpEventView::Request) => if metadata.contains_key("env_id"@) {
            let env_id = metadata["env_id"@];
            let name = vmcp_name(filter.vmcp_name_template, env_id);
            (
                VmcpStateView::Creating { name },
                VmcpCommandView::Post(create_request(filter, name, skill_in(metadata), env_id)),
                metadata,
            )
        } else {
            (VmcpStateView::Finished, VmcpCommandView::Fail(missing_env_id_message()), metadata)
        },
        (VmcpStateView::Creating { name }, VmcpEventView::Answer(answer)) =>
            match creation_failure(name, filter.always_create, answer) {
                Some(message) => (
                    VmcpStateView::Finished,
                    VmcpCommandView::Fail(message),
                    metadata,
                ),
                None => (VmcpStateView::ReadingVmcp, VmcpCommandView::ReadVmcp, metadata),
            },
        (VmcpStateView::ReadingVmcp, VmcpEventView::Vmcp(Ok(vmcp))) => (
            VmcpStateView::OpeningTransport,
            VmcpCommandView::OpenTransport(sse_url(vmcp.port)),
            with_vmcp(metadata, vmcp),
        ),
        (VmcpStateView::ReadingVmcp, VmcpEventView::Vmcp(Err(cause))) => (
            VmcpStateView::Finished,
            VmcpCommandView::Fail(unreadable_message(cause)),
            metadata,
        ),
        (VmcpStateView::OpeningTransport, VmcpEventView::Transport(Ok(_))) => (
            VmcpStateView::Initializing,
            VmcpCommandView::Initialize {
                client_name: "praxis-vmcp-manager"@,
                timeout_ms: filter.timeout_ms,
            },
            metadata,
        ),
        (VmcpStateView::OpeningTransport, VmcpEventView::Transport(Err(cause))) => (
            VmcpStateView::Finished,
            VmcpCommandView::ContinueWithoutTools(transport_start_message(cause)),
            metadata,
        ),
        (VmcpStateView::Initializing, VmcpEventView::Initialized(Ok(_))) => (
            VmcpStateView::ListingTools,
            VmcpCommandView::ListTools { timeout_ms: filter.timeout_ms },
            metadata,
        ),
        (VmcpStateView::Initializing, VmcpEventView::Initialized(Err(failure))) => (
            VmcpStateView::Finished,
            VmcpCommandView::ContinueWithoutTools(initialization_message(failure)),
            metadata,
        ),
        (VmcpStateView::ListingTools, VmcpEventView::Tools(Ok(tools))) => (
            VmcpStateView::Finished,
            VmcpCommandView::Continue,
            with_tools(metadata, tools),
        ),
        (VmcpStateView::ListingTools, VmcpEventView::Tools(Err(failure))) => (
            VmcpStateView::Finished,
            VmcpCommandView::ContinueWithoutTools(listing_message(failure)),
            metadata,
        ),
        _ => (state, VmcpCommandView::Ignore, metadata),
    }
}

/// Creates a virtual MCP server for a request and puts the tools it offers into the metadata.
pub struct VmcpManagerFilter {
    store_base_url: String,
    vmcp_name_template: String,
    always_create: bool,
    timeout_ms: u64,
    cleanup_on_error: bool,
}

impl View for VmcpManagerFilter {
    type V = ManagerView;

    closed spec fn view(&self) -> ManagerView {
        ManagerView {
            store_base_url: self.store_base_url@,
            vmcp_name_template: self.vmcp_name_template@,
            timeout_ms: self.timeout_ms,
            always_create: self.always_create,
            cleanup_on_error: self.cleanup_on_error,
        }
    }
}

impl VmcpManagerFilter {
    /// The filter with these settings; `client` says whether there is an HTTP client for it.
    pub fn from_config(config: VmcpManagerConfig, client: Result<(), String>) -> (r: Result<
        Self,
        FilterError,
    >)
        ensures
            match (
                r,
                setup_message("vmcp_manager"@, config.store_base_url@, outcome_of(client)),
            ) {
                (Ok(filter), None) => filter@ == config@,
                (Err(error), Some(message)) => error@ == message,
                _ => false,
            },
    {
        if let Err(error) = check_setup("vmcp_manager", &config.store_base_url, client) {
            return Err(error);
        }
        Ok(
            VmcpManagerFilter {
                store_base_url: config.store_base_url,
                vmcp_name_template: config.vmcp_name_template,
                always_create: config.always_create,
                timeout_ms: config.timeout_ms,
                cleanup_on_error: config.cleanup_on_error,
            },
        )
    }

    /// The name of the server for an environment.
    pub fn generate_vmcp_name(&self, env_id: &str) -> (name: String)
        ensures
            name@ == vmcp_name(self@.vmcp_name_template, env_id@),
    {
        proof {
            reveal_strlit("{env_id}");
        }
        replace_text(self.vmcp_name_template.as_str(), "{env_id}", env_id)
    }

    /// The request with which a server is created.
    pub fn create_vmcp_server(
        &self,
        name: &str,
        skill_uuid: Option<&String>,
        env_id: &str,
    ) -> (request: CreateRequest)
        ensures
            request@ == create_request(
                self@,
                name@,
                match skill_uuid {
                    Some(uuid) => Some(uuid@),
                    None => None,
                },
                env_id@,
            ),
    {
        let mut headers: Vec<(String, String)> = Vec::new();
        headers.push(("skillberry-context-env-id".to_owned(), env_id.to_owned()));
        let mut query: Vec<(String, String)> = Vec::new();
        query.push(("name".to_owned(), name.to_owned()));
        query.push(
            ("description".to_owned(), "VMCP server for environment ".to_owned().concat(env_id)),
        );
        if let Some(uuid) = skill_uuid {
            query.push(("skill_uuid".to_owned(), uuid.clone()));
        }
        let request = CreateRequest {
            url: self.store_base_url.clone().concat("/vmcp_servers/"),
            headers,
            query,
            timeout_ms: self.timeout_ms,
        };
        proof {
            let uuid = match skill_uuid {
                Some(uuid) => Some(uuid@),
                None => None,
            };
            assert(request@.headers =~= seq![("skillberry-context-env-id"@, env_id@)]);
            assert(request@.query =~= create_query(name@, uuid, env_id@));
        }
        request
    }

    /// Describes a new server in the metadata.
    fn record_vmcp(ctx: &mut HttpFilterContext, vmcp: VmcpResponse)
        ensures
            final(ctx).filter_metadata@ == with_vmcp(old(ctx).filter_metadata@, vmcp@),
            final(ctx).same_but_metadata(*old(ctx)),
    {
        ctx.filter_metadata.insert("vmcp_uuid".to_owned(), vmcp.uuid);
        ctx.filter_metadata.insert("vmcp_name".to_owned(), vmcp.name);
        ctx.filter_metadata.insert("vmcp_port".to_owned(), decimal_text(vmcp.port as u64));
        if let Some(tools) = &vmcp.runtime_tools {
            if let Some(items) = tools.as_array() {
                ctx.filter_metadata.insert(
                    "vmcp_tools_count".to_owned(),
                    decimal_text(items.len() as u64),
                );
            }
        }
    }

    /// The filter's name.
    pub fn name(&self) -> (name: &'static str)
        ensures
            name@ == "vmcp_manager"@,
    {
        "vmcp_manager"
    }

    /// Request bodies are left alone.
    pub fn request_body_access(&self) -> (access: BodyAccess)
        ensures
            access == BodyAccess::NoAccess,
    {
        BodyAccess::NoAccess
    }

    /// Request bodies are not collected.
    pub fn request_body_mode(&self) -> (mode: BodyMode)
        ensures
            mode == BodyMode::Stream,
    {
        BodyMode::Stream
    }

    /// Takes the work for a request one step further.
    ///
    /// The tools that are put into the metadata are read back from there as they were, but for
    /// schemas that are nested too deeply and for numbers that are not read back as themselves.
    pub fn on_request(
        &self,
        state: VmcpState,
        event: VmcpEvent,
        ctx: &mut HttpFilterContext,
    ) -> (r: (VmcpState, VmcpCommand))
        ensures
            (r.0@, r.1@, final(ctx).filter_metadata@) == manage(
                self@,
                state@,
                event@,
                old(ctx).filter_metadata@,
            ),
            final(ctx).same_but_metadata(*old(ctx)),
            match (state@, event@) {
                (VmcpStateView::ListingTools, VmcpEventView::Tools(Ok(tools))) => reads_back(
                    Json::Array(tool_jsons(tools)),
                    nesting_limit(),
                ) ==> json_list_in_text(final(ctx).filter_metadata@["mcp_tools"@]) == Some(
                    tool_jsons(tools),
                ),
                _ => true,
            },
    {
        match (state, event) {
            (VmcpState::Start, VmcpEvent::Request) => {
                let env_id = match ctx.filter_metadata.get("env_id") {
                    Some(env_id) => env_id,
                    None => {
                        return (
                            VmcpState::Finished,
                            VmcpCommand::Fail(
                                FilterError::new(
                                    "env_id is required in filter_metadata (set by context_extractor)".to_owned(),
                                ),
                            ),
                        );
                    },
                };
                let skill_uuid = ctx.filter_metadata.get("skill_uuid");
                let name = self.generate_vmcp_name(env_id.as_str());
                let request = self.create_vmcp_server(name.as_str(), skill_uuid, env_id.as_str());
                (VmcpState::Creating { name }, VmcpCommand::Post(request))
            },
            (VmcpState::Creating { name }, VmcpEvent::Answer(answer)) => {
                match judge_creation_answer(name.as_str(), self.always_create, answer) {
                    Ok(_) => (VmcpState::ReadingVmcp, VmcpCommand::ReadVmcp),
                    Err(error) => (VmcpState::Finished, VmcpCommand::Fail(error)),
                }
            },
            (VmcpState::ReadingVmcp, VmcpEvent::Vmcp(Ok(vmcp))) => {
                let url = "http://localhost:".to_owned().concat(
                    decimal_text(vmcp.port as u64).as_str(),
                ).concat("/sse");
                Self::record_vmcp(ctx, vmcp);
                (VmcpState::OpeningTransport, VmcpCommand::OpenTransport(url))
            },
            (VmcpState::ReadingVmcp, VmcpEvent::Vmcp(Err(cause))) => {
                let message = "invalid VMCP response: ".to_owned().concat(cause.as_str());
                (VmcpState::Finished, VmcpCommand::Fail(FilterError::new(message)))
            },
            (VmcpState::OpeningTransport, VmcpEvent::Transport(Ok(_))) => (
                VmcpState::Initializing,
                VmcpCommand::Initialize {
                    client_name: "praxis-vmcp-manager".to_owned(),
                    timeout_ms: self.timeout_ms,
                },
            ),
            (VmcpState::OpeningTransport, VmcpEvent::Transport(Err(cause))) => {
                let message = "SSE transport start failed: ".to_owned().concat(cause.as_str());
                (
                    VmcpState::Finished,
                    VmcpCommand::ContinueWithoutTools(FilterError::new(message)),
                )
            },
            (VmcpState::Initializing, VmcpEvent::Initialized(Ok(_))) => (
                VmcpState::ListingTools,
                VmcpCommand::ListTools { timeout_ms: self.timeout_ms },
            ),
            (VmcpState::Initializing, VmcpEvent::Initialized(Err(failure))) => (
                VmcpState::Finished,
                VmcpCommand::ContinueWithoutTools(initialization_error(failure)),
            ),
            (VmcpState::ListingTools, VmcpEvent::Tools(Ok(tools))) => {
                let values = tool_values(tools);
                match write_list(&values) {
                    Ok(text) => {
                        ctx.filter_metadata.insert("mcp_tools".to_owned(), text);
                        (VmcpState::Finished, VmcpCommand::Continue)
                    },
                    Err(e) => {
                        let message = "failed to serialize tools: ".to_owned().concat(
                            json_error_message(&e).as_str(),
                        );
                        (VmcpState::Finished, VmcpCommand::Fail(FilterError::new(message)))
                    },
                }
            },
            (VmcpState::ListingTools, VmcpEvent::Tools(Err(failure))) => (
                VmcpState::Finished,
                VmcpCommand::ContinueWithoutTools(listing_error(failure)),
            ),
            (state, _) => (state, VmcpCommand::Ignore),
        }
    }
}

// ---- What holds of a request's server and tools ----

/// The keys under which a server and its tools are described.
pub open spec fn is_vmcp_key(key: Seq<char>) -> bool {
    ||| key == "vmcp_uuid"@
    ||| key == "vmcp_name"@
    ||| key == "vmcp_port"@
    ||| key == "vmcp_tools_count"@
    ||| key == "mcp_tools"@
}

/// The event is one that the state waits for.
pub open spec fn is_awaited(state: VmcpStateView, event: VmcpEventView) -> bool {
    match state {
        VmcpStateView::Start => event is Request,
        VmcpStateView::Creating { .. } => event is Answer,
        VmcpStateView::ReadingVmcp => event is Vmcp,
        VmcpStateView::OpeningTransport => event is Transport,
        VmcpStateView::Initializing => event is Initialized,
        VmcpStateView::ListingTools => event is Tools,
        VmcpStateView::Finished => false,
    }
}

/// The server exists, and only its tools are still to come.
pub open spec fn is_fetching_tools(state: VmcpStateView) -> bool {
    state is OpeningTransport || state is Initializing || state is ListingTools
}

/// The greatest number of steps that the work can still take.
pub open spec fn steps_left(state: VmcpStateView) -> nat {
    match state {
        VmcpStateView::Start => 6,
        VmcpStateView::Creating { .. } => 5,
        VmcpStateView::ReadingVmcp => 4,
        VmcpStateView::OpeningTransport => 3,
        VmcpStateView::Initializing => 2,
        VmcpStateView::ListingTools => 1,
        VmcpStateView::Finished => 0,
    }
}

/// The state and the metadata after some events, one after the other.
pub open spec fn manage_all(
    filter: ManagerView,
    state: VmcpStateView,
    events: Seq<VmcpEventView>,
    metadata: Map<Seq<char>, Seq<char>>,
) -> (VmcpStateView, Map<Seq<char>, Seq<char>>)
    decreases events.len(),
{
    if events.len() == 0 {
        (state, metadata)
    } else {
        let next = manage(filter, state, events[0], metadata);
        manage_all(filter, next.0, events.skip(1), next.2)
    }
}

proof fn lemma_vmcp_keys_differ()
    ensures
        "vmcp_uuid"@ != "vmcp_name"@,
        "vmcp_uuid"@ != "vmcp_port"@,
        "vmcp_uuid"@ != "vmcp_tools_count"@,
        "vmcp_name"@ != "vmcp_port"@,
        "vmcp_name"@ != "vmcp_tools_count"@,
        "vmcp_port"@ != "vmcp_tools_count"@,
        "mcp_tools"@ != "vmcp_uuid"@,
        "mcp_tools"@ != "vmcp_name"@,
        "mcp_tools"@ != "vmcp_port"@,
        "mcp_tools"@ != "vmcp_tools_count"@,
{
    reveal_strlit("vmcp_uuid");
    reveal_strlit("vmcp_name");
    reveal_strlit("vmcp_port");
    reveal_strlit("vmcp_tools_count");
    reveal_strlit("mcp_tools");
    assert("vmcp_uuid"@[5] == 'u' && "vmcp_name"@[5] == 'n' && "vmcp_port"@[5] == 'p');
    assert("mcp_tools"@[0] == 'm' && "vmcp_uuid"@[0] == 'v' && "vmcp_name"@[0] == 'v'
        && "vmcp_port"@[0] == 'v' && "vmcp_tools_count"@[0] == 'v');
    assert("vmcp_uuid"@.len() < "vmcp_tools_count"@.len());
    assert("vmcp_name"@.len() < "vmcp_tools_count"@.len());
    assert("vmcp_port"@.len() < "vmcp_tools_count"@.len());
}

/// A request whose environment is not known fails before the store is asked, and nothing is
/// changed.
pub proof fn no_server_without_environment(
    filter: ManagerView,
    metadata: Map<Seq<char>, Seq<char>>,
)
    requires
        !metadata.contains_key("env_id"@),
    ensures
        manage(filter, VmcpStateView::Start, VmcpEventView::Request, metadata) == (
            VmcpStateView::Finished,
            VmcpCommandView::Fail(missing_env_id_message()),
            metadata,
        ),
{
}

/// A template without the placeholder is the name of every server.
pub proof fn name_without_placeholder(template: Seq<char>, env_id: Seq<char>)
    requires
        forall|i: int| !occurs_at(template, "{env_id}"@, i),
    ensures
        vmcp_name(template, env_id) == template,
{
    reveal_strlit("{env_id}");
    replace_all_without_occurrence(template, "{env_id}"@, env_id);
}

/// The first placeholder of a template gives way to the environment; what stands before it is
/// kept, and what stands after it is a template of its own.
pub proof fn name_with_placeholder(before: Seq<char>, after: Seq<char>, env_id: Seq<char>)
    requires
        forall|i: int|
            0 <= i < before.len() ==> !occurs_at(before + "{env_id}"@ + after, "{env_id}"@, i),
    ensures
        vmcp_name(before + "{env_id}"@ + after, env_id) == before + env_id + vmcp_name(
            after,
            env_id,
        ),
{
    reveal_strlit("{env_id}");
    replace_all_at_first_occurrence(before, after, "{env_id}"@, env_id);
}

/// The store is told the environment in a header; the server's name comes first in the query,
/// and the skill last, exactly where one is known.
pub proof fn request_names_environment_and_skill(
    filter: ManagerView,
    name: Seq<char>,
    skill_uuid: Option<Seq<char>>,
    env_id: Seq<char>,
)
    ensures
        create_request(filter, name, skill_uuid, env_id).headers.contains(
            ("skillberry-context-env-id"@, env_id),
        ),
        create_request(filter, name, skill_uuid, env_id).query[0] == ("name"@, name),
        skill_uuid matches Some(uuid) ==> create_request(
            filter,
            name,
            skill_uuid,
            env_id,
        ).query.last() == ("skill_uuid"@, uuid),
        skill_uuid is None ==> forall|i: int|
            0 <= i < create_request(filter, name, skill_uuid, env_id).query.len() ==> (
            #[trigger] create_request(filter, name, skill_uuid, env_id).query[i]).0
                != "skill_uuid"@,
{
    reveal_strlit("name");
    reveal_strlit("description");
    reveal_strlit("skill_uuid");
    let request = create_request(filter, name, skill_uuid, env_id);
    assert(request.headers[0] == ("skillberry-context-env-id"@, env_id));
    assert("name"@.len() < "skill_uuid"@.len());
    assert("skill_uuid"@.len() < "description"@.len());
}

/// A server that exists already is an error, whether or not servers are always created.
pub proof fn existing_server_fails_the_request(
    filter: ManagerView,
    name: Seq<char>,
    status: http::StatusCode,
    metadata: Map<Seq<char>, Seq<char>>,
)
    requires
        status_number(status) == 409,
    ensures
        manage(
            filter,
            VmcpStateView::Creating { name },
            VmcpEventView::Answer(Ok(status)),
            metadata,
        ) == (
            VmcpStateView::Finished,
            VmcpCommandView::Fail(
                if filter.always_create {
                    "VMCP '"@ + name + "' already exists"@
                } else {
                    "VMCP reuse not yet implemented"@
                },
            ),
            metadata,
        ),
{
}

/// A request fails only while there is no server yet, and a step that fails it changes nothing.
pub proof fn failing_changes_nothing(
    filter: ManagerView,
    state: VmcpStateView,
    event: VmcpEventView,
    metadata: Map<Seq<char>, Seq<char>>,
)
    requires
        manage(filter, state, event, metadata).1 is Fail,
    ensures
        state is Start || state is Creating || state is ReadingVmcp,
        manage(filter, state, event, metadata).0 is Finished,
        manage(filter, state, event, metadata).2 == metadata,
{
}

/// Once there is a server, the request never fails: where its tools are not to be had, the
/// request goes on without them, and nothing is changed.
pub proof fn missing_tools_do_not_fail_the_request(
    filter: ManagerView,
    state: VmcpStateView,
    event: VmcpEventView,
    metadata: Map<Seq<char>, Seq<char>>,
)
    requires
        is_fetching_tools(state),
    ensures
        !(manage(filter, state, event, metadata).1 is Fail),
        manage(filter, state, event, metadata).1 is ContinueWithoutTools ==> manage(
            filter,
            state,
            event,
            metadata,
        ).0 is Finished,
        manage(filter, state, event, metadata).1 is Continue || manage(
            filter,
            state,
            event,
            metadata,
        ).2 == metadata,
        manage(filter, state, event, metadata).1 is Continue <==> {
            &&& state is ListingTools
            &&& event matches VmcpEventView::Tools(Ok(_))
        },
{
}

/// A new server is described in the metadata by its UUID, its name and its port, and by the
/// number of its tools where the store lists them.
pub proof fn new_server_is_described(metadata: Map<Seq<char>, Seq<char>>, vmcp: VmcpView)
    ensures
        with_vmcp(metadata, vmcp)["vmcp_uuid"@] == vmcp.uuid,
        with_vmcp(metadata, vmcp)["vmcp_name"@] == vmcp.name,
        with_vmcp(metadata, vmcp)["vmcp_port"@] == decimal(vmcp.port as nat),
        vmcp.runtime_tools matches Some(Json::Array(tools)) ==> with_vmcp(
            metadata,
            vmcp,
        )["vmcp_tools_count"@] == decimal(tools.len()),
{
    lemma_vmcp_keys_differ();
}

/// A step goes on towards the end exactly where its event was awaited; any other event changes
/// nothing. The request goes on or fails exactly with the step that ends the work.
pub proof fn awaited_events_end_the_work(
    filter: ManagerView,
    state: VmcpStateView,
    event: VmcpEventView,
    metadata: Map<Seq<char>, Seq<char>>,
)
    ensures
        is_awaited(state, event) ==> steps_left(manage(filter, state, event, metadata).0)
            < steps_left(state),
        is_awaited(state, event) ==> !(manage(filter, state, event, metadata).1 is Ignore),
        is_awaited(state, event) ==> (manage(filter, state, event, metadata).0 is Finished <==> {
            ||| manage(filter, state, event, metadata).1 is Continue
            ||| manage(filter, state, event, metadata).1 is ContinueWithoutTools
            ||| manage(filter, state, event, metadata).1 is Fail
        }),
        !is_awaited(state, event) ==> manage(filter, state, event, metadata) == (
            state,
            VmcpCommandView::Ignore,
            metadata,
        ),
        !(state is Finished) ==> exists|next: VmcpEventView| is_awaited(state, next),
{
    match state {
        VmcpStateView::Start => {
            assert(is_awaited(state, VmcpEventView::Request));
        },
        VmcpStateView::Creating { .. } => {
            assert(is_awaited(state, VmcpEventView::Answer(Err(TransportFailureView::TimedOut))));
        },
        VmcpStateView::ReadingVmcp => {
            assert(is_awaited(state, VmcpEventView::Vmcp(Err(Seq::empty()))));
        },
        VmcpStateView::OpeningTransport => {
            assert(is_awaited(state, VmcpEventView::Transport(Ok(()))));
        },
        VmcpStateView::Initializing => {
            assert(is_awaited(state, VmcpEventView::Initialized(Ok(()))));
        },
        VmcpStateView::ListingTools => {
            assert(is_awaited(state, VmcpEventView::Tools(Ok(Seq::empty()))));
        },
        VmcpStateView::Finished => {},
    }
}

/// Once the work has ended, nothing changes any more.
pub proof fn finished_work_stays(
    filter: ManagerView,
    events: Seq<VmcpEventView>,
    metadata: Map<Seq<char>, Seq<char>>,
)
    ensures
        manage_all(filter, VmcpStateView::Finished, events, metadata) == (
            VmcpStateView::Finished,
            metadata,
        ),
    decreases events.len(),
{
    if events.len() > 0 {
        finished_work_stays(filter, events.skip(1), metadata);
    }
}

/// Whatever happens, the work leaves alone what stands under keys that are not its own.
pub proof fn management_keeps_other_keys(
    filter: ManagerView,
    state: VmcpStateView,
    events: Seq<VmcpEventView>,
    metadata: Map<Seq<char>, Seq<char>>,
    key: Seq<char>,
)
    requires
        !is_vmcp_key(key),
    ensures
        manage_all(filter, state, events, metadata).1.contains_key(key) == metadata.contains_key(
            key,
        ),
        metadata.contains_key(key) ==> manage_all(filter, state, events, metadata).1[key]
            == metadata[key],
    decreases events.len(),
{
    if events.len() > 0 {
        let next = manage(filter, state, events[0], metadata);
        management_keeps_other_keys(filter, next.0, events.skip(1), next.2, key);
    }
}

/// A request for which everything goes well ends with its server described and the server's
/// tools, as a chat completion request holds them, in the metadata.
pub proof fn fetched_tools_are_stored(
    filter: ManagerView,
    status: http::StatusCode,
    vmcp: VmcpView,
    tools: Seq<ToolView>,
    metadata: Map<Seq<char>, Seq<char>>,
)
    requires
        metadata.contains_key("env_id"@),
        crate::status::is_success_number(status_number(status)),
    ensures
        manage_all(
            filter,
            VmcpStateView::Start,
            seq![
                VmcpEventView::Request,
                VmcpEventView::Answer(Ok(status)),
                VmcpEventView::Vmcp(Ok(vmcp)),
                VmcpEventView::Transport(Ok(())),
                VmcpEventView::Initialized(Ok(())),
                VmcpEventView::Tools(Ok(tools)),
            ],
            metadata,
        ) == (VmcpStateView::Finished, with_tools(with_vmcp(metadata, vmcp), tools)),
{
    let events = seq![
        VmcpEventView::Request,
        VmcpEventView::Answer(Ok(status)),
        VmcpEventView::Vmcp(Ok(vmcp)),
        VmcpEventView::Transport(Ok(())),
        VmcpEventView::Initialized(Ok(())),
        VmcpEventView::Tools(Ok(tools)),
    ];
    reveal_with_fuel(manage_all, 7);
    assert(events.skip(1)[0] == events[1]);
    assert(events.skip(1).skip(1)[0] == events[2]);
    assert(events.skip(1).skip(1).skip(1)[0] == events[3]);
    assert(events.skip(1).skip(1).skip(1).skip(1)[0] == events[4]);
    assert(events.skip(1).skip(1).skip(1).skip(1).skip(1)[0] == events[5]);
}

/// Tools are read back from the metadata as they were stored, where their schemas can be read
/// back three levels further down.
pub proof fn stored_tools_read_back(tools: Seq<ToolView>)
    requires
        forall|i: int|
            0 <= i < tools.len() ==> reads_back(
                (#[trigger] tools[i]).input_schema,
                (nesting_limit() - 3) as nat,
            ),
    ensures
        reads_back(Json::Array(tool_jsons(tools)), nesting_limit()),
{
    let depth = nesting_limit();
    let list = tool_jsons(tools);
    assert forall|i: int| 0 <= i < list.len() implies reads_back(
        #[trigger] list[i],
        (depth - 1) as nat,
    ) by {
        let tool = tools[i];
        assert(list[i] == tool_json(tool));
        let function = Map::empty().insert("name"@, Json::Str(tool.name)).insert(
            "description"@,
            Json::Str(tool.description),
        ).insert("parameters"@, tool.input_schema);
        let object = Map::empty().insert("type"@, Json::Str("function"@)).insert(
            "function"@,
            Json::Object(function),
        );
        assert forall|key: Seq<char>| #[trigger] function.contains_key(key) implies reads_back(
            function[key],
            (depth - 3) as nat,
        ) by {}
        assert(reads_back(Json::Object(function), (depth - 2) as nat));
        assert forall|key: Seq<char>| #[trigger] object.contains_key(key) implies reads_back(
            object[key],
            (depth - 2) as nat,
        ) by {}
        assert(reads_back(Json::Object(object), (depth - 1) as nat));
    }
}

// ---- The same, step by step, read off the metadata and the answers alone ----

/// Settings, servers, tools and requests say exactly what stands in their fields.
pub proof fn data_says_what_it_holds(
    config: VmcpManagerConfig,
    vmcp: VmcpResponse,
    tool: McpTool,
    request: CreateRequest,
)
    ensures
        config@.store_base_url == config.store_base_url@,
        config@.vmcp_name_template == config.vmcp_name_template@,
        config@.timeout_ms == config.timeout_ms,
        config@.always_create == config.always_create,
        config@.cleanup_on_error == config.cleanup_on_error,
        vmcp@.uuid == vmcp.uuid@,
        vmcp@.name == vmcp.name@,
        vmcp@.port == vmcp.port,
        vmcp.runtime_tools is None ==> vmcp@.runtime_tools is None,
        vmcp.runtime_tools matches Some(value) ==> vmcp@.runtime_tools == Some(json_of(value)),
        tool@.name == tool.name@,
        tool@.description == tool.description@,
        tool@.input_schema == json_of(tool.input_schema),
        request@.url == request.url@,
        request@.timeout_ms == request.timeout_ms,
        request@.headers.len() == request.headers@.len(),
        forall|i: int|
            0 <= i < request.headers@.len() ==> #[trigger] request@.headers[i] == (
                request.headers@[i].0@,
                request.headers@[i].1@,
            ),
        request@.query.len() == request.query@.len(),
        forall|i: int|
            0 <= i < request.query@.len() ==> #[trigger] request@.query[i] == (
                request.query@[i].0@,
                request.query@[i].1@,
            ),
{
}

/// States, events and commands say exactly what they carry.
pub proof fn steps_say_what_they_carry(
    text: String,
    status: http::StatusCode,
    failure: TransportFailure,
    mcp_failure: McpFailure,
    vmcp: VmcpResponse,
    tools: Vec<McpTool>,
    request: CreateRequest,
    error: FilterError,
    timeout_ms: u64,
)
    ensures
        VmcpState::Start@ is Start,
        (VmcpState::Creating { name: text })@ == (VmcpStateView::Creating { name: text@ }),
        VmcpState::ReadingVmcp@ is ReadingVmcp,
        VmcpState::OpeningTransport@ is OpeningTransport,
        VmcpState::Initializing@ is Initializing,
        VmcpState::ListingTools@ is ListingTools,
        VmcpState::Finished@ is Finished,
        VmcpEvent::Request@ is Request,
        VmcpEvent::Answer(Ok(status))@ == VmcpEventView::Answer(Ok(status)),
        VmcpEvent::Answer(Err(failure))@ == VmcpEventView::Answer(Err(failure@)),
        VmcpEvent::Vmcp(Ok(vmcp))@ == VmcpEventView::Vmcp(Ok(vmcp@)),
        VmcpEvent::Vmcp(Err(text))@ == VmcpEventView::Vmcp(Err(text@)),
        VmcpEvent::Transport(Ok(()))@ == VmcpEventView::Transport(Ok(())),
        VmcpEvent::Transport(Err(text))@ == VmcpEventView::Transport(Err(text@)),
        VmcpEvent::Initialized(Ok(()))@ == VmcpEventView::Initialized(Ok(())),
        VmcpEvent::Initialized(Err(mcp_failure))@ == VmcpEventView::Initialized(Err(mcp_failure@)),
        VmcpEvent::Tools(Ok(tools))@ == VmcpEventView::Tools(Ok(tool_views(tools@))),
        VmcpEvent::Tools(Err(mcp_failure))@ == VmcpEventView::Tools(Err(mcp_failure@)),
        McpFailure::TimedOut@ is TimedOut,
        McpFailure::Failed(text)@ == McpFailureView::Failed(text@),
        VmcpCommand::Post(request)@ == VmcpCommandView::Post(request@),
        VmcpCommand::ReadVmcp@ is ReadVmcp,
        VmcpCommand::OpenTransport(text)@ == VmcpCommandView::OpenTransport(text@),
        (VmcpCommand::Initialize { client_name: text, timeout_ms })@ == (
        VmcpCommandView::Initialize { client_name: text@, timeout_ms }),
        (VmcpCommand::ListTools { timeout_ms })@ == (VmcpCommandView::ListTools { timeout_ms }),
        VmcpCommand::Continue@ is Continue,
        VmcpCommand::ContinueWithoutTools(error)@ == VmcpCommandView::ContinueWithoutTools(error@),
        VmcpCommand::Fail(error)@ == VmcpCommandView::Fail(error@),
        VmcpCommand::Ignore@ is Ignore,
{
}

/// A template that goes on with the placeholder from no position is the name of every server.
/// Else the environment stands in place of the first placeholder, what stands before that is
/// kept, and what stands after it is treated in the same way.
pub proof fn name_is_made_from_the_template(
    before: Seq<char>,
    after: Seq<char>,
    env_id: Seq<char>,
)
    ensures
        (forall|i: int|
            0 <= i <= before.len() ==> !"{env_id}"@.is_prefix_of(#[trigger] before.skip(i)))
            ==> vmcp_name(before, env_id) == before,
        (forall|i: int|
            0 <= i < before.len() ==> !"{env_id}"@.is_prefix_of(
                #[trigger] (before + "{env_id}"@ + after).skip(i),
            )) ==> vmcp_name(before + "{env_id}"@ + after, env_id) == before + env_id + vmcp_name(
            after,
            env_id,
        ),
        vmcp_name(before, env_id) == replace_all(before, "{env_id}"@, env_id),
{
    reveal_strlit("{env_id}");
    if forall|i: int|
        0 <= i <= before.len() ==> !"{env_id}"@.is_prefix_of(#[trigger] before.skip(i)) {
        replacing_keeps_text_without_the_pattern(before, "{env_id}"@, env_id);
    }
    if forall|i: int|
        0 <= i < before.len() ==> !"{env_id}"@.is_prefix_of(
            #[trigger] (before + "{env_id}"@ + after).skip(i),
        ) {
        replacing_starts_at_the_first_position(before, after, "{env_id}"@, env_id);
    }
}

/// For every filter, name and environment, and whether or not a skill is known: the request goes
/// to the store's address followed by `/vmcp_servers/`, with the environment in its one header.
/// The query has the server's name and a description with the environment, and, exactly where a
/// skill is known, the skill; nothing else.
pub proof fn creation_request_is_complete(
    filter: ManagerView,
    name: Seq<char>,
    skill_uuid: Option<Seq<char>>,
    env_id: Seq<char>,
)
    ensures
        ({
            let request = create_request(filter, name, skill_uuid, env_id);
            &&& filter.store_base_url.is_prefix_of(request.url)
            &&& request.url.skip(filter.store_base_url.len() as int) == "/vmcp_servers/"@
            &&& request.headers.len() == 1
            &&& request.headers[0].0 == "skillberry-context-env-id"@
            &&& request.headers[0].1 == env_id
            &&& request.query.len() == if skill_uuid is Some {
                3int
            } else {
                2int
            }
            &&& request.query[0].0 == "name"@
            &&& request.query[0].1 == name
            &&& request.query[1].0 == "description"@
            &&& request.query[1].1 == "VMCP server for environment "@ + env_id
            &&& skill_uuid is Some ==> request.query[2].0 == "skill_uuid"@
            &&& skill_uuid is Some ==> request.query[2].1 == skill_uuid->0
            &&& request.timeout_ms == filter.timeout_ms
        }),
{
    let request = create_request(filter, name, skill_uuid, env_id);
    assert(request.url.subrange(0, filter.store_base_url.len() as int) =~= filter.store_base_url);
    assert(request.url.skip(filter.store_base_url.len() as int) =~= "/vmcp_servers/"@);
}

/// A request with an environment asks the store for a server: at the store's address followed by
/// `/vmcp_servers/`, under the name that the template gives for the environment, and for the
/// skill that the metadata names, where it names one. Nothing is stored yet.
pub proof fn known_environment_gets_a_server(
    filter: ManagerView,
    metadata: Map<Seq<char>, Seq<char>>,
)
    requires
        metadata.contains_key("env_id"@),
    ensures
        ({
            let r = manage(filter, VmcpStateView::Start, VmcpEventView::Request, metadata);
            let name = replace_all(filter.vmcp_name_template, "{env_id}"@, metadata["env_id"@]);
            let request = r.1->Post_0;
            &&& r.0 == VmcpStateView::Creating { name }
            &&& r.1 is Post
            &&& r.2 == metadata
            &&& filter.store_base_url.is_prefix_of(request.url)
            &&& request.url.skip(filter.store_base_url.len() as int) == "/vmcp_servers/"@
            &&& request.headers.len() == 1
            &&& request.headers[0].0 == "skillberry-context-env-id"@
            &&& request.headers[0].1 == metadata["env_id"@]
            &&& request.query.len() == if metadata.contains_key("skill_uuid"@) {
                3int
            } else {
                2int
            }
            &&& request.query[0].0 == "name"@
            &&& request.query[0].1 == name
            &&& request.query[1].0 == "description"@
            &&& request.query[1].1 == "VMCP server for environment "@ + metadata["env_id"@]
            &&& metadata.contains_key("skill_uuid"@) ==> request.query[2].0 == "skill_uuid"@
            &&& metadata.contains_key("skill_uuid"@) ==> request.query[2].1
                == metadata["skill_uuid"@]
            &&& request.timeout_ms == filter.timeout_ms
        }),
{
    let env_id = metadata["env_id"@];
    creation_request_is_complete(
        filter,
        vmcp_name(filter.vmcp_name_template, env_id),
        skill_in(metadata),
        env_id,
    );
}

/// Without an environment the request fails with a message that names what is missing.
pub proof fn unknown_environment_fails_the_request(
    filter: ManagerView,
    metadata: Map<Seq<char>, Seq<char>>,
)
    requires
        !metadata.contains_key("env_id"@),
    ensures
        manage(filter, VmcpStateView::Start, VmcpEventView::Request, metadata) == (
            VmcpStateView::Finished,
            VmcpCommandView::Fail(
                "env_id is required in filter_metadata (set by context_extractor)"@,
            ),
            metadata,
        ),
{
}

/// An answer with a status from 200 up to 299 is read; nothing is stored yet.
pub proof fn successful_answer_is_read(
    filter: ManagerView,
    name: Seq<char>,
    status: http::StatusCode,
    metadata: Map<Seq<char>, Seq<char>>,
)
    requires
        200 <= status_number(status) <= 299,
    ensures
        creation_failure(name, filter.always_create, Ok(status)) is None,
        manage(
            filter,
            VmcpStateView::Creating { name },
            VmcpEventView::Answer(Ok(status)),
            metadata,
        ) == (VmcpStateView::ReadingVmcp, VmcpCommandView::ReadVmcp, metadata),
{
}

/// Without an answer with such a status the request fails, with nothing stored: for a server that
/// exists already by its name or as not yet implemented, for any other status by its number and
/// phrase, for a request without an answer by what became of it.
pub proof fn failed_creation_fails_by_its_reason(
    filter: ManagerView,
    name: Seq<char>,
    answer: Result<http::StatusCode, TransportFailureView>,
    metadata: Map<Seq<char>, Seq<char>>,
)
    requires
        answer is Ok ==> !(200 <= status_number(answer->Ok_0) <= 299),
    ensures
        ({
            let r = manage(
                filter,
                VmcpStateView::Creating { name },
                VmcpEventView::Answer(answer),
                metadata,
            );
            let message = r.1->Fail_0;
            &&& r.0 is Finished
            &&& r.1 is Fail
            &&& r.2 == metadata
            &&& creation_failure(name, filter.always_create, answer) == Some(message)
            &&& answer is Ok && status_number(answer->Ok_0) == 409 && filter.always_create
                ==> message == "VMCP '"@ + name + "' already exists"@
            &&& answer is Ok && status_number(answer->Ok_0) == 409 && !filter.always_create
                ==> message == "VMCP reuse not yet implemented"@
            &&& answer is Ok && status_number(answer->Ok_0) != 409 ==> message
                == "VMCP creation failed with status "@ + (decimal(
                status_number(answer->Ok_0) as nat,
            ) + " "@ + match reason_phrase(status_number(answer->Ok_0)) {
                Some(phrase) => phrase,
                None => "<unknown status code>"@,
            })
            &&& answer is Err && answer->Err_0 is TimedOut ==> message == "VMCP creation"@
                + " timed out"@
            &&& answer is Err && answer->Err_0 is Unreachable ==> message
                == "skillberry-store is unreachable"@
            &&& answer is Err && answer->Err_0 is Other ==> message == "VMCP creation"@
                + " failed: "@ + answer->Err_0->Other_0
        }),
{
}

/// An answer is judged by its status alone: a success is read, 409 says that the server exists
/// already, and anything else is reported as it is shown.
pub proof fn creation_is_judged_by_its_status(
    name: Seq<char>,
    always_create: bool,
    success: bool,
    number: u16,
    shown: Seq<char>,
)
    ensures
        status_failure(name, always_create, success, number, shown) is None <==> success,
        !success && number == 409 && always_create ==> status_failure(
            name,
            always_create,
            success,
            number,
            shown,
        ) == Some("VMCP '"@ + name + "' already exists"@),
        !success && number == 409 && !always_create ==> status_failure(
            name,
            always_create,
            success,
            number,
            shown,
        ) == Some("VMCP reuse not yet implemented"@),
        !success && number != 409 ==> status_failure(name, always_create, success, number, shown)
            == Some("VMCP creation failed with status "@ + shown),
{
}

/// A server that was read is described by its UUID, its name, its port and, exactly where the
/// store lists its tools, their number; nothing else is changed. The transport is opened to that
/// port on this machine.
pub proof fn read_server_is_described_and_reached(
    filter: ManagerView,
    vmcp: VmcpView,
    metadata: Map<Seq<char>, Seq<char>>,
)
    ensures
        ({
            let r = manage(
                filter,
                VmcpStateView::ReadingVmcp,
                VmcpEventView::Vmcp(Ok(vmcp)),
                metadata,
            );
            let counted = vmcp.runtime_tools is Some && vmcp.runtime_tools->0 is Array;
            &&& r.0 is OpeningTransport
            &&& r.1 == VmcpCommandView::OpenTransport(
                "http://localhost:"@ + decimal(vmcp.port as nat) + "/sse"@,
            )
            &&& r.2.contains_key("vmcp_uuid"@) && r.2["vmcp_uuid"@] == vmcp.uuid
            &&& r.2.contains_key("vmcp_name"@) && r.2["vmcp_name"@] == vmcp.name
            &&& r.2.contains_key("vmcp_port"@) && r.2["vmcp_port"@] == decimal(vmcp.port as nat)
            &&& counted ==> r.2.contains_key("vmcp_tools_count"@)
            &&& counted ==> r.2["vmcp_tools_count"@] == decimal(
                vmcp.runtime_tools->0->Array_0.len(),
            )
            &&& forall|key: Seq<char>|
                key != "vmcp_uuid"@ && key != "vmcp_name"@ && key != "vmcp_port"@ && (key
                    != "vmcp_tools_count"@ || !counted) ==> #[trigger] r.2.contains_key(key)
                    == metadata.contains_key(key)
            &&& forall|key: Seq<char>|
                key != "vmcp_uuid"@ && key != "vmcp_name"@ && key != "vmcp_port"@ && (key
                    != "vmcp_tools_count"@ || !counted) && metadata.contains_key(key)
                    ==> #[trigger] r.2[key] == metadata[key]
        }),
{
    lemma_vmcp_keys_differ();
}

/// A server that cannot be read fails the request, with the cause and with nothing stored.
pub proof fn unreadable_server_fails_the_request(
    filter: ManagerView,
    cause: Seq<char>,
    metadata: Map<Seq<char>, Seq<char>>,
)
    ensures
        manage(filter, VmcpStateView::ReadingVmcp, VmcpEventView::Vmcp(Err(cause)), metadata) == (
            VmcpStateView::Finished,
            VmcpCommandView::Fail("invalid VMCP response: "@ + cause),
            metadata,
        ),
{
}

/// Over an open transport the client is initialized, and an initialized client lists the tools,
/// each within the configured time. Nothing is stored by that.
pub proof fn tools_are_asked_for_in_turn(filter: ManagerView, metadata: Map<Seq<char>, Seq<char>>)
    ensures
        manage(filter, VmcpStateView::OpeningTransport, VmcpEventView::Transport(Ok(())), metadata)
            == (
            VmcpStateView::Initializing,
            VmcpCommandView::Initialize {
                client_name: "praxis-vmcp-manager"@,
                timeout_ms: filter.timeout_ms,
            },
            metadata,
        ),
        manage(filter, VmcpStateView::Initializing, VmcpEventView::Initialized(Ok(())), metadata)
            == (
            VmcpStateView::ListingTools,
            VmcpCommandView::ListTools { timeout_ms: filter.timeout_ms },
            metadata,
        ),
{
}

/// Whatever keeps the tools from being fetched, the request goes on without them, for that
/// reason, and with nothing stored.
pub proof fn missing_tools_are_reported_by_their_reason(
    filter: ManagerView,
    cause: Seq<char>,
    metadata: Map<Seq<char>, Seq<char>>,
)
    ensures
        manage(
            filter,
            VmcpStateView::OpeningTransport,
            VmcpEventView::Transport(Err(cause)),
            metadata,
        ) == (
            VmcpStateView::Finished,
            VmcpCommandView::ContinueWithoutTools("SSE transport start failed: "@ + cause),
            metadata,
        ),
        manage(
            filter,
            VmcpStateView::Initializing,
            VmcpEventView::Initialized(Err(McpFailureView::TimedOut)),
            metadata,
        ) == (
            VmcpStateView::Finished,
            VmcpCommandView::ContinueWithoutTools("MCP initialization timeout"@),
            metadata,
        ),
        manage(
            filter,
            VmcpStateView::Initializing,
            VmcpEventView::Initialized(Err(McpFailureView::Failed(cause))),
            metadata,
        ) == (
            VmcpStateView::Finished,
            VmcpCommandView::ContinueWithoutTools("MCP initialization failed: "@ + cause),
            metadata,
        ),
        manage(
            filter,
            VmcpStateView::ListingTools,
            VmcpEventView::Tools(Err(McpFailureView::TimedOut)),
            metadata,
        ) == (
            VmcpStateView::Finished,
            VmcpCommandView::ContinueWithoutTools("MCP list_tools timeout"@),
            metadata,
        ),
        manage(
            filter,
            VmcpStateView::ListingTools,
            VmcpEventView::Tools(Err(McpFailureView::Failed(cause))),
            metadata,
        ) == (
            VmcpStateView::Finished,
            VmcpCommandView::ContinueWithoutTools("MCP list_tools failed: "@ + cause),
            metadata,
        ),
{
}

proof fn lemma_function_keys_differ()
    ensures
        "type"@ != "function"@,
        "name"@ != "description"@,
        "name"@ != "parameters"@,
        "description"@ != "parameters"@,
{
    reveal_strlit("type");
    reveal_strlit("function");
    reveal_strlit("name");
    reveal_strlit("description");
    reveal_strlit("parameters");
    assert("type"@.len() < "function"@.len());
    assert("name"@.len() < "parameters"@.len());
    assert("parameters"@.len() < "description"@.len());
}

/// A tool becomes an object of the type `function` whose function has the tool's own name,
/// description and input schema; neither object has another member.
pub proof fn tool_becomes_a_function(tool: ToolView)
    ensures
        tool_json(tool) is Object,
        ({
            let object = tool_json(tool)->Object_0;
            let function = object["function"@]->Object_0;
            &&& object["type"@] == Json::Str("function"@)
            &&& object["function"@] is Object
            &&& function["name"@] == Json::Str(tool.name)
            &&& function["description"@] == Json::Str(tool.description)
            &&& function["parameters"@] == tool.input_schema
            &&& forall|key: Seq<char>| #[trigger]
                object.contains_key(key) <==> key == "type"@ || key == "function"@
            &&& forall|key: Seq<char>| #[trigger]
                function.contains_key(key) <==> key == "name"@ || key == "description"@ || key
                    == "parameters"@
        }),
{
    lemma_function_keys_differ();
}

/// A list of tools becomes a list of as many functions, none lost and none added: the one at any
/// place is of the type `function`, and has the name, the description and the input schema of
/// the tool at that place.
pub proof fn every_tool_becomes_a_function(tools: Seq<McpTool>, i: int)
    ensures
        tool_views(tools).len() == tools.len(),
        tool_jsons(tool_views(tools)).len() == tools.len(),
        0 <= i < tools.len() ==> tool_views(tools)[i] == tools[i]@,
        0 <= i < tools.len() ==> {
            let object = tool_jsons(tool_views(tools))[i]->Object_0;
            let function = object["function"@]->Object_0;
            &&& tool_jsons(tool_views(tools))[i] is Object
            &&& object["type"@] == Json::Str("function"@)
            &&& object["function"@] is Object
            &&& function["name"@] == Json::Str(tools[i].name@)
            &&& function["description"@] == Json::Str(tools[i].description@)
            &&& function["parameters"@] == json_of(tools[i].input_schema)
            &&& forall|key: Seq<char>| #[trigger]
                object.contains_key(key) <==> key == "type"@ || key == "function"@
            &&& forall|key: Seq<char>| #[trigger]
                function.contains_key(key) <==> key == "name"@ || key == "description"@ || key
                    == "parameters"@
        },
{
    if 0 <= i < tools.len() {
        tool_becomes_a_function(tools[i]@);
    }
}

/// What is stored for the tools that a server lists is the text of a list of functions, which is
/// the result: as many as the server lists, and the one at any place with the name, the
/// description and the input schema of the tool at that place. Nothing else is changed, and the
/// request goes on.
pub proof fn every_listed_tool_is_stored(
    filter: ManagerView,
    tools: Seq<ToolView>,
    metadata: Map<Seq<char>, Seq<char>>,
) -> (list: Seq<Json>)
    ensures
        ({
            let r = manage(
                filter,
                VmcpStateView::ListingTools,
                VmcpEventView::Tools(Ok(tools)),
                metadata,
            );
            &&& r.0 is Finished
            &&& r.1 is Continue
            &&& r.2.contains_key("mcp_tools"@)
            &&& r.2["mcp_tools"@] == json_text(Json::Array(list))
            &&& forall|key: Seq<char>|
                key != "mcp_tools"@ ==> #[trigger] r.2.contains_key(key) == metadata.contains_key(
                    key,
                )
            &&& forall|key: Seq<char>|
                key != "mcp_tools"@ && metadata.contains_key(key) ==> #[trigger] r.2[key]
                    == metadata[key]
        }),
        list == tool_jsons(tools),
        list.len() == tools.len(),
        forall|i: int|
            0 <= i < tools.len() ==> {
                &&& #[trigger] list[i] is Object
                &&& list[i]->Object_0["type"@] == Json::Str("function"@)
                &&& list[i]->Object_0["function"@] is Object
                &&& list[i]->Object_0["function"@]->Object_0["name"@] == Json::Str(tools[i].name)
                &&& list[i]->Object_0["function"@]->Object_0["description"@] == Json::Str(
                    tools[i].description,
                )
                &&& list[i]->Object_0["function"@]->Object_0["parameters"@] == tools[i].input_schema
                &&& forall|key: Seq<char>| #[trigger]
                    list[i]->Object_0.contains_key(key) <==> key == "type"@ || key == "function"@
                &&& forall|key: Seq<char>| #[trigger]
                    list[i]->Object_0["function"@]->Object_0.contains_key(key) <==> key == "name"@
                        || key == "description"@ || key == "parameters"@
            },
{
    let list = tool_jsons(tools);
    assert forall|i: int| 0 <= i < tools.len() implies {
        &&& #[trigger] list[i] is Object
        &&& list[i]->Object_0["type"@] == Json::Str("function"@)
        &&& list[i]->Object_0["function"@] is Object
        &&& list[i]->Object_0["function"@]->Object_0["name"@] == Json::Str(tools[i].name)
        &&& list[i]->Object_0["function"@]->Object_0["description"@] == Json::Str(
            tools[i].description,
        )
        &&& list[i]->Object_0["function"@]->Object_0["parameters"@] == tools[i].input_schema
        &&& forall|key: Seq<char>| #[trigger]
            list[i]->Object_0.contains_key(key) <==> key == "type"@ || key == "function"@
        &&& forall|key: Seq<char>| #[trigger]
            list[i]->Object_0["function"@]->Object_0.contains_key(key) <==> key == "name"@ || key
                == "description"@ || key == "parameters"@
    } by {
        assert(list[i] == tool_json(tools[i]));
        tool_becomes_a_function(tools[i]);
    }
    list
}

/// Any event but a request at the start and the outcome of what was last to be done leaves state
/// and metadata as they are.
pub proof fn other_events_change_nothing(
    filter: ManagerView,
    state: VmcpStateView,
    event: VmcpEventView,
    metadata: Map<Seq<char>, Seq<char>>,
)
    requires
        state is Start ==> !(event is Request),
        state is Creating ==> !(event is Answer),
        state is ReadingVmcp ==> !(event is Vmcp),
        state is OpeningTransport ==> !(event is Transport),
        state is Initializing ==> !(event is Initialized),
        state is ListingTools ==> !(event is Tools),
    ensures
        manage(filter, state, event, metadata) == (state, VmcpCommandView::Ignore, metadata),
{
}

} // verus!
