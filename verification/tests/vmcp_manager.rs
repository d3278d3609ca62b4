use http::{HeaderMap, StatusCode};
use serde_json::Value;
use skillberry_praxis_filters::filter::{BodyAccess, BodyMode, FilterError, HttpFilterContext};
use skillberry_praxis_filters::metadata::Metadata;
use skillberry_praxis_filters::store::TransportFailure;
use skillberry_praxis_filters::vmcp_manager::{
    judge_creation_answer, judge_creation_status, tool_value, tool_values, McpFailure, McpTool,
    VmcpCommand, VmcpEvent, VmcpManagerConfig, VmcpManagerFilter, VmcpResponse, VmcpState,
};

fn config(template: &str, always_create: bool) -> VmcpManagerConfig {
    VmcpManagerConfig {
        store_base_url: "http://localhost:8000".to_string(),
        vmcp_name_template: template.to_string(),
        timeout_ms: 10000,
        always_create,
        cleanup_on_error: false,
    }
}

fn filter_with(template: &str, always_create: bool) -> VmcpManagerFilter {
    match VmcpManagerFilter::from_config(config(template, always_create), Ok(())) {
        Ok(filter) => filter,
        Err(error) => panic!("{}", error.message()),
    }
}

fn filter() -> VmcpManagerFilter {
    filter_with("vmcp-{env_id}", true)
}

fn context(pairs: &[(&str, &str)]) -> HttpFilterContext {
    let mut metadata = Metadata::new();
    for (key, value) in pairs {
        metadata.insert(key.to_string(), value.to_string());
    }
    HttpFilterContext {
        request_headers: HeaderMap::new(),
        filter_metadata: metadata,
        extra_request_headers: Vec::new(),
    }
}

fn message<T>(r: Result<T, FilterError>) -> String {
    match r {
        Ok(_) => panic!("an error was expected"),
        Err(error) => error.message().clone(),
    }
}

fn entries(ctx: &HttpFilterContext) -> Vec<(&str, &str)> {
    ctx.filter_metadata.entries().iter().map(|(k, v)| (k.as_str(), v.as_str())).collect()
}

fn text_pairs(pairs: &[(String, String)]) -> Vec<(&str, &str)> {
    pairs.iter().map(|(k, v)| (k.as_str(), v.as_str())).collect()
}

fn json(text: &str) -> Value {
    serde_json::from_str(text).unwrap()
}

fn tool(name: &str) -> McpTool {
    McpTool {
        name: name.to_string(),
        description: format!("does {}", name),
        input_schema: json("{\"type\":\"object\",\"required\":[\"city\"]}"),
    }
}

fn server(runtime_tools: Option<Value>) -> VmcpResponse {
    VmcpResponse {
        uuid: "v-1".to_string(),
        name: "vmcp-prod".to_string(),
        port: 9010,
        skill_uuid: None,
        runtime_tools,
    }
}

fn creating() -> VmcpState {
    VmcpState::Creating { name: "vmcp-prod".to_string() }
}

fn failure(command: VmcpCommand) -> String {
    match command {
        VmcpCommand::Fail(error) => error.message().clone(),
        _ => panic!("a failure was expected"),
    }
}

fn lack_of_tools(command: VmcpCommand) -> String {
    match command {
        VmcpCommand::ContinueWithoutTools(error) => error.message().clone(),
        _ => panic!("the request was expected to go on without tools"),
    }
}

#[test]
fn the_manager_needs_a_store_address() {
    let mut c = config("x", true);
    c.store_base_url = String::new();
    assert_eq!(
        message(VmcpManagerFilter::from_config(c, Ok(()))),
        "vmcp_manager: 'store_base_url' must not be empty"
    );
}

#[test]
fn the_manager_needs_a_client() {
    assert_eq!(
        message(VmcpManagerFilter::from_config(config("x", true), Err("no TLS".to_string()))),
        "vmcp_manager: failed to create HTTP client: no TLS"
    );
}

#[test]
fn the_manager_leaves_bodies_alone() {
    assert_eq!(filter().name(), "vmcp_manager");
    assert_eq!(filter().request_body_access(), BodyAccess::NoAccess);
    assert_eq!(filter().request_body_mode(), BodyMode::Stream);
}

#[test]
fn a_server_is_named_after_the_environment() {
    assert_eq!(filter().generate_vmcp_name("prod"), "vmcp-prod");
    assert_eq!(filter_with("fixed", true).generate_vmcp_name("prod"), "fixed");
    assert_eq!(
        filter_with("{env_id}/{env_id}!", true).generate_vmcp_name("a"),
        "a/a!"
    );
    assert_eq!(filter().generate_vmcp_name("{env_id}"), "vmcp-{env_id}");
    assert_eq!(filter_with("", true).generate_vmcp_name("a"), "");
}

#[test]
fn a_request_without_an_environment_fails() {
    let mut ctx = context(&[("skill_uuid", "u")]);
    let (state, command) = filter().on_request(VmcpState::Start, VmcpEvent::Request, &mut ctx);
    assert!(matches!(state, VmcpState::Finished));
    assert_eq!(
        failure(command),
        "env_id is required in filter_metadata (set by context_extractor)"
    );
    assert_eq!(entries(&ctx), vec![("skill_uuid", "u")]);
}

#[test]
fn the_store_is_asked_for_a_server() {
    let mut ctx = context(&[("env_id", "prod")]);
    let (state, command) = filter().on_request(VmcpState::Start, VmcpEvent::Request, &mut ctx);
    assert!(matches!(state, VmcpState::Creating { name } if name == "vmcp-prod"));
    match command {
        VmcpCommand::Post(request) => {
            assert_eq!(request.url, "http://localhost:8000/vmcp_servers/");
            assert_eq!(
                text_pairs(&request.headers),
                vec![("skillberry-context-env-id", "prod")]
            );
            assert_eq!(
                text_pairs(&request.query),
                vec![
                    ("name", "vmcp-prod"),
                    ("description", "VMCP server for environment prod"),
                ]
            );
            assert_eq!(request.timeout_ms, 10000);
        }
        _ => panic!("a request to the store was expected"),
    }
}

#[test]
fn a_known_skill_is_told_to_the_store() {
    let uuid = "u-1".to_string();
    let request = filter().create_vmcp_server("n", Some(&uuid), "e");
    assert_eq!(
        text_pairs(&request.query),
        vec![
            ("name", "n"),
            ("description", "VMCP server for environment e"),
            ("skill_uuid", "u-1"),
        ]
    );
}

#[test]
fn a_server_that_exists_already_is_an_error() {
    let mut ctx = context(&[("env_id", "prod")]);
    let event = VmcpEvent::Answer(Ok(StatusCode::CONFLICT));
    let (state, command) = filter().on_request(creating(), event, &mut ctx);
    assert!(matches!(state, VmcpState::Finished));
    assert_eq!(failure(command), "VMCP 'vmcp-prod' already exists");
    let event = VmcpEvent::Answer(Ok(StatusCode::CONFLICT));
    let (_, command) = filter_with("x", false).on_request(creating(), event, &mut ctx);
    assert_eq!(failure(command), "VMCP reuse not yet implemented");
    assert_eq!(entries(&ctx), vec![("env_id", "prod")]);
}

#[test]
fn a_creation_with_another_status_is_an_error() {
    assert_eq!(
        message(judge_creation_answer("n", true, Ok(StatusCode::BAD_GATEWAY))),
        "VMCP creation failed with status 502 Bad Gateway"
    );
    assert_eq!(
        message(judge_creation_answer("n", true, Ok(StatusCode::from_u16(799).unwrap()))),
        "VMCP creation failed with status 799 <unknown status code>"
    );
    assert!(judge_creation_answer("n", true, Ok(StatusCode::CREATED)).is_ok());
}

#[test]
fn a_creation_is_judged_by_its_status() {
    assert!(judge_creation_status("n", true, true, 200, "200 OK").is_ok());
    assert_eq!(
        message(judge_creation_status("n", true, false, 409, "x")),
        "VMCP 'n' already exists"
    );
    assert_eq!(
        message(judge_creation_status("n", false, false, 409, "x")),
        "VMCP reuse not yet implemented"
    );
    assert_eq!(
        message(judge_creation_status("n", false, false, 404, "404 Not Found")),
        "VMCP creation failed with status 404 Not Found"
    );
}

#[test]
fn a_creation_without_an_answer_is_an_error() {
    assert_eq!(
        message(judge_creation_answer("n", true, Err(TransportFailure::TimedOut))),
        "VMCP creation timed out"
    );
    assert_eq!(
        message(judge_creation_answer("n", true, Err(TransportFailure::Unreachable))),
        "skillberry-store is unreachable"
    );
    let other = TransportFailure::Other("reset".to_string());
    assert_eq!(message(judge_creation_answer("n", true, Err(other))), "VMCP creation failed: reset");
}

#[test]
fn a_server_that_cannot_be_read_is_an_error() {
    let mut ctx = context(&[("env_id", "prod")]);
    let event = VmcpEvent::Vmcp(Err("missing field `port`".to_string()));
    let (state, command) = filter().on_request(VmcpState::ReadingVmcp, event, &mut ctx);
    assert!(matches!(state, VmcpState::Finished));
    assert_eq!(failure(command), "invalid VMCP response: missing field `port`");
    assert_eq!(entries(&ctx), vec![("env_id", "prod")]);
}

#[test]
fn a_new_server_is_put_into_the_metadata() {
    let mut ctx = context(&[("env_id", "prod")]);
    let event = VmcpEvent::Vmcp(Ok(server(Some(json("[1,{},null]")))));
    let (state, command) = filter().on_request(VmcpState::ReadingVmcp, event, &mut ctx);
    assert!(matches!(state, VmcpState::OpeningTransport));
    assert!(
        matches!(command, VmcpCommand::OpenTransport(url) if url == "http://localhost:9010/sse")
    );
    assert_eq!(
        entries(&ctx),
        vec![
            ("env_id", "prod"),
            ("vmcp_uuid", "v-1"),
            ("vmcp_name", "vmcp-prod"),
            ("vmcp_port", "9010"),
            ("vmcp_tools_count", "3"),
        ]
    );
}

#[test]
fn tools_are_counted_only_in_a_list() {
    for runtime_tools in [None, Some(json("{}")), Some(json("null")), Some(json("\"[]\""))] {
        let mut ctx = context(&[]);
        let event = VmcpEvent::Vmcp(Ok(server(runtime_tools)));
        filter().on_request(VmcpState::ReadingVmcp, event, &mut ctx);
        assert_eq!(ctx.filter_metadata.get("vmcp_tools_count"), None);
        assert_eq!(ctx.filter_metadata.get("vmcp_uuid"), Some(&"v-1".to_string()));
    }
    let mut ctx = context(&[]);
    let event = VmcpEvent::Vmcp(Ok(server(Some(json("[]")))));
    filter().on_request(VmcpState::ReadingVmcp, event, &mut ctx);
    assert_eq!(ctx.filter_metadata.get("vmcp_tools_count"), Some(&"0".to_string()));
}

#[test]
fn tools_are_fetched_step_by_step() {
    let filter = filter();
    let mut ctx = context(&[("env_id", "prod")]);
    let (state, command) = filter.on_request(
        VmcpState::OpeningTransport,
        VmcpEvent::Transport(Ok(())),
        &mut ctx,
    );
    assert!(matches!(
        command,
        VmcpCommand::Initialize { client_name, timeout_ms: 10000 }
            if client_name == "praxis-vmcp-manager"
    ));
    let (state, command) =
        filter.on_request(state, VmcpEvent::Initialized(Ok(())), &mut ctx);
    assert!(matches!(command, VmcpCommand::ListTools { timeout_ms: 10000 }));
    assert_eq!(entries(&ctx), vec![("env_id", "prod")]);
    let event = VmcpEvent::Tools(Ok(vec![tool("forecast")]));
    let (state, command) = filter.on_request(state, event, &mut ctx);
    assert!(matches!(state, VmcpState::Finished));
    assert!(matches!(command, VmcpCommand::Continue));
    assert_eq!(
        entries(&ctx),
        vec![
            ("env_id", "prod"),
            (
                "mcp_tools",
                "[{\"function\":{\"description\":\"does forecast\",\"name\":\"forecast\",\
                 \"parameters\":{\"required\":[\"city\"],\"type\":\"object\"}},\
                 \"type\":\"function\"}]"
            ),
        ]
    );
}

#[test]
fn a_server_without_tools_gives_an_empty_list() {
    let mut ctx = context(&[]);
    let event = VmcpEvent::Tools(Ok(Vec::new()));
    let (_, command) = filter().on_request(VmcpState::ListingTools, event, &mut ctx);
    assert!(matches!(command, VmcpCommand::Continue));
    assert_eq!(entries(&ctx), vec![("mcp_tools", "[]")]);
}

#[test]
fn tools_that_are_not_to_be_had_do_not_fail_the_request() {
    let cases = vec![
        (
            VmcpState::OpeningTransport,
            VmcpEvent::Transport(Err("refused".to_string())),
            "SSE transport start failed: refused",
        ),
        (
            VmcpState::Initializing,
            VmcpEvent::Initialized(Err(McpFailure::TimedOut)),
            "MCP initialization timeout",
        ),
        (
            VmcpState::Initializing,
            VmcpEvent::Initialized(Err(McpFailure::Failed("bad version".to_string()))),
            "MCP initialization failed: bad version",
        ),
        (
            VmcpState::ListingTools,
            VmcpEvent::Tools(Err(McpFailure::TimedOut)),
            "MCP list_tools timeout",
        ),
        (
            VmcpState::ListingTools,
            VmcpEvent::Tools(Err(McpFailure::Failed("closed".to_string()))),
            "MCP list_tools failed: closed",
        ),
    ];
    for (state, event, expected) in cases {
        let mut ctx = context(&[("env_id", "prod"), ("vmcp_port", "9010")]);
        let (state, command) = filter().on_request(state, event, &mut ctx);
        assert!(matches!(state, VmcpState::Finished));
        assert_eq!(lack_of_tools(command), expected);
        assert_eq!(entries(&ctx), vec![("env_id", "prod"), ("vmcp_port", "9010")]);
    }
}

#[test]
fn the_work_ignores_events_it_does_not_wait_for() {
    let mut ctx = context(&[("env_id", "prod")]);
    let event = VmcpEvent::Tools(Ok(vec![tool("a")]));
    let (state, command) = filter().on_request(VmcpState::Start, event, &mut ctx);
    assert!(matches!(state, VmcpState::Start));
    assert!(matches!(command, VmcpCommand::Ignore));
    let (state, command) = filter().on_request(VmcpState::Finished, VmcpEvent::Request, &mut ctx);
    assert!(matches!(state, VmcpState::Finished));
    assert!(matches!(command, VmcpCommand::Ignore));
    assert_eq!(entries(&ctx), vec![("env_id", "prod")]);
}

#[test]
fn a_tool_is_turned_into_a_function() {
    assert_eq!(
        tool_value(tool("forecast")),
        json(
            "{\"type\":\"function\",\"function\":{\"name\":\"forecast\",\
             \"description\":\"does forecast\",\
             \"parameters\":{\"type\":\"object\",\"required\":[\"city\"]}}}"
        )
    );
}

#[test]
fn tools_keep_their_order() {
    let values = tool_values(vec![tool("b"), tool("a"), tool("b")]);
    let names: Vec<&str> =
        values.iter().map(|value| value["function"]["name"].as_str().unwrap()).collect();
    assert_eq!(names, vec!["b", "a", "b"]);
}
