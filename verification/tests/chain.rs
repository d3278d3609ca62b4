use bytes::Bytes;
use http::{HeaderMap, HeaderValue, StatusCode};
use serde_json::Value;
use skillberry_praxis_filters::context_extractor::{
    ContextExtractorConfig, ContextExtractorFilter, HeaderExtractionRule,
};
use skillberry_praxis_filters::filter::{FilterAction, FilterError, HttpFilterContext};
use skillberry_praxis_filters::mcp_tools_enricher::{
    InvalidBodyBehavior, McpToolsEnricherConfig, McpToolsEnricherFilter,
};
use skillberry_praxis_filters::metadata::Metadata;
use skillberry_praxis_filters::skill_resolver::{
    SkillCommand, SkillEvent, SkillResolverConfig, SkillResolverFilter, SkillState,
};
use skillberry_praxis_filters::vmcp_manager::{
    CreateRequest, McpFailure, McpTool, VmcpCommand, VmcpEvent, VmcpManagerConfig,
    VmcpManagerFilter, VmcpResponse, VmcpState,
};

fn made<T>(r: Result<T, FilterError>) -> T {
    match r {
        Ok(made) => made,
        Err(error) => panic!("{}", error.message()),
    }
}

fn extractor() -> ContextExtractorFilter {
    made(ContextExtractorFilter::from_config(ContextExtractorConfig {
        headers: vec![HeaderExtractionRule {
            name: "x-skillberry-env-id".to_string(),
            metadata_key: "env_id".to_string(),
            default: Some("default-env".to_string()),
            required: true,
            pattern: Some("^[a-zA-Z0-9_-]+$".to_string()),
            max_length: Some(64),
        }],
        validation: None,
    }))
}

fn resolver() -> SkillResolverFilter {
    made(SkillResolverFilter::from_config(
        SkillResolverConfig {
            store_base_url: "http://localhost:8000".to_string(),
            skill_uuid_env: "SKILL_UUID".to_string(),
            skill_name_env: "SKILL_NAME".to_string(),
            timeout_ms: 5000,
        },
        Ok(()),
    ))
}

fn manager() -> VmcpManagerFilter {
    made(VmcpManagerFilter::from_config(
        VmcpManagerConfig {
            store_base_url: "http://localhost:8000".to_string(),
            vmcp_name_template: "vmcp-{env_id}".to_string(),
            timeout_ms: 10000,
            always_create: true,
            cleanup_on_error: false,
        },
        Ok(()),
    ))
}

fn enricher() -> McpToolsEnricherFilter {
    made(McpToolsEnricherFilter::from_config(
        McpToolsEnricherConfig {
            max_body_bytes: 10485760,
            on_invalid: InvalidBodyBehavior::Continue,
            tool_choice: "auto".to_string(),
        },
        Ok(()),
    ))
}

fn context(environment: Option<&str>) -> HttpFilterContext {
    let mut headers: HeaderMap<HeaderValue> = HeaderMap::new();
    if let Some(value) = environment {
        headers.insert("x-skillberry-env-id", HeaderValue::from_str(value).unwrap());
    }
    HttpFilterContext {
        request_headers: headers,
        filter_metadata: Metadata::new(),
        extra_request_headers: Vec::new(),
    }
}

/// The request to the store, once the environment and the skill have been found out.
fn request_to_store(ctx: &mut HttpFilterContext, skill_uuid: Option<&str>) -> CreateRequest {
    assert!(matches!(extractor().on_request(ctx), Ok(FilterAction::Continue)));
    let event = SkillEvent::Variable(skill_uuid.map(|uuid| uuid.to_string()));
    let (state, command) = resolver().on_request(SkillState::ReadingUuid, event, ctx);
    if skill_uuid.is_some() {
        assert!(matches!(command, SkillCommand::Continue));
    } else {
        let (_, command) = resolver().on_request(state, SkillEvent::Variable(None), ctx);
        assert!(matches!(command, SkillCommand::Continue));
    }
    let (_, command) = manager().on_request(VmcpState::Start, VmcpEvent::Request, ctx);
    match command {
        VmcpCommand::Post(request) => request,
        _ => panic!("a request to the store was expected"),
    }
}

#[test]
fn the_extracted_environment_reaches_the_store() {
    let mut ctx = context(Some("prod"));
    let request = request_to_store(&mut ctx, None);
    assert_eq!(
        request.headers,
        vec![("skillberry-context-env-id".to_string(), "prod".to_string())]
    );
    assert_eq!(request.query[0], ("name".to_string(), "vmcp-prod".to_string()));
    assert_eq!(request.query.len(), 2);

    let request = request_to_store(&mut context(None), None);
    assert_eq!(request.query[0], ("name".to_string(), "vmcp-default-env".to_string()));
}

#[test]
fn the_resolved_skill_reaches_the_store() {
    let request = request_to_store(&mut context(Some("prod")), Some("u-7"));
    assert_eq!(request.query[2], ("skill_uuid".to_string(), "u-7".to_string()));
}

#[test]
fn fetched_tools_are_injected() {
    let mut ctx = context(Some("prod"));
    request_to_store(&mut ctx, Some("u-7"));
    let manager = manager();
    let state = VmcpState::Creating { name: "vmcp-prod".to_string() };
    let (state, _) = manager.on_request(state, VmcpEvent::Answer(Ok(StatusCode::OK)), &mut ctx);
    let vmcp = VmcpResponse {
        uuid: "v".to_string(),
        name: "vmcp-prod".to_string(),
        port: 9010,
        skill_uuid: Some("u-7".to_string()),
        runtime_tools: None,
    };
    let (state, _) = manager.on_request(state, VmcpEvent::Vmcp(Ok(vmcp)), &mut ctx);
    let (state, _) = manager.on_request(state, VmcpEvent::Transport(Ok(())), &mut ctx);
    let (state, _) = manager.on_request(state, VmcpEvent::Initialized(Ok(())), &mut ctx);
    let schema: Value =
        serde_json::from_str("{\"type\":\"object\",\"max\":-3,\"note\":\"a \\\"b\\\"\"}").unwrap();
    let tools = vec![McpTool {
        name: "forecast".to_string(),
        description: "the weather\n".to_string(),
        input_schema: schema.clone(),
    }];
    let (_, command) = manager.on_request(state, VmcpEvent::Tools(Ok(tools)), &mut ctx);
    assert!(matches!(command, VmcpCommand::Continue));

    let mut body = Some(Bytes::from_static(b"{\"messages\":[],\"tools\":[{\"own\":1}]}"));
    let r = enricher().on_request_body(&mut ctx, &mut body, true);
    assert!(matches!(r, Ok(FilterAction::Continue)));
    let value: Value = serde_json::from_slice(&body.unwrap()).unwrap();
    assert_eq!(value["tools"].as_array().unwrap().len(), 2);
    assert_eq!(value["tools"][0]["own"], Value::from(1));
    assert_eq!(value["tools"][1]["type"], Value::from("function"));
    assert_eq!(value["tools"][1]["function"]["name"], Value::from("forecast"));
    assert_eq!(value["tools"][1]["function"]["description"], Value::from("the weather\n"));
    assert_eq!(value["tools"][1]["function"]["parameters"], schema);
    assert_eq!(value["tool_choice"], Value::from("auto"));
}

#[test]
fn without_tools_the_body_goes_on_as_it_is() {
    let mut ctx = context(Some("prod"));
    request_to_store(&mut ctx, None);
    let event = VmcpEvent::Tools(Err(McpFailure::TimedOut));
    let (_, command) = manager().on_request(VmcpState::ListingTools, event, &mut ctx);
    assert!(matches!(command, VmcpCommand::ContinueWithoutTools(_)));
    let mut body = Some(Bytes::from_static(b"{\"messages\":[]}"));
    let r = enricher().on_request_body(&mut ctx, &mut body, true);
    assert!(matches!(r, Ok(FilterAction::Continue)));
    assert_eq!(body, Some(Bytes::from_static(b"{\"messages\":[]}")));
    assert!(ctx.extra_request_headers.is_empty());
}

#[test]
fn schemas_read_back_down_to_the_deepest_level_that_is_read() {
    for (depth, readable) in [(124, true), (125, false)] {
        let text = format!("{}{}", "[".repeat(depth), "]".repeat(depth));
        let schema: Value = serde_json::from_str(&text).unwrap();
        let tools = vec![McpTool {
            name: "n".to_string(),
            description: "d".to_string(),
            input_schema: schema,
        }];
        let mut ctx = context(None);
        manager().on_request(VmcpState::ListingTools, VmcpEvent::Tools(Ok(tools)), &mut ctx);
        let mut body = Some(Bytes::from_static(b"{}"));
        let r = enricher().on_request_body(&mut ctx, &mut body, true);
        assert!(matches!(r, Ok(FilterAction::Continue)));
        assert_eq!(body != Some(Bytes::from_static(b"{}")), readable);
    }
}
