use bytes::Bytes;
use http::HeaderMap;
use serde_json::Value;
use skillberry_praxis_filters::filter::{
    BodyAccess, BodyMode, FilterAction, FilterError, HttpFilterContext,
};
use skillberry_praxis_filters::mcp_tools_enricher::{
    enrich_request_with_tools, invalid_body_action, InvalidBodyBehavior, McpToolsEnricherConfig,
    McpToolsEnricherFilter,
};
use skillberry_praxis_filters::metadata::Metadata;

fn filter(on_invalid: InvalidBodyBehavior) -> McpToolsEnricherFilter {
    let config = McpToolsEnricherConfig {
        max_body_bytes: 10485760,
        on_invalid,
        tool_choice: "auto".to_string(),
    };
    match McpToolsEnricherFilter::from_config(config, Ok(())) {
        Ok(filter) => filter,
        Err(error) => panic!("{}", error.message()),
    }
}

fn context(tools: Option<&str>) -> HttpFilterContext {
    let mut metadata = Metadata::new();
    if let Some(text) = tools {
        metadata.insert("mcp_tools".to_string(), text.to_string());
    }
    HttpFilterContext {
        request_headers: HeaderMap::new(),
        filter_metadata: metadata,
        extra_request_headers: vec![("x-first".to_string(), "1".to_string())],
    }
}

fn message<T>(r: Result<T, FilterError>) -> String {
    match r {
        Ok(_) => panic!("an error was expected"),
        Err(error) => error.message().clone(),
    }
}

fn goes_on(r: Result<FilterAction, FilterError>) -> bool {
    matches!(r, Ok(FilterAction::Continue))
}

fn json(text: &str) -> Value {
    serde_json::from_str(text).unwrap()
}

fn items(text: &str) -> Vec<Value> {
    serde_json::from_str(text).unwrap()
}

fn enriched(body: &str, tools: &str, tool_choice: &str) -> Value {
    let mut value = json(body);
    assert!(enrich_request_with_tools(&mut value, items(tools), tool_choice).is_ok());
    value
}

/// The body after the filter has seen it.
fn passed(tools: Option<&str>, body: &str) -> (Bytes, HttpFilterContext) {
    let mut ctx = context(tools);
    let mut body = Some(Bytes::from(body.as_bytes().to_vec()));
    let r = filter(InvalidBodyBehavior::Continue).on_request_body(&mut ctx, &mut body, true);
    assert!(goes_on(r));
    (body.unwrap(), ctx)
}

#[test]
fn settings_that_were_refused_give_no_filter() {
    let config = McpToolsEnricherConfig {
        max_body_bytes: 0,
        on_invalid: InvalidBodyBehavior::Continue,
        tool_choice: "auto".to_string(),
    };
    let refusal = FilterError::new("max_body_bytes is zero".to_string());
    assert_eq!(
        message(McpToolsEnricherFilter::from_config(config, Err(refusal))),
        "max_body_bytes is zero"
    );
}

#[test]
fn the_enricher_collects_bodies() {
    let filter = filter(InvalidBodyBehavior::Continue);
    assert_eq!(filter.name(), "mcp_tools_enricher");
    assert_eq!(filter.request_body_access(), BodyAccess::ReadWrite);
    assert_eq!(
        filter.request_body_mode(),
        BodyMode::StreamBuffer { max_bytes: Some(10485760) }
    );
    let mut ctx = context(Some("[]"));
    assert!(goes_on(filter.on_request(&mut ctx)));
    assert_eq!(ctx.filter_metadata.entries().len(), 1);
    assert_eq!(ctx.extra_request_headers.len(), 1);
}

#[test]
fn tools_are_added_to_a_request_without_any() {
    assert_eq!(
        enriched("{\"model\":\"m\"}", "[{\"type\":\"function\"}]", "auto"),
        json("{\"model\":\"m\",\"tool_choice\":\"auto\",\"tools\":[{\"type\":\"function\"}]}")
    );
}

#[test]
fn tools_follow_those_of_the_request() {
    assert_eq!(
        enriched("{\"tools\":[1,2]}", "[3,4]", "auto"),
        json("{\"tools\":[1,2,3,4],\"tool_choice\":\"auto\"}")
    );
}

#[test]
fn tools_that_are_no_list_are_replaced() {
    for own in ["null", "{}", "\"x\"", "7"] {
        assert_eq!(
            enriched(&format!("{{\"tools\":{}}}", own), "[3]", "auto"),
            json("{\"tools\":[3],\"tool_choice\":\"auto\"}")
        );
    }
}

#[test]
fn a_tool_choice_of_the_request_is_kept() {
    assert_eq!(
        enriched("{\"tool_choice\":\"none\"}", "[]", "auto"),
        json("{\"tool_choice\":\"none\",\"tools\":[]}")
    );
    assert_eq!(
        enriched("{\"tool_choice\":null}", "[]", "auto"),
        json("{\"tool_choice\":null,\"tools\":[]}")
    );
}

#[test]
fn other_members_are_kept() {
    let value = enriched("{\"a\":[1.5,true],\"b\":{\"tools\":1}}", "[9]", "required");
    assert_eq!(value["a"], json("[1.5,true]"));
    assert_eq!(value["b"], json("{\"tools\":1}"));
    assert_eq!(value["tool_choice"], json("\"required\""));
    assert_eq!(value.as_object().unwrap().len(), 4);
}

#[test]
fn enriching_twice_adds_both_lists_and_keeps_the_first_choice() {
    let mut twice = enriched("{\"tools\":[1]}", "[2]", "auto");
    assert!(enrich_request_with_tools(&mut twice, items("[3]"), "none").is_ok());
    assert_eq!(twice, enriched("{\"tools\":[1]}", "[2,3]", "auto"));
}

#[test]
fn only_an_object_can_be_enriched() {
    for body in ["[]", "null", "1", "\"x\"", "true"] {
        let mut value = json(body);
        assert_eq!(
            message(enrich_request_with_tools(&mut value, items("[1]"), "auto")),
            "request body is not a JSON object"
        );
        assert_eq!(value, json(body));
    }
}

#[test]
fn a_body_is_enriched_and_its_length_announced() {
    let (body, ctx) = passed(Some("[{\"type\":\"function\"}]"), "{ \"model\" : \"m\" }");
    let expected =
        "{\"model\":\"m\",\"tool_choice\":\"auto\",\"tools\":[{\"type\":\"function\"}]}";
    assert_eq!(&body[..], expected.as_bytes());
    assert_eq!(
        ctx.extra_request_headers,
        vec![
            ("x-first".to_string(), "1".to_string()),
            ("content-length".to_string(), expected.len().to_string()),
        ]
    );
    assert_eq!(ctx.filter_metadata.entries().len(), 1);
}

#[test]
fn the_announced_length_counts_bytes() {
    let (body, ctx) = passed(Some("[]"), "{\"m\":\"\u{e9}\"}");
    let expected = "{\"m\":\"\u{e9}\",\"tool_choice\":\"auto\",\"tools\":[]}";
    assert_eq!(&body[..], expected.as_bytes());
    assert_eq!(expected.len(), expected.chars().count() + 1);
    assert_eq!(ctx.extra_request_headers[1].1, expected.len().to_string());
}

#[test]
fn a_body_is_left_alone_until_it_is_whole() {
    let mut ctx = context(Some("[1]"));
    let mut body = Some(Bytes::from_static(b"{}"));
    let filter = filter(InvalidBodyBehavior::Reject);
    assert!(goes_on(filter.on_request_body(&mut ctx, &mut body, false)));
    assert_eq!(body, Some(Bytes::from_static(b"{}")));
    assert_eq!(ctx.extra_request_headers.len(), 1);
}

#[test]
fn a_request_without_a_body_goes_on() {
    let mut ctx = context(Some("[1]"));
    let mut body: Option<Bytes> = None;
    let filter = filter(InvalidBodyBehavior::Reject);
    assert!(goes_on(filter.on_request_body(&mut ctx, &mut body, true)));
    assert_eq!(body, None);
    assert_eq!(ctx.extra_request_headers.len(), 1);
}

#[test]
fn a_body_is_left_alone_without_tools() {
    for tools in [None, Some("{}"), Some("not json"), Some("[1"), Some("")] {
        let (body, ctx) = passed(tools, "not json either");
        assert_eq!(&body[..], b"not json either");
        assert_eq!(ctx.extra_request_headers.len(), 1);
    }
}

#[test]
fn a_body_that_is_not_json_goes_on_or_is_rejected() {
    let (body, ctx) = passed(Some("[1]"), "{");
    assert_eq!(&body[..], b"{");
    assert_eq!(ctx.extra_request_headers.len(), 1);

    let mut ctx = context(Some("[1]"));
    let mut body = Some(Bytes::from_static(b"{"));
    match filter(InvalidBodyBehavior::Reject).on_request_body(&mut ctx, &mut body, true) {
        Ok(FilterAction::Reject(rejection)) => {
            assert_eq!(rejection.status, 400);
            assert_eq!(
                rejection.headers,
                vec![("content-type".to_string(), "text/plain".to_string())]
            );
            assert_eq!(rejection.body, "invalid JSON body");
        }
        _ => panic!("a rejection was expected"),
    }
    assert_eq!(body, Some(Bytes::from_static(b"{")));
    assert_eq!(ctx.extra_request_headers.len(), 1);
}

#[test]
fn a_body_that_is_no_object_is_an_error() {
    let mut ctx = context(Some("[1]"));
    let mut body = Some(Bytes::from_static(b"[]"));
    let r = filter(InvalidBodyBehavior::Continue).on_request_body(&mut ctx, &mut body, true);
    assert_eq!(message(r), "request body is not a JSON object");
    assert_eq!(body, Some(Bytes::from_static(b"[]")));
    assert_eq!(ctx.extra_request_headers.len(), 1);
}

#[test]
fn an_invalid_body_is_dealt_with_as_configured() {
    assert!(matches!(
        invalid_body_action(InvalidBodyBehavior::Continue, "m"),
        FilterAction::Continue
    ));
    assert!(matches!(
        invalid_body_action(InvalidBodyBehavior::Reject, "m"),
        FilterAction::Reject(rejection) if rejection.status == 400 && rejection.body == "m"
    ));
}

#[test]
fn an_enriched_body_reads_back() {
    let nested = format!("{}{}", "[".repeat(125), "]".repeat(125));
    let (body, _) = passed(Some("[]"), &format!("{{\"a\":{}}}", nested));
    let value: Value = serde_json::from_slice(&body).unwrap();
    assert_eq!(value["a"], json(&nested));
}
