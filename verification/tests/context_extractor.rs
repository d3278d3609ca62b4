use http::{HeaderMap, HeaderValue};
use skillberry_praxis_filters::context_extractor::{
    take_value, validate_value, ContextExtractorConfig, ContextExtractorFilter,
    HeaderExtractionRule, ValidationRules,
};
use skillberry_praxis_filters::filter::{
    BodyAccess, BodyMode, FilterAction, FilterError, HttpFilterContext,
};
use skillberry_praxis_filters::headers::read_header;
use skillberry_praxis_filters::metadata::Metadata;

fn rule(name: &str, key: &str) -> HeaderExtractionRule {
    HeaderExtractionRule {
        name: name.to_string(),
        metadata_key: key.to_string(),
        default: None,
        required: false,
        pattern: None,
        max_length: None,
    }
}

fn environment_rule() -> HeaderExtractionRule {
    HeaderExtractionRule {
        name: "x-skillberry-env-id".to_string(),
        metadata_key: "env_id".to_string(),
        default: Some("default-env".to_string()),
        required: true,
        pattern: Some("^[a-zA-Z0-9_-]+$".to_string()),
        max_length: Some(64),
    }
}

fn user_rule() -> HeaderExtractionRule {
    HeaderExtractionRule {
        name: "x-skillberry-user-id".to_string(),
        metadata_key: "user_id".to_string(),
        default: Some("anonymous".to_string()),
        required: false,
        pattern: Some("^[a-zA-Z0-9_-]+$".to_string()),
        max_length: Some(64),
    }
}

fn session_rule() -> HeaderExtractionRule {
    HeaderExtractionRule {
        name: "x-skillberry-session-id".to_string(),
        metadata_key: "session_id".to_string(),
        default: None,
        required: false,
        pattern: Some("^[a-zA-Z0-9_-]+$".to_string()),
        max_length: Some(128),
    }
}

fn try_filter(
    headers: Vec<HeaderExtractionRule>,
    validation: Option<ValidationRules>,
) -> Result<ContextExtractorFilter, FilterError> {
    ContextExtractorFilter::from_config(ContextExtractorConfig { headers, validation })
}

fn filter(
    headers: Vec<HeaderExtractionRule>,
    validation: Option<ValidationRules>,
) -> ContextExtractorFilter {
    match try_filter(headers, validation) {
        Ok(filter) => filter,
        Err(error) => panic!("{}", error.message()),
    }
}

fn context(pairs: &[(&'static str, &str)]) -> HttpFilterContext {
    let mut headers: HeaderMap<HeaderValue> = HeaderMap::new();
    for (name, value) in pairs {
        headers.append(*name, HeaderValue::from_str(value).unwrap());
    }
    HttpFilterContext {
        request_headers: headers,
        filter_metadata: Metadata::new(),
        extra_request_headers: Vec::new(),
    }
}

fn message<T>(r: Result<T, FilterError>) -> String {
    match r {
        Ok(_) => panic!("an error was expected"),
        Err(error) => error.message().clone(),
    }
}

fn goes_on(r: Result<FilterAction, FilterError>) -> bool {
    matches!(r, Ok(FilterAction::Continue))
}

fn stored(ctx: &HttpFilterContext, key: &str) -> Option<String> {
    ctx.filter_metadata.get(key).cloned()
}

#[test]
fn settings_without_headers_are_refused() {
    assert_eq!(
        message(try_filter(Vec::new(), None)),
        "context_extractor: 'headers' must not be empty"
    );
}

#[test]
fn settings_with_an_illegal_header_name_are_refused() {
    for name in ["bad name", "", "x:y", "\u{e9}", "a\"b"] {
        assert_eq!(
            message(try_filter(vec![rule("x-good", "a"), rule(name, "b")], None)),
            format!("context_extractor: invalid header name '{}': invalid HTTP header name", name)
        );
    }
}

#[test]
fn settings_with_unusual_but_legal_header_names_are_accepted() {
    for name in ["X-Upper", "a", "!#$%&'*+-.^_`|~09", "x_under"] {
        assert!(try_filter(vec![rule(name, "a")], None).is_ok());
    }
    assert!(try_filter(vec![rule(&"a".repeat(65535), "a")], None).is_ok());
    assert!(try_filter(vec![rule(&"a".repeat(65536), "a")], None).is_err());
}

#[test]
fn settings_with_a_pattern_that_does_not_compile_are_refused() {
    let mut bad = rule("x-a", "a");
    bad.pattern = Some("[".to_string());
    let cause = regex::Regex::new("[").unwrap_err();
    assert_eq!(
        message(try_filter(vec![bad], None)),
        format!("context_extractor: invalid regex pattern '[' for header 'x-a': {}", cause)
    );
}

#[test]
fn settings_with_a_global_pattern_that_does_not_compile_are_refused() {
    let validation = ValidationRules { pattern: Some("(".to_string()), max_length: None };
    let cause = regex::Regex::new("(").unwrap_err();
    assert_eq!(
        message(try_filter(vec![rule("x-a", "a")], Some(validation))),
        format!("context_extractor: invalid global validation pattern '(': {}", cause)
    );
}

#[test]
fn a_header_name_is_checked_before_its_pattern_and_rules_before_the_global_pattern() {
    let mut bad = rule("bad name", "a");
    bad.pattern = Some("[".to_string());
    let validation = ValidationRules { pattern: Some("(".to_string()), max_length: None };
    assert_eq!(
        message(try_filter(vec![bad], Some(validation))),
        "context_extractor: invalid header name 'bad name': invalid HTTP header name"
    );
}

#[test]
fn headers_are_extracted_into_the_metadata() {
    let filter = filter(vec![environment_rule(), user_rule(), session_rule()], None);
    let mut ctx = context(&[
        ("x-skillberry-env-id", "prod_1"),
        ("x-skillberry-session-id", "s-9"),
    ]);
    assert!(goes_on(filter.on_request(&mut ctx)));
    assert_eq!(stored(&ctx, "env_id"), Some("prod_1".to_string()));
    assert_eq!(stored(&ctx, "user_id"), Some("anonymous".to_string()));
    assert_eq!(stored(&ctx, "session_id"), Some("s-9".to_string()));
    assert_eq!(ctx.filter_metadata.entries().len(), 3);
    assert_eq!(ctx.request_headers.len(), 2);
    assert!(ctx.extra_request_headers.is_empty());
}

#[test]
fn a_default_takes_the_place_of_an_absent_required_header() {
    let filter = filter(vec![environment_rule(), session_rule()], None);
    let mut ctx = context(&[]);
    assert!(goes_on(filter.on_request(&mut ctx)));
    assert_eq!(stored(&ctx, "env_id"), Some("default-env".to_string()));
    assert_eq!(stored(&ctx, "session_id"), None);
}

#[test]
fn a_missing_required_header_is_an_error() {
    let mut needed = rule("x-needed", "needed");
    needed.required = true;
    let filter = filter(vec![rule("x-a", "a"), needed, rule("x-b", "b")], None);
    let mut ctx = context(&[("x-a", "1"), ("x-b", "2")]);
    assert_eq!(
        message(filter.on_request(&mut ctx)),
        "context_extractor: required header 'x-needed' is missing"
    );
    // What the rules before it have stored stays; the rules after it are not applied.
    assert_eq!(stored(&ctx, "a"), Some("1".to_string()));
    assert_eq!(stored(&ctx, "b"), None);
}

#[test]
fn an_absent_optional_header_is_skipped() {
    let filter = filter(vec![rule("x-a", "a")], None);
    let mut ctx = context(&[]);
    ctx.filter_metadata.insert("other".to_string(), "kept".to_string());
    assert!(goes_on(filter.on_request(&mut ctx)));
    assert_eq!(ctx.filter_metadata.entries().len(), 1);
    assert_eq!(stored(&ctx, "other"), Some("kept".to_string()));
}

#[test]
fn values_are_limited_in_bytes() {
    let filter = filter(vec![environment_rule()], None);
    let mut ctx = context(&[("x-skillberry-env-id", &"a".repeat(64))]);
    assert!(goes_on(filter.on_request(&mut ctx)));
    let mut ctx = context(&[("x-skillberry-env-id", &"a".repeat(65))]);
    assert_eq!(
        message(filter.on_request(&mut ctx)),
        "context_extractor: header 'x-skillberry-env-id' value exceeds max_length 64 (got 65)"
    );
    assert_eq!(stored(&ctx, "env_id"), None);
}

#[test]
fn values_have_to_match_the_pattern() {
    let filter = filter(vec![environment_rule()], None);
    let mut ctx = context(&[("x-skillberry-env-id", "not allowed")]);
    assert_eq!(
        message(filter.on_request(&mut ctx)),
        "context_extractor: header 'x-skillberry-env-id' value does not match required pattern"
    );
}

#[test]
fn a_pattern_may_match_anywhere_in_the_value() {
    let mut r = rule("x-a", "a");
    r.pattern = Some("[0-9]".to_string());
    let filter = filter(vec![r], None);
    let mut ctx = context(&[("x-a", "abc5def")]);
    assert!(goes_on(filter.on_request(&mut ctx)));
    let mut ctx = context(&[("x-a", "abcdef")]);
    assert!(filter.on_request(&mut ctx).is_err());
}

#[test]
fn defaults_are_checked_too() {
    let mut r = rule("x-a", "a");
    r.default = Some("too long".to_string());
    r.max_length = Some(3);
    let filter = filter(vec![r], None);
    assert_eq!(
        message(filter.on_request(&mut context(&[]))),
        "context_extractor: header 'x-a' value exceeds max_length 3 (got 8)"
    );
}

#[test]
fn global_validation_holds_for_every_value() {
    let validation = ValidationRules { pattern: Some("^[a-z]+$".to_string()), max_length: Some(4) };
    let filter = filter(vec![rule("x-a", "a"), rule("x-b", "b")], Some(validation));
    let mut ctx = context(&[("x-a", "abc"), ("x-b", "abcde")]);
    assert_eq!(
        message(filter.on_request(&mut ctx)),
        "context_extractor: header 'x-b' value exceeds global max_length 4 (got 5)"
    );
    let mut ctx = context(&[("x-a", "A"), ("x-b", "abc")]);
    assert_eq!(
        message(filter.on_request(&mut ctx)),
        "context_extractor: header 'x-a' value does not match global validation pattern"
    );
    let mut ctx = context(&[("x-a", "abcd"), ("x-b", "z")]);
    assert!(goes_on(filter.on_request(&mut ctx)));
}

#[test]
fn a_value_is_checked_by_its_rule_before_the_global_validation() {
    let mut r = rule("x-a", "a");
    r.max_length = Some(2);
    let validation = Some(ValidationRules { pattern: None, max_length: Some(1) });
    assert_eq!(
        message(validate_value("abc", &r, &None, &validation)),
        "context_extractor: header 'x-a' value exceeds max_length 2 (got 3)"
    );
    assert_eq!(
        message(validate_value("ab", &r, &None, &validation)),
        "context_extractor: header 'x-a' value exceeds global max_length 1 (got 2)"
    );
    assert!(validate_value("a", &r, &None, &validation).is_ok());
}

#[test]
fn a_global_pattern_that_does_not_compile_is_reported_per_value() {
    let validation = Some(ValidationRules { pattern: Some("[".to_string()), max_length: None });
    let cause = regex::Regex::new("[").unwrap_err();
    assert_eq!(
        message(validate_value("a", &rule("x-a", "a"), &None, &validation)),
        format!("context_extractor: failed to compile global pattern: {}", cause)
    );
}

#[test]
fn lengths_count_bytes_and_not_characters() {
    let mut r = rule("x-a", "a");
    r.max_length = Some(2);
    assert!(validate_value("\u{e9}", &r, &None, &None).is_ok());
    assert_eq!(
        message(validate_value("\u{e9}\u{e9}", &r, &None, &None)),
        "context_extractor: header 'x-a' value exceeds max_length 2 (got 4)"
    );
}

#[test]
fn a_compiled_pattern_decides_over_a_value() {
    let pattern = Some(regex::Regex::new("^v[0-9]$").unwrap());
    assert!(validate_value("v1", &rule("x-a", "a"), &pattern, &None).is_ok());
    assert_eq!(
        message(validate_value("v10", &rule("x-a", "a"), &pattern, &None)),
        "context_extractor: header 'x-a' value does not match required pattern"
    );
}

#[test]
fn header_names_are_found_in_either_case() {
    let ctx = context(&[("x-skillberry-env-id", "prod")]);
    for name in ["x-skillberry-env-id", "X-Skillberry-Env-Id", "X-SKILLBERRY-ENV-ID"] {
        assert_eq!(
            read_header(&ctx.request_headers, &name.to_string()),
            Some("prod".to_string())
        );
    }
    assert_eq!(read_header(&ctx.request_headers, &"x-other".to_string()), None);
    assert_eq!(read_header(&ctx.request_headers, &"bad name".to_string()), None);
}

#[test]
fn the_first_of_several_values_counts() {
    let filter = filter(vec![rule("x-a", "a")], None);
    let mut ctx = context(&[("x-a", "first"), ("x-a", "second")]);
    assert!(goes_on(filter.on_request(&mut ctx)));
    assert_eq!(stored(&ctx, "a"), Some("first".to_string()));
}

#[test]
fn a_value_that_is_not_visible_ascii_counts_as_absent() {
    let filter = filter(vec![environment_rule()], None);
    let mut ctx = context(&[]);
    ctx.request_headers
        .insert("x-skillberry-env-id", HeaderValue::from_bytes(b"pr\xf6d").unwrap());
    assert!(goes_on(filter.on_request(&mut ctx)));
    assert_eq!(stored(&ctx, "env_id"), Some("default-env".to_string()));
}

#[test]
fn blanks_and_tabs_are_part_of_a_value() {
    let ctx = context(&[("x-a", "a b\tc")]);
    assert_eq!(
        read_header(&ctx.request_headers, &"x-a".to_string()),
        Some("a b\tc".to_string())
    );
}

#[test]
fn an_empty_value_is_a_value() {
    let mut r = rule("x-a", "a");
    r.default = Some("d".to_string());
    let filter = filter(vec![r], None);
    let mut ctx = context(&[("x-a", "")]);
    assert!(goes_on(filter.on_request(&mut ctx)));
    assert_eq!(stored(&ctx, "a"), Some(String::new()));
}

#[test]
fn a_later_rule_for_the_same_key_outweighs_an_earlier_one() {
    let filter = filter(vec![rule("x-a", "k"), rule("x-b", "k"), rule("x-c", "k")], None);
    let mut ctx = context(&[("x-a", "1"), ("x-b", "2")]);
    assert!(goes_on(filter.on_request(&mut ctx)));
    assert_eq!(stored(&ctx, "k"), Some("2".to_string()));
}

#[test]
fn extraction_replaces_what_stood_under_its_keys() {
    let filter = filter(vec![rule("x-a", "a")], None);
    let mut ctx = context(&[("x-a", "new")]);
    ctx.filter_metadata.insert("a".to_string(), "old".to_string());
    ctx.filter_metadata.insert("b".to_string(), "kept".to_string());
    assert!(goes_on(filter.on_request(&mut ctx)));
    assert_eq!(stored(&ctx, "a"), Some("new".to_string()));
    assert_eq!(stored(&ctx, "b"), Some("kept".to_string()));
}

#[test]
fn a_rule_takes_the_header_then_the_default_then_nothing() {
    let mut r = rule("x-a", "a");
    assert!(matches!(take_value(&r, Some("v".to_string())), Ok(Some(v)) if v == "v"));
    assert!(matches!(take_value(&r, None), Ok(None)));
    r.required = true;
    assert_eq!(
        message(take_value(&r, None)),
        "context_extractor: required header 'x-a' is missing"
    );
    r.default = Some("d".to_string());
    assert!(matches!(take_value(&r, None), Ok(Some(v)) if v == "d"));
}

#[test]
fn the_context_extractor_leaves_bodies_alone() {
    let filter = filter(vec![environment_rule()], None);
    assert_eq!(filter.name(), "context_extractor");
    assert_eq!(filter.request_body_access(), BodyAccess::NoAccess);
    assert_eq!(filter.request_body_mode(), BodyMode::Stream);
}
