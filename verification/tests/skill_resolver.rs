use http::{HeaderMap, StatusCode};
use skillberry_praxis_filters::filter::{FilterError, HttpFilterContext};
use skillberry_praxis_filters::metadata::Metadata;
use skillberry_praxis_filters::skill_resolver::{
    judge_lookup_answer, judge_lookup_status, SkillCommand, SkillEvent, SkillResolverConfig,
    SkillResolverFilter, SkillResponse, SkillState,
};
use skillberry_praxis_filters::store::TransportFailure;

fn config() -> SkillResolverConfig {
    SkillResolverConfig {
        store_base_url: "http://localhost:8000".to_string(),
        skill_uuid_env: "SKILL_UUID".to_string(),
        skill_name_env: "SKILL_NAME".to_string(),
        timeout_ms: 5000,
    }
}

fn filter() -> SkillResolverFilter {
    match SkillResolverFilter::from_config(config(), Ok(())) {
        Ok(filter) => filter,
        Err(error) => panic!("{}", error.message()),
    }
}

fn context() -> HttpFilterContext {
    let mut metadata = Metadata::new();
    metadata.insert("env_id".to_string(), "prod".to_string());
    HttpFilterContext {
        request_headers: HeaderMap::new(),
        filter_metadata: metadata,
        extra_request_headers: Vec::new(),
    }
}

fn message<T>(r: Result<T, FilterError>) -> String {
    match r {
        Ok(_) => panic!("an error was expected"),
        Err(error) => error.message().clone(),
    }
}

fn entries(ctx: &HttpFilterContext) -> Vec<(&str, &str)> {
    ctx.filter_metadata.entries().iter().map(|(k, v)| (k.as_str(), v.as_str())).collect()
}

fn skill(uuid: &str) -> SkillResponse {
    SkillResponse { uuid: uuid.to_string(), name: "other".to_string(), description: None }
}

fn asking() -> SkillState {
    SkillState::Asking { skill_name: "weather".to_string() }
}

#[test]
fn the_resolver_needs_a_store_address() {
    let mut c = config();
    c.store_base_url = String::new();
    assert_eq!(
        message(SkillResolverFilter::from_config(c, Err("no TLS".to_string()))),
        "skill_resolver: 'store_base_url' must not be empty"
    );
}

#[test]
fn the_resolver_needs_a_client() {
    assert_eq!(
        message(SkillResolverFilter::from_config(config(), Err("no TLS".to_string()))),
        "skill_resolver: failed to create HTTP client: no TLS"
    );
}

#[test]
fn the_resolver_keeps_its_settings() {
    assert_eq!(filter().name(), "skill_resolver");
    assert_eq!(filter().timeout_ms(), 5000);
}

#[test]
fn a_uuid_in_the_environment_is_taken() {
    let filter = filter();
    let mut ctx = context();
    let (state, command) = filter.on_request(SkillState::Start, SkillEvent::Request, &mut ctx);
    assert!(matches!(command, SkillCommand::ReadVariable(name) if name == "SKILL_UUID"));
    let event = SkillEvent::Variable(Some("u-1".to_string()));
    let (state, command) = filter.on_request(state, event, &mut ctx);
    assert!(matches!(state, SkillState::Finished));
    assert!(matches!(command, SkillCommand::Continue));
    assert_eq!(
        entries(&ctx),
        vec![("env_id", "prod"), ("skill_uuid", "u-1"), ("skill_resolution_method", "env_uuid")]
    );
}

#[test]
fn a_name_in_the_environment_is_looked_up() {
    let filter = filter();
    let mut ctx = context();
    let (state, _) = filter.on_request(SkillState::Start, SkillEvent::Request, &mut ctx);
    let (state, command) = filter.on_request(state, SkillEvent::Variable(None), &mut ctx);
    assert!(matches!(command, SkillCommand::ReadVariable(name) if name == "SKILL_NAME"));
    let event = SkillEvent::Variable(Some("weather".to_string()));
    let (state, command) = filter.on_request(state, event, &mut ctx);
    assert!(
        matches!(command, SkillCommand::Get(url) if url == "http://localhost:8000/skills/weather")
    );
    let (state, command) =
        filter.on_request(state, SkillEvent::Answer(Ok(StatusCode::OK)), &mut ctx);
    assert!(matches!(command, SkillCommand::ReadSkill));
    assert_eq!(entries(&ctx), vec![("env_id", "prod")]);
    let (state, command) = filter.on_request(state, SkillEvent::Skill(Ok(skill("u-2"))), &mut ctx);
    assert!(matches!(state, SkillState::Finished));
    assert!(matches!(command, SkillCommand::Continue));
    assert_eq!(
        entries(&ctx),
        vec![
            ("env_id", "prod"),
            ("skill_uuid", "u-2"),
            ("skill_name", "weather"),
            ("skill_resolution_method", "api_lookup"),
        ]
    );
}

#[test]
fn without_a_uuid_or_a_name_the_request_goes_on() {
    let mut ctx = context();
    let (state, command) =
        filter().on_request(SkillState::ReadingName, SkillEvent::Variable(None), &mut ctx);
    assert!(matches!(state, SkillState::Finished));
    assert!(matches!(command, SkillCommand::Continue));
    assert_eq!(entries(&ctx), vec![("env_id", "prod"), ("skill_resolution_method", "none")]);
}

#[test]
fn a_skill_that_is_not_found_is_noted() {
    let mut ctx = context();
    let event = SkillEvent::Answer(Ok(StatusCode::NOT_FOUND));
    let (state, command) = filter().on_request(asking(), event, &mut ctx);
    assert!(matches!(state, SkillState::Finished));
    assert!(matches!(command, SkillCommand::Continue));
    assert_eq!(
        entries(&ctx),
        vec![("env_id", "prod"), ("skill_resolution_error", "skill 'weather' not found")]
    );
}

#[test]
fn a_lookup_with_another_status_is_noted() {
    let mut ctx = context();
    let event = SkillEvent::Answer(Ok(StatusCode::INTERNAL_SERVER_ERROR));
    filter().on_request(asking(), event, &mut ctx);
    assert_eq!(
        ctx.filter_metadata.get("skill_resolution_error"),
        Some(&"skill lookup failed with status 500 Internal Server Error".to_string())
    );
    assert_eq!(ctx.filter_metadata.get("skill_uuid"), None);
}

#[test]
fn a_lookup_without_an_answer_is_noted() {
    let failures = vec![
        (TransportFailure::TimedOut, "skill lookup timed out"),
        (TransportFailure::Unreachable, "skillberry-store is unreachable"),
        (TransportFailure::Other("reset".to_string()), "skill lookup failed: reset"),
    ];
    for (failure, expected) in failures {
        let mut ctx = context();
        let (state, command) =
            filter().on_request(asking(), SkillEvent::Answer(Err(failure)), &mut ctx);
        assert!(matches!(state, SkillState::Finished));
        assert!(matches!(command, SkillCommand::Continue));
        assert_eq!(
            entries(&ctx),
            vec![("env_id", "prod"), ("skill_resolution_error", expected)]
        );
    }
}

#[test]
fn a_skill_that_cannot_be_read_is_noted() {
    let mut ctx = context();
    ctx.filter_metadata.insert("skill_uuid".to_string(), "before".to_string());
    let state = SkillState::ReadingSkill { skill_name: "weather".to_string() };
    let event = SkillEvent::Skill(Err("missing field `uuid`".to_string()));
    let (_, command) = filter().on_request(state, event, &mut ctx);
    assert!(matches!(command, SkillCommand::Continue));
    assert_eq!(
        entries(&ctx),
        vec![
            ("env_id", "prod"),
            ("skill_uuid", "before"),
            ("skill_resolution_error", "invalid skill response: missing field `uuid`"),
        ]
    );
}

#[test]
fn every_success_status_lets_a_skill_be_read() {
    for number in [200, 201, 204, 299] {
        let status = StatusCode::from_u16(number).unwrap();
        assert!(judge_lookup_answer("weather", Ok(status)).is_ok());
    }
    for number in [100, 199, 300, 404, 500] {
        let status = StatusCode::from_u16(number).unwrap();
        assert!(judge_lookup_answer("weather", Ok(status)).is_err());
    }
}

#[test]
fn a_status_without_a_reason_is_shown_by_its_number() {
    let status = StatusCode::from_u16(599).unwrap();
    assert_eq!(
        message(judge_lookup_answer("weather", Ok(status))),
        "skill lookup failed with status 599 <unknown status code>"
    );
}

#[test]
fn a_lookup_is_judged_by_its_status() {
    assert!(judge_lookup_status("w", true, 200, "200 OK").is_ok());
    assert_eq!(message(judge_lookup_status("w", false, 404, "x")), "skill 'w' not found");
    assert_eq!(
        message(judge_lookup_status("w", false, 503, "503 Service Unavailable")),
        "skill lookup failed with status 503 Service Unavailable"
    );
}

#[test]
fn that_the_time_ran_out_comes_before_that_no_connection_came_about() {
    let cause = "c".to_string();
    assert!(matches!(
        TransportFailure::classify(true, true, cause.clone()),
        TransportFailure::TimedOut
    ));
    assert!(matches!(
        TransportFailure::classify(false, true, cause.clone()),
        TransportFailure::Unreachable
    ));
    assert!(matches!(
        TransportFailure::classify(false, false, cause),
        TransportFailure::Other(c) if c == "c"
    ));
}

#[test]
fn resolution_ignores_events_it_does_not_wait_for() {
    let mut ctx = context();
    let event = SkillEvent::Skill(Ok(skill("u")));
    let (state, command) = filter().on_request(SkillState::Start, event, &mut ctx);
    assert!(matches!(state, SkillState::Start));
    assert!(matches!(command, SkillCommand::Ignore));
    let event = SkillEvent::Variable(Some("u".to_string()));
    let (state, command) = filter().on_request(SkillState::Finished, event, &mut ctx);
    assert!(matches!(state, SkillState::Finished));
    assert!(matches!(command, SkillCommand::Ignore));
    assert_eq!(entries(&ctx), vec![("env_id", "prod")]);
}
