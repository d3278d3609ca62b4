//! Finds out which skill a request is for.
//!
//! The skill comes from the process environment: either its UUID directly, or its name, which
//! is then looked up in the skill store. Reading the environment and talking to the store is
//! up to the caller: the filter says what is to be done next, and is told what came of it.

use crate::filter::{text_of, FilterError, HttpFilterContext};
use crate::status::{reason_phrase, shown_status, status_number, status_text};
use crate::store::{
    answer_of, check_setup, outcome_of, setup_message, transport_error, transport_message,
    TransportFailure, TransportFailureView,
};
use crate::text::decimal;
use vstd::prelude::*;

verus! {

/// The settings of a [`SkillResolverFilter`].
pub struct SkillResolverConfig {
    /// The address of the skill store.
    pub store_base_url: String,
    /// The environment variable that may hold the skill's UUID.
    pub skill_uuid_env: String,
    /// The environment variable that may hold the skill's name.
    pub skill_name_env: String,
    /// How long a request to the store may take.
    pub timeout_ms: u64,
}

/// What a [`SkillResolverConfig`] says.
pub struct ResolverView {
    pub store_base_url: Seq<char>,
    pub skill_uuid_env: Seq<char>,
    pub skill_name_env: Seq<char>,
    pub timeout_ms: u64,
}

impl View for SkillResolverConfig {
    type V = ResolverView;

    open spec fn view(&self) -> ResolverView {
        ResolverView {
            store_base_url: self.store_base_url@,
            skill_uuid_env: self.skill_uuid_env@,
            skill_name_env: self.skill_name_env@,
            timeout_ms: self.timeout_ms,
        }
    }
}

/// A skill as the store describes it.
pub struct SkillResponse {
    pub uuid: String,
    pub name: String,
    pub description: Option<String>,
}

/// How far the resolution for a request has come.
pub enum SkillState {
    /// Nothing has been done.
    Start,
    /// The variable for the UUID is being read.
    ReadingUuid,
    /// The variable for the name is being read.
    ReadingName,
    /// The store is being asked for a skill.
    Asking { skill_name: String },
    /// The store's answer is being read.
    ReadingSkill { skill_name: String },
    /// The request goes on.
    Finished,
}

/// What happened.
pub enum SkillEvent {
    /// A request came.
    Request,
    /// The value of an environment variable, where it is set.
    Variable(Option<String>),
    /// The status of the store's answer, or why there is none.
    Answer(Result<http::StatusCode, TransportFailure>),
    /// The skill in the store's answer, or why it cannot be read.
    Skill(Result<SkillResponse, String>),
}

/// What is to be done next.
pub enum SkillCommand {
    /// Read this environment variable.
    ReadVariable(String),
    /// Get this address.
    Get(String),
    /// Read a skill from the answer.
    ReadSkill,
    /// Let the request go on.
    Continue,
    /// Nothing: the event was not awaited.
    Ignore,
}

/// What a [`SkillState`] says.
pub enum SkillStateView {
    Start,
    ReadingUuid,
    ReadingName,
    Asking { skill_name: Seq<char> },
    ReadingSkill { skill_name: Seq<char> },
    Finished,
}

/// What a [`SkillEvent`] says.
pub enum SkillEventView {
    Request,
    Variable(Option<Seq<char>>),
    Answer(Result<http::StatusCode, TransportFailureView>),
    /// The skill's UUID, or why it cannot be read.
    Skill(Result<Seq<char>, Seq<char>>),
}

/// What a [`SkillCommand`] says.
pub enum SkillCommandView {
    ReadVariable(Seq<char>),
    Get(Seq<char>),
    ReadSkill,
    Continue,
    Ignore,
}

impl View for SkillState {
    type V = SkillStateView;

    open spec fn view(&self) -> SkillStateView {
        match self {
            SkillState::Start => SkillStateView::Start,
            SkillState::ReadingUuid => SkillStateView::ReadingUuid,
            SkillState::ReadingName => SkillStateView::ReadingName,
            SkillState::Asking { skill_name } => SkillStateView::Asking { skill_name: skill_name@ },
            SkillState::ReadingSkill { skill_name } => SkillStateView::ReadingSkill {
                skill_name: skill_name@,
            },
            SkillState::Finished => SkillStateView::Finished,
        }
    }
}

/// The UUID in the skill that was read, or why it could not be read.
pub open spec fn uuid_of(skill: Result<SkillResponse, String>) -> Result<Seq<char>, Seq<char>> {
    match skill {
        Ok(response) => Ok(response.uuid@),
        Err(cause) => Err(cause@),
    }
}

impl View for SkillEvent {
    type V = SkillEventView;

    open spec fn view(&self) -> SkillEventView {
        match self {
            SkillEvent::Request => SkillEventView::Request,
            SkillEvent::Variable(value) => SkillEventView::Variable(text_of(*value)),
            SkillEvent::Answer(answer) => SkillEventView::Answer(answer_of(*answer)),
            SkillEvent::Skill(skill) => SkillEventView::Skill(uuid_of(*skill)),
        }
    }
}

impl View for SkillCommand {
    type V = SkillCommandView;

    open spec fn view(&self) -> SkillCommandView {
        match self {
            SkillCommand::ReadVariable(name) => SkillCommandView::ReadVariable(name@),
            SkillCommand::Get(url) => SkillCommandView::Get(url@),
            SkillCommand::ReadSkill => SkillCommandView::ReadSkill,
            SkillCommand::Continue => SkillCommandView::Continue,
            SkillCommand::Ignore => SkillCommandView::Ignore,
        }
    }
}

// ---- Looking a skill up ----

/// The address of a skill in the store.
pub open spec fn skill_url(store_base_url: Seq<char>, skill_name: Seq<char>) -> Seq<char> {
    store_base_url + "/skills/"@ + skill_name
}

/// The message for an answer that holds no skill, where it holds none, by its status: whether
/// that is a success, its number and how it is shown.
pub open spec fn status_failure(
    skill_name: Seq<char>,
    success: bool,
    number: u16,
    shown: Seq<char>,
) -> Option<Seq<char>> {
    if success {
        None
    } else if number == 404 {
        Some("skill '"@ + skill_name + "' not found"@)
    } else {
        Some("skill lookup failed with status "@ + shown)
    }
}

/// The message for a lookup without a skill to read, where there is none.
pub open spec fn lookup_failure(
    skill_name: Seq<char>,
    answer: Result<http::StatusCode, TransportFailureView>,
) -> Option<Seq<char>> {
    match answer {
        Ok(status) => status_failure(
            skill_name,
            crate::status::is_success_number(status_number(status)),
            status_number(status),
            shown_status(status),
        ),
        Err(failure) => Some(transport_message("skill lookup"@, failure)),
    }
}

/// The message for a skill that cannot be read.
pub open spec fn unreadable_message(cause: Seq<char>) -> Seq<char> {
    "invalid skill response: "@ + cause
}

/// Whether the status of the store's answer lets a skill be read from it.
pub fn judge_lookup_status(
    skill_name: &str,
    success: bool,
    number: u16,
    shown: &str,
) -> (r: Result<(), FilterError>)
    ensures
        match (r, status_failure(skill_name@, success, number, shown@)) {
            (Ok(_), None) => true,
            (Err(error), Some(message)) => error@ == message,
            _ => false,
        },
{
    if success {
        Ok(())
    } else if number == 404 {
        Err(FilterError::new("skill '".to_owned().concat(skill_name).concat("' not found")))
    } else {
        Err(FilterError::new("skill lookup failed with status ".to_owned().concat(shown)))
    }
}

/// Whether the store's answer lets a skill be read from it.
pub fn judge_lookup_answer(
    skill_name: &str,
    answer: Result<http::StatusCode, TransportFailure>,
) -> (r: Result<(), FilterError>)
    ensures
        match (r, lookup_failure(skill_name@, answer_of(answer))) {
            (Ok(_), None) => true,
            (Err(error), Some(message)) => error@ == message,
            _ => false,
        },
{
    match answer {
        Ok(status) => judge_lookup_status(
            skill_name,
            status.is_success(),
            status.as_u16(),
            status_text(&status).as_str(),
        ),
        Err(failure) => Err(transport_error("skill lookup", failure)),
    }
}

// ---- The filter ----

/// The metadata with a skill that came from the environment.
pub open spec fn with_given_skill(
    metadata: Map<Seq<char>, Seq<char>>,
    uuid: Seq<char>,
) -> Map<Seq<char>, Seq<char>> {
    metadata.insert("skill_uuid"@, uuid).insert("skill_resolution_method"@, "env_uuid"@)
}

/// The metadata with a skill that the store was asked for.
pub open spec fn with_found_skill(
    metadata: Map<Seq<char>, Seq<char>>,
    skill_name: Seq<char>,
    uuid: Seq<char>,
) -> Map<Seq<char>, Seq<char>> {
    metadata.insert("skill_uuid"@, uuid).insert("skill_name"@, skill_name).insert(
        "skill_resolution_method"@,
        "api_lookup"@,
    )
}

/// The metadata for a skill that was not found out.
pub open spec fn with_failure(
    metadata: Map<Seq<char>, Seq<char>>,
    message: Seq<char>,
) -> Map<Seq<char>, Seq<char>> {
    metadata.insert("skill_resolution_error"@, message)
}

/// The metadata where no skill is asked for.
pub open spec fn without_skill(metadata: Map<Seq<char>, Seq<char>>) -> Map<Seq<char>, Seq<char>> {
    metadata.insert("skill_resolution_method"@, "none"@)
}

/// What follows an event: the next state, what is to be done, and the metadata.
///
/// The variable for the UUID comes first. Only where it is not set is the variable for the name
/// read, and only where that is set is the store asked. A lookup that fails is noted, and the
/// request goes on without a skill.
pub open spec fn resolve(
    filter: ResolverView,
    state: SkillStateView,
    event: SkillEventView,
    metadata: Map<Seq<char>, Seq<char>>,
) -> (SkillStateView, SkillCommandView, Map<Seq<char>, Seq<char>>) {
    match (state, event) {
        (SkillStateView::Start, SkillEventView::Request) => (
            SkillStateView::ReadingUuid,
            SkillCommandView::ReadVariable(filter.skill_uuid_env),
            metadata,
        ),
        (SkillStateView::ReadingUuid, SkillEventView::Variable(Some(uuid))) => (
            SkillStateView::Finished,
            SkillCommandView::Continue,
            with_given_skill(metadata, uuid),
        ),
        (SkillStateView::ReadingUuid, SkillEventView::Variable(None)) => (
            SkillStateView::ReadingName,
            SkillCommandView::ReadVariable(filter.skill_name_env),
            metadata,
        ),
        (SkillStateView::ReadingName, SkillEventView::Variable(Some(skill_name))) => (
            SkillStateView::Asking { skill_name },
            SkillCommandView::Get(skill_url(filter.store_base_url, skill_name)),
            metadata,
        ),
        (SkillStateView::ReadingName, SkillEventView::Variable(None)) => (
            SkillStateView::Finished,
            SkillCommandView::Continue,
            without_skill(metadata),
        ),
        (SkillStateView::Asking { skill_name }, SkillEventView::Answer(answer)) =>
            match lookup_failure(skill_name, answer) {
                Some(message) => (
                    SkillStateView::Finished,
                    SkillCommandView::Continue,
                    with_failure(metadata, message),
                ),
                None => (
                    SkillStateView::ReadingSkill { skill_name },
                    SkillCommandView::ReadSkill,
                    metadata,
                ),
            },
        (SkillStateView::ReadingSkill { skill_name }, SkillEventView::Skill(Ok(uuid))) => (
            SkillStateView::Finished,
            SkillCommandView::Continue,
            with_found_skill(metadata, skill_name, uuid),
        ),
        (SkillStateView::ReadingSkill { .. }, SkillEventView::Skill(Err(cause))) => (
            SkillStateView::Finished,
            SkillCommandView::Continue,
            with_failure(metadata, unreadable_message(cause)),
        ),
        _ => (state, SkillCommandView::Ignore, metadata),
    }
}

/// Finds out which skill a request is for and puts its UUID into the metadata.
pub struct SkillResolverFilter {
    store_base_url: String,
    skill_uuid_env: String,
    skill_name_env: String,
    timeout_ms: u64,
}

impl View for SkillResolverFilter {
    type V = ResolverView;

    closed spec fn view(&self) -> ResolverView {
        ResolverView {
            store_base_url: self.store_base_url@,
            skill_uuid_env: self.skill_uuid_env@,
            skill_name_env: self.skill_name_env@,
            timeout_ms: self.timeout_ms,
        }
    }
}

impl SkillResolverFilter {
    /// The filter with these settings; `client` says whether there is an HTTP client for it.
    pub fn from_config(config: SkillResolverConfig, client: Result<(), String>) -> (r: Result<
        Self,
        FilterError,
    >)
        ensures
            match (
                r,
                setup_message("skill_resolver"@, config.store_base_url@, outcome_of(client)),
            ) {
                (Ok(filter), None) => filter@ == config@,
                (Err(error), Some(message)) => error@ == message,
                _ => false,
            },
    {
        if let Err(error) = check_setup("skill_resolver", &config.store_base_url, client) {
            return Err(error);
        }
        Ok(
            SkillResolverFilter {
                store_base_url: config.store_base_url,
                skill_uuid_env: config.skill_uuid_env,
                skill_name_env: config.skill_name_env,
                timeout_ms: config.timeout_ms,
            },
        )
    }

    /// The filter's name.
    pub fn name(&self) -> (name: &'static str)
        ensures
            name@ == "skill_resolver"@,
    {
        "skill_resolver"
    }

    /// How long a request to the store may take, in milliseconds.
    pub fn timeout_ms(&self) -> (timeout_ms: u64)
        ensures
            timeout_ms == self@.timeout_ms,
    {
        self.timeout_ms
    }

    /// Takes the resolution for a request one step further.
    pub fn on_request(
        &self,
        state: SkillState,
        event: SkillEvent,
        ctx: &mut HttpFilterContext,
    ) -> (r: (SkillState, SkillCommand))
        ensures
            (r.0@, r.1@, final(ctx).filter_metadata@) == resolve(
                self@,
                state@,
                event@,
                old(ctx).filter_metadata@,
            ),
            final(ctx).same_but_metadata(*old(ctx)),
    {
        match (state, event) {
            (SkillState::Start, SkillEvent::Request) => (
                SkillState::ReadingUuid,
                SkillCommand::ReadVariable(self.skill_uuid_env.clone()),
            ),
            (SkillState::ReadingUuid, SkillEvent::Variable(Some(uuid))) => {
                ctx.filter_metadata.insert("skill_uuid".to_owned(), uuid);
                ctx.filter_metadata.insert(
                    "skill_resolution_method".to_owned(),
                    "env_uuid".to_owned(),
                );
                (SkillState::Finished, SkillCommand::Continue)
            },
            (SkillState::ReadingUuid, SkillEvent::Variable(None)) => (
                SkillState::ReadingName,
                SkillCommand::ReadVariable(self.skill_name_env.clone()),
            ),
            (SkillState::ReadingName, SkillEvent::Variable(Some(skill_name))) => {
                let url = self.store_base_url.clone().concat("/skills/").concat(
                    skill_name.as_str(),
                );
                (SkillState::Asking { skill_name }, SkillCommand::Get(url))
            },
            (SkillState::ReadingName, SkillEvent::Variable(None)) => {
                ctx.filter_metadata.insert(
                    "skill_resolution_method".to_owned(),
                    "none".to_owned(),
                );
                (SkillState::Finished, SkillCommand::Continue)
            },
            (SkillState::Asking { skill_name }, SkillEvent::Answer(answer)) => {
                match judge_lookup_answer(skill_name.as_str(), answer) {
                    Ok(_) => (SkillState::ReadingSkill { skill_name }, SkillCommand::ReadSkill),
                    Err(error) => {
                        ctx.filter_metadata.insert(
                            "skill_resolution_error".to_owned(),
                            error.message().clone(),
                        );
                        (SkillState::Finished, SkillCommand::Continue)
                    },
                }
            },
            (SkillState::ReadingSkill { skill_name }, SkillEvent::Skill(Ok(skill))) => {
                ctx.filter_metadata.insert("skill_uuid".to_owned(), skill.uuid);
                ctx.filter_metadata.insert("skill_name".to_owned(), skill_name);
                ctx.filter_metadata.insert(
                    "skill_resolution_method".to_owned(),
                    "api_lookup".to_owned(),
                );
                (SkillState::Finished, SkillCommand::Continue)
            },
            (SkillState::ReadingSkill { .. }, SkillEvent::Skill(Err(cause))) => {
                let message = "invalid skill response: ".to_owned().concat(cause.as_str());
                ctx.filter_metadata.insert("skill_resolution_error".to_owned(), message);
                (SkillState::Finished, SkillCommand::Continue)
            },
            (state, _) => (state, SkillCommand::Ignore),
        }
    }
}

// ---- What holds of resolution ----

/// The keys under which resolution stores something.
pub open spec fn is_skill_key(key: Seq<char>) -> bool {
    ||| key == "skill_uuid"@
    ||| key == "skill_name"@
    ||| key == "skill_resolution_method"@
    ||| key == "skill_resolution_error"@
}

/// The event is one that the state waits for.
pub open spec fn is_awaited(state: SkillStateView, event: SkillEventView) -> bool {
    match state {
        SkillStateView::Start => event is Request,
        SkillStateView::ReadingUuid | SkillStateView::ReadingName => event is Variable,
        SkillStateView::Asking { .. } => event is Answer,
        SkillStateView::ReadingSkill { .. } => event is Skill,
        SkillStateView::Finished => false,
    }
}

/// The greatest number of steps that resolution can still take.
pub open spec fn steps_left(state: SkillStateView) -> nat {
    match state {
        SkillStateView::Start => 5,
        SkillStateView::ReadingUuid => 4,
        SkillStateView::ReadingName => 3,
        SkillStateView::Asking { .. } => 2,
        SkillStateView::ReadingSkill { .. } => 1,
        SkillStateView::Finished => 0,
    }
}

/// The state and the metadata after some events, one after the other.
pub open spec fn resolve_all(
    filter: ResolverView,
    state: SkillStateView,
    events: Seq<SkillEventView>,
    metadata: Map<Seq<char>, Seq<char>>,
) -> (SkillStateView, Map<Seq<char>, Seq<char>>)
    decreases events.len(),
{
    if events.len() == 0 {
        (state, metadata)
    } else {
        let next = resolve(filter, state, events[0], metadata);
        resolve_all(filter, next.0, events.skip(1), next.2)
    }
}

proof fn lemma_skill_keys_differ()
    ensures
        "skill_uuid"@ != "skill_name"@,
        "skill_uuid"@ != "skill_resolution_method"@,
        "skill_uuid"@ != "skill_resolution_error"@,
        "skill_name"@ != "skill_resolution_method"@,
        "skill_name"@ != "skill_resolution_error"@,
        "skill_resolution_method"@ != "skill_resolution_error"@,
{
    reveal_strlit("skill_uuid");
    reveal_strlit("skill_name");
    reveal_strlit("skill_resolution_method");
    reveal_strlit("skill_resolution_error");
    assert("skill_uuid"@[6] != "skill_name"@[6]);
    assert("skill_uuid"@.len() < "skill_resolution_error"@.len());
    assert("skill_resolution_error"@.len() < "skill_resolution_method"@.len());
}

/// A UUID in the environment is taken as it is: neither the variable for the name nor the store
/// is asked.
pub proof fn given_skill_needs_no_lookup(
    filter: ResolverView,
    uuid: Seq<char>,
    metadata: Map<Seq<char>, Seq<char>>,
)
    ensures
        resolve(filter, SkillStateView::Start, SkillEventView::Request, metadata) == (
            SkillStateView::ReadingUuid,
            SkillCommandView::ReadVariable(filter.skill_uuid_env),
            metadata,
        ),
        resolve(
            filter,
            SkillStateView::ReadingUuid,
            SkillEventView::Variable(Some(uuid)),
            metadata,
        ) == (
            SkillStateView::Finished,
            SkillCommandView::Continue,
            with_given_skill(metadata, uuid),
        ),
        with_given_skill(metadata, uuid)["skill_uuid"@] == uuid,
        with_given_skill(metadata, uuid)["skill_resolution_method"@] == "env_uuid"@,
{
    lemma_skill_keys_differ();
}

/// A name in the environment, where there is no UUID, is looked up in the store, and the UUID
/// that the store gives becomes the request's.
pub proof fn named_skill_is_looked_up(
    filter: ResolverView,
    skill_name: Seq<char>,
    status: http::StatusCode,
    uuid: Seq<char>,
    metadata: Map<Seq<char>, Seq<char>>,
)
    requires
        crate::status::is_success_number(status_number(status)),
    ensures
        resolve_all(
            filter,
            SkillStateView::Start,
            seq![
                SkillEventView::Request,
                SkillEventView::Variable(None),
                SkillEventView::Variable(Some(skill_name)),
                SkillEventView::Answer(Ok(status)),
                SkillEventView::Skill(Ok(uuid)),
            ],
            metadata,
        ) == (SkillStateView::Finished, with_found_skill(metadata, skill_name, uuid)),
        with_found_skill(metadata, skill_name, uuid)["skill_uuid"@] == uuid,
        with_found_skill(metadata, skill_name, uuid)["skill_name"@] == skill_name,
        with_found_skill(metadata, skill_name, uuid)["skill_resolution_method"@] == "api_lookup"@,
{
    lemma_skill_keys_differ();
    let events = seq![
        SkillEventView::Request,
        SkillEventView::Variable(None),
        SkillEventView::Variable(Some(skill_name)),
        SkillEventView::Answer(Ok(status)),
        SkillEventView::Skill(Ok(uuid)),
    ];
    reveal_with_fuel(resolve_all, 6);
    assert(events.skip(1)[0] == events[1]);
    assert(events.skip(1).skip(1)[0] == events[2]);
    assert(events.skip(1).skip(1).skip(1)[0] == events[3]);
    assert(events.skip(1).skip(1).skip(1).skip(1)[0] == events[4]);
}

/// A step goes on towards the end exactly where its event was awaited; any other event changes
/// nothing. The request goes on exactly with the step that ends the resolution.
pub proof fn awaited_events_end_resolution(
    filter: ResolverView,
    state: SkillStateView,
    event: SkillEventView,
    metadata: Map<Seq<char>, Seq<char>>,
)
    ensures
        is_awaited(state, event) ==> steps_left(resolve(filter, state, event, metadata).0)
            < steps_left(state),
        is_awaited(state, event) ==> !(resolve(filter, state, event, metadata).1 is Ignore),
        is_awaited(state, event) ==> (resolve(filter, state, event, metadata).1 is Continue
            <==> resolve(filter, state, event, metadata).0 is Finished),
        !is_awaited(state, event) ==> resolve(filter, state, event, metadata) == (
            state,
            SkillCommandView::Ignore,
            metadata,
        ),
        !(state is Finished) ==> exists|next: SkillEventView| is_awaited(state, next),
{
    match state {
        SkillStateView::Start => {
            assert(is_awaited(state, SkillEventView::Request));
        },
        SkillStateView::ReadingUuid | SkillStateView::ReadingName => {
            assert(is_awaited(state, SkillEventView::Variable(None)));
        },
        SkillStateView::Asking { .. } => {
            assert(is_awaited(
                state,
                SkillEventView::Answer(Err(TransportFailureView::TimedOut)),
            ));
        },
        SkillStateView::ReadingSkill { .. } => {
            assert(is_awaited(state, SkillEventView::Skill(Err(Seq::empty()))));
        },
        SkillStateView::Finished => {},
    }
}

/// Once the resolution has ended, nothing changes any more.
pub proof fn finished_resolution_stays(
    filter: ResolverView,
    events: Seq<SkillEventView>,
    metadata: Map<Seq<char>, Seq<char>>,
)
    ensures
        resolve_all(filter, SkillStateView::Finished, events, metadata) == (
            SkillStateView::Finished,
            metadata,
        ),
    decreases events.len(),
{
    if events.len() > 0 {
        finished_resolution_stays(filter, events.skip(1), metadata);
    }
}

/// Whatever happens, resolution leaves alone what stands under keys that are not its own.
pub proof fn resolution_keeps_other_keys(
    filter: ResolverView,
    state: SkillStateView,
    events: Seq<SkillEventView>,
    metadata: Map<Seq<char>, Seq<char>>,
    key: Seq<char>,
)
    requires
        !is_skill_key(key),
    ensures
        resolve_all(filter, state, events, metadata).1.contains_key(key) == metadata.contains_key(
            key,
        ),
        metadata.contains_key(key) ==> resolve_all(filter, state, events, metadata).1[key]
            == metadata[key],
    decreases events.len(),
{
    if events.len() > 0 {
        let next = resolve(filter, state, events[0], metadata);
        resolution_keeps_other_keys(filter, next.0, events.skip(1), next.2, key);
    }
}

/// A lookup that fails, for whatever reason, lets the request go on; nothing but the reason is
/// noted, so that a skill is neither given nor taken away.
pub proof fn failed_lookup_is_only_noted(
    filter: ResolverView,
    skill_name: Seq<char>,
    answer: Result<http::StatusCode, TransportFailureView>,
    cause: Seq<char>,
    metadata: Map<Seq<char>, Seq<char>>,
    key: Seq<char>,
)
    requires
        key != "skill_resolution_error"@,
    ensures
        lookup_failure(skill_name, answer) matches Some(message) ==> resolve(
            filter,
            SkillStateView::Asking { skill_name },
            SkillEventView::Answer(answer),
            metadata,
        ) == (
            SkillStateView::Finished,
            SkillCommandView::Continue,
            with_failure(metadata, message),
        ),
        resolve(
            filter,
            SkillStateView::ReadingSkill { skill_name },
            SkillEventView::Skill(Err(cause)),
            metadata,
        ) == (
            SkillStateView::Finished,
            SkillCommandView::Continue,
            with_failure(metadata, unreadable_message(cause)),
        ),
        forall|message: Seq<char>| #[trigger]
            with_failure(metadata, message).contains_key(key) == metadata.contains_key(key),
        forall|message: Seq<char>|
            metadata.contains_key(key) ==> #[trigger] with_failure(metadata, message)[key]
                == metadata[key],
{
}

/// A step puts a UUID into the metadata only where the environment or the store has just given
/// that UUID.
pub proof fn uuid_comes_from_environment_or_store(
    filter: ResolverView,
    state: SkillStateView,
    event: SkillEventView,
    metadata: Map<Seq<char>, Seq<char>>,
)
    requires
        resolve(filter, state, event, metadata).2.contains_key("skill_uuid"@),
        metadata.contains_key("skill_uuid"@) ==> metadata["skill_uuid"@] != resolve(
            filter,
            state,
            event,
            metadata,
        ).2["skill_uuid"@],
    ensures
        ({
            let uuid = resolve(filter, state, event, metadata).2["skill_uuid"@];
            ||| state is ReadingUuid && event == SkillEventView::Variable(Some(uuid))
            ||| state is ReadingSkill && event == SkillEventView::Skill(Ok(uuid))
        }),
{
    lemma_skill_keys_differ();
}

// ---- The same, step by step, read off the environment and the answers alone ----

/// Settings, states, events and commands say exactly what stands in their fields.
pub proof fn resolution_says_what_it_holds(
    config: SkillResolverConfig,
    text: String,
    variable: Option<String>,
    status: http::StatusCode,
    failure: TransportFailure,
    skill: SkillResponse,
)
    ensures
        config@.store_base_url == config.store_base_url@,
        config@.skill_uuid_env == config.skill_uuid_env@,
        config@.skill_name_env == config.skill_name_env@,
        config@.timeout_ms == config.timeout_ms,
        SkillState::Start@ is Start,
        SkillState::ReadingUuid@ is ReadingUuid,
        SkillState::ReadingName@ is ReadingName,
        (SkillState::Asking { skill_name: text })@ == (SkillStateView::Asking {
            skill_name: text@,
        }),
        (SkillState::ReadingSkill { skill_name: text })@ == (SkillStateView::ReadingSkill {
            skill_name: text@,
        }),
        SkillState::Finished@ is Finished,
        SkillEvent::Request@ is Request,
        variable is None ==> SkillEvent::Variable(variable)@ == SkillEventView::Variable(None),
        variable matches Some(value) ==> SkillEvent::Variable(variable)@
            == SkillEventView::Variable(Some(value@)),
        SkillEvent::Answer(Ok(status))@ == SkillEventView::Answer(Ok(status)),
        SkillEvent::Answer(Err(failure))@ == SkillEventView::Answer(Err(failure@)),
        SkillEvent::Skill(Ok(skill))@ == SkillEventView::Skill(Ok(skill.uuid@)),
        SkillEvent::Skill(Err(text))@ == SkillEventView::Skill(Err(text@)),
        SkillCommand::ReadVariable(text)@ == SkillCommandView::ReadVariable(text@),
        SkillCommand::Get(text)@ == SkillCommandView::Get(text@),
        SkillCommand::ReadSkill@ is ReadSkill,
        SkillCommand::Continue@ is Continue,
        SkillCommand::Ignore@ is Ignore,
{
}

/// The variables are read one after the other, the one for the UUID first, and the one for the
/// name only where there is no UUID. Nothing is stored by that.
pub proof fn variables_are_read_in_turn(
    filter: ResolverView,
    metadata: Map<Seq<char>, Seq<char>>,
)
    ensures
        resolve(filter, SkillStateView::Start, SkillEventView::Request, metadata) == (
            SkillStateView::ReadingUuid,
            SkillCommandView::ReadVariable(filter.skill_uuid_env),
            metadata,
        ),
        resolve(filter, SkillStateView::ReadingUuid, SkillEventView::Variable(None), metadata) == (
            SkillStateView::ReadingName,
            SkillCommandView::ReadVariable(filter.skill_name_env),
            metadata,
        ),
{
}

/// A UUID in the environment is stored as it is, with how it was found, and ends the resolution.
pub proof fn uuid_in_the_environment_is_stored(
    filter: ResolverView,
    uuid: Seq<char>,
    metadata: Map<Seq<char>, Seq<char>>,
)
    ensures
        ({
            let r = resolve(
                filter,
                SkillStateView::ReadingUuid,
                SkillEventView::Variable(Some(uuid)),
                metadata,
            );
            &&& r.0 is Finished
            &&& r.1 is Continue
            &&& r.2.contains_key("skill_uuid"@) && r.2["skill_uuid"@] == uuid
            &&& r.2.contains_key("skill_resolution_method"@)
            &&& r.2["skill_resolution_method"@] == "env_uuid"@
            &&& forall|key: Seq<char>|
                key != "skill_uuid"@ && key != "skill_resolution_method"@ ==> #[trigger]
                r.2.contains_key(key) == metadata.contains_key(key)
            &&& forall|key: Seq<char>|
                key != "skill_uuid"@ && key != "skill_resolution_method"@ && metadata.contains_key(
                    key,
                ) ==> #[trigger] r.2[key] == metadata[key]
        }),
{
    lemma_skill_keys_differ();
}

/// Where the environment gives neither, only that is noted, and the resolution ends.
pub proof fn no_skill_in_the_environment_is_noted(
    filter: ResolverView,
    metadata: Map<Seq<char>, Seq<char>>,
)
    ensures
        ({
            let r = resolve(
                filter,
                SkillStateView::ReadingName,
                SkillEventView::Variable(None),
                metadata,
            );
            &&& r.0 is Finished
            &&& r.1 is Continue
            &&& r.2.contains_key("skill_resolution_method"@)
            &&& r.2["skill_resolution_method"@] == "none"@
            &&& forall|key: Seq<char>|
                key != "skill_resolution_method"@ ==> #[trigger] r.2.contains_key(key)
                    == metadata.contains_key(key)
            &&& forall|key: Seq<char>|
                key != "skill_resolution_method"@ && metadata.contains_key(key) ==> #[trigger]
                r.2[key] == metadata[key]
        }),
{
}

/// For a name in the environment the store is asked at an address that starts with the store's
/// own, goes on with `/skills/`, and whose remaining characters are exactly those of the name.
/// The name is kept for later, and nothing is stored yet.
pub proof fn store_is_asked_for_the_very_name(
    filter: ResolverView,
    skill_name: Seq<char>,
    metadata: Map<Seq<char>, Seq<char>>,
)
    ensures
        ({
            let r = resolve(
                filter,
                SkillStateView::ReadingName,
                SkillEventView::Variable(Some(skill_name)),
                metadata,
            );
            &&& r.0 == SkillStateView::Asking { skill_name }
            &&& r.1 is Get
            &&& (filter.store_base_url + "/skills/"@).is_prefix_of(r.1->Get_0)
            &&& r.1->Get_0.skip((filter.store_base_url + "/skills/"@).len() as int) == skill_name
            &&& r.2 == metadata
        }),
{
    let start = filter.store_base_url + "/skills/"@;
    let url = skill_url(filter.store_base_url, skill_name);
    assert(url.subrange(0, start.len() as int) =~= start);
    assert(url.skip(start.len() as int) =~= skill_name);
}

/// The store is asked at different addresses for different names.
pub proof fn different_names_are_asked_for_differently(
    filter: ResolverView,
    skill_name: Seq<char>,
    other_name: Seq<char>,
    metadata: Map<Seq<char>, Seq<char>>,
)
    requires
        skill_name != other_name,
    ensures
        resolve(
            filter,
            SkillStateView::ReadingName,
            SkillEventView::Variable(Some(skill_name)),
            metadata,
        ).1 != resolve(
            filter,
            SkillStateView::ReadingName,
            SkillEventView::Variable(Some(other_name)),
            metadata,
        ).1,
{
    store_is_asked_for_the_very_name(filter, skill_name, metadata);
    store_is_asked_for_the_very_name(filter, other_name, metadata);
}

/// An answer with a status from 200 up to 299 is read, for the name that was asked for; nothing
/// is stored yet.
pub proof fn successful_answer_is_read(
    filter: ResolverView,
    skill_name: Seq<char>,
    status: http::StatusCode,
    metadata: Map<Seq<char>, Seq<char>>,
)
    requires
        200 <= status_number(status) <= 299,
    ensures
        lookup_failure(skill_name, Ok(status)) is None,
        resolve(
            filter,
            SkillStateView::Asking { skill_name },
            SkillEventView::Answer(Ok(status)),
            metadata,
        ) == (SkillStateView::ReadingSkill { skill_name }, SkillCommandView::ReadSkill, metadata),
{
}

/// Without an answer with such a status the resolution ends, and the reason is noted and nothing
/// else changed: a skill that is not found by its name, any other status by its number and
/// phrase, a request without an answer by what became of it.
pub proof fn failed_lookup_is_noted_by_its_reason(
    filter: ResolverView,
    skill_name: Seq<char>,
    answer: Result<http::StatusCode, TransportFailureView>,
    metadata: Map<Seq<char>, Seq<char>>,
)
    requires
        answer is Ok ==> !(200 <= status_number(answer->Ok_0) <= 299),
    ensures
        ({
            let r = resolve(
                filter,
                SkillStateView::Asking { skill_name },
                SkillEventView::Answer(answer),
                metadata,
            );
            &&& r.0 is Finished
            &&& r.1 is Continue
            &&& lookup_failure(skill_name, answer) == Some(r.2["skill_resolution_error"@])
            &&& r.2.contains_key("skill_resolution_error"@)
            &&& answer is Ok && status_number(answer->Ok_0) == 404
                ==> r.2["skill_resolution_error"@] == "skill '"@ + skill_name + "' not found"@
            &&& answer is Ok && status_number(answer->Ok_0) != 404
                ==> r.2["skill_resolution_error"@] == "skill lookup failed with status "@ + (
            decimal(status_number(answer->Ok_0) as nat) + " "@ + match reason_phrase(
                status_number(answer->Ok_0),
            ) {
                Some(phrase) => phrase,
                None => "<unknown status code>"@,
            })
            &&& answer is Err && answer->Err_0 is TimedOut ==> r.2["skill_resolution_error"@]
                == "skill lookup"@ + " timed out"@
            &&& answer is Err && answer->Err_0 is Unreachable ==> r.2["skill_resolution_error"@]
                == "skillberry-store is unreachable"@
            &&& answer is Err && answer->Err_0 is Other ==> r.2["skill_resolution_error"@]
                == "skill lookup"@ + " failed: "@ + answer->Err_0->Other_0
            &&& forall|key: Seq<char>|
                key != "skill_resolution_error"@ ==> #[trigger] r.2.contains_key(key)
                    == metadata.contains_key(key)
            &&& forall|key: Seq<char>|
                key != "skill_resolution_error"@ && metadata.contains_key(key) ==> #[trigger]
                r.2[key] == metadata[key]
        }),
{
}

/// An answer is judged by its status alone: a success is read, 404 says that the skill is not
/// found, and anything else is reported as it is shown.
pub proof fn lookup_is_judged_by_its_status(
    skill_name: Seq<char>,
    success: bool,
    number: u16,
    shown: Seq<char>,
)
    ensures
        status_failure(skill_name, success, number, shown) is None <==> success,
        !success && number == 404 ==> status_failure(skill_name, success, number, shown) == Some(
            "skill '"@ + skill_name + "' not found"@,
        ),
        !success && number != 404 ==> status_failure(skill_name, success, number, shown) == Some(
            "skill lookup failed with status "@ + shown,
        ),
{
}

/// The UUID of the skill that was read is stored, with the name that was asked for and how the
/// skill was found, and ends the resolution.
pub proof fn found_skill_is_stored(
    filter: ResolverView,
    skill_name: Seq<char>,
    uuid: Seq<char>,
    metadata: Map<Seq<char>, Seq<char>>,
)
    ensures
        ({
            let r = resolve(
                filter,
                SkillStateView::ReadingSkill { skill_name },
                SkillEventView::Skill(Ok(uuid)),
                metadata,
            );
            &&& r.0 is Finished
            &&& r.1 is Continue
            &&& r.2.contains_key("skill_uuid"@) && r.2["skill_uuid"@] == uuid
            &&& r.2.contains_key("skill_name"@) && r.2["skill_name"@] == skill_name
            &&& r.2.contains_key("skill_resolution_method"@)
            &&& r.2["skill_resolution_method"@] == "api_lookup"@
            &&& forall|key: Seq<char>|
                key != "skill_uuid"@ && key != "skill_name"@ && key != "skill_resolution_method"@
                    ==> #[trigger] r.2.contains_key(key) == metadata.contains_key(key)
            &&& forall|key: Seq<char>|
                key != "skill_uuid"@ && key != "skill_name"@ && key != "skill_resolution_method"@
                    && metadata.contains_key(key) ==> #[trigger] r.2[key] == metadata[key]
        }),
{
    lemma_skill_keys_differ();
}

/// A skill that cannot be read is noted with the cause, nothing else is changed, and the
/// resolution ends.
pub proof fn unreadable_skill_is_noted(
    filter: ResolverView,
    skill_name: Seq<char>,
    cause: Seq<char>,
    metadata: Map<Seq<char>, Seq<char>>,
)
    ensures
        ({
            let r = resolve(
                filter,
                SkillStateView::ReadingSkill { skill_name },
                SkillEventView::Skill(Err(cause)),
                metadata,
            );
            &&& r.0 is Finished
            &&& r.1 is Continue
            &&& r.2.contains_key("skill_resolution_error"@)
            &&& r.2["skill_resolution_error"@] == "invalid skill response: "@ + cause
            &&& forall|key: Seq<char>|
                key != "skill_resolution_error"@ ==> #[trigger] r.2.contains_key(key)
                    == metadata.contains_key(key)
            &&& forall|key: Seq<char>|
                key != "skill_resolution_error"@ && metadata.contains_key(key) ==> #[trigger]
                r.2[key] == metadata[key]
        }),
{
}

/// Any event but a request at the start, a variable while one is read, an answer while the store
/// is asked, and a skill while one is read, leaves state and metadata as they are.
pub proof fn other_events_change_nothing(
    filter: ResolverView,
    state: SkillStateView,
    event: SkillEventView,
    metadata: Map<Seq<char>, Seq<char>>,
)
    requires
        state is Start ==> !(event is Request),
        state is ReadingUuid || state is ReadingName ==> !(event is Variable),
        state is Asking ==> !(event is Answer),
        state is ReadingSkill ==> !(event is Skill),
    ensures
        resolve(filter, state, event, metadata) == (state, SkillCommandView::Ignore, metadata),
{
}

} // verus!
