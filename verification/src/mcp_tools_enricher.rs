//! Injects the tools in the metadata into the bodies of chat completion requests.

use crate::body::{body_content, body_from, body_slice};
use crate::filter::{
    BodyAccess, BodyMode, FilterAction, FilterError, HttpFilterContext, Rejection,
};
use crate::json::{
    array_value, has_member, json_error_message, json_in_bytes, json_list_in_text, json_of,
    json_text, jsons_of, member_mut, members_of, nesting_limit, read_list, read_value, reads_back,
    text_value, write_value, Json,
};
use crate::text::{decimal, decimal_text};
use vstd::prelude::*;
use vstd::utf8::encode_utf8;

verus! {

/// What becomes of a request whose body is not JSON.
#[derive(PartialEq, Eq, Structural, Clone, Copy, Debug)]
pub enum InvalidBodyBehavior {
    /// It goes on as it is.
    Continue,
    /// It is answered as a bad request.
    Reject,
}

/// The settings of a [`McpToolsEnricherFilter`].
pub struct McpToolsEnricherConfig {
    /// The number of bytes up to which request bodies are collected.
    pub max_body_bytes: usize,
    /// What becomes of a request whose body is not JSON.
    pub on_invalid: InvalidBodyBehavior,
    /// The `tool_choice` for requests that have none.
    pub tool_choice: String,
}

/// What a [`McpToolsEnricherConfig`] says.
pub struct EnricherView {
    pub max_body_bytes: usize,
    pub on_invalid: InvalidBodyBehavior,
    pub tool_choice: Seq<char>,
}

impl View for McpToolsEnricherConfig {
    type V = EnricherView;

    open spec fn view(&self) -> EnricherView {
        EnricherView {
            max_body_bytes: self.max_body_bytes,
            on_invalid: self.on_invalid,
            tool_choice: self.tool_choice@,
        }
    }
}

// ---- Enriched requests ----

/// The tools that a request has of its own: none where its `tools` are missing or no array.
pub open spec fn own_tools(members: Map<Seq<char>, Json>) -> Seq<Json> {
    if members.contains_key("tools"@) && members["tools"@] is Array {
        members["tools"@]->Array_0
    } else {
        Seq::empty()
    }
}

/// The members of an enriched request: its own tools are followed by the new ones, and it has
/// a `tool_choice`, its own or else the given one.
pub open spec fn enriched(
    members: Map<Seq<char>, Json>,
    tools: Seq<Json>,
    tool_choice: Seq<char>,
) -> Map<Seq<char>, Json> {
    let with_tools = members.insert("tools"@, Json::Array(own_tools(members) + tools));
    if members.contains_key("tool_choice"@) {
        with_tools
    } else {
        with_tools.insert("tool_choice"@, Json::Str(tool_choice))
    }
}

proof fn lemma_tool_keys_differ()
    ensures
        "tools"@ != "tool_choice"@,
{
    reveal_strlit("tools");
    reveal_strlit("tool_choice");
    assert("tools"@.len() != "tool_choice"@.len());
}

proof fn lemma_jsons_of_sum(a: Seq<serde_json::Value>, b: Seq<serde_json::Value>)
    ensures
        jsons_of(a + b) == jsons_of(a) + jsons_of(b),
{
    assert(jsons_of(a + b) =~= jsons_of(a) + jsons_of(b));
}

/// Adds tools to a request body, and a `tool_choice` where it has none.
pub fn enrich_request_with_tools(
    value: &mut serde_json::Value,
    tools: Vec<serde_json::Value>,
    tool_choice: &str,
) -> (r: Result<(), FilterError>)
    ensures
        match json_of(*old(value)) {
            Json::Object(members) => r is Ok && json_of(*final(value)) == Json::Object(
                enriched(members, jsons_of(tools@), tool_choice@),
            ),
            _ => {
                &&& r matches Err(error) && error@ == "request body is not a JSON object"@
                &&& *final(value) == *old(value)
            },
        },
{
    proof {
        lemma_tool_keys_differ();
    }
    let ghost new_tools = jsons_of(tools@);
    let obj = match value.as_object_mut() {
        Some(obj) => obj,
        None => {
            return Err(FilterError::new("request body is not a JSON object".to_owned()));
        },
    };
    let ghost members = members_of(*obj);
    let mut tools = tools;
    let mut merged = false;
    if let Some(existing) = member_mut(obj, "tools") {
        if let Some(items) = existing.as_array_mut() {
            proof {
                lemma_jsons_of_sum(items@, tools@);
            }
            items.append(&mut tools);
            merged = true;
        }
    }
    if !merged {
        obj.insert("tools".to_owned(), array_value(tools));
        assert(Seq::<Json>::empty() + new_tools =~= new_tools);
    }
    assert(members_of(*obj) =~= members.insert(
        "tools"@,
        Json::Array(own_tools(members) + new_tools),
    ));
    if !has_member(obj, "tool_choice") {
        obj.insert("tool_choice".to_owned(), text_value(tool_choice.to_owned()));
    }
    Ok(())
}

// ---- Requests that cannot be enriched ----

/// The answer to a bad request, with a plain text message.
pub open spec fn is_bad_request(action: FilterAction, message: Seq<char>) -> bool {
    action matches FilterAction::Reject(rejection) && {
        &&& rejection.status == 400
        &&& rejection.headers@.len() == 1
        &&& rejection.headers@[0].0@ == "content-type"@
        &&& rejection.headers@[0].1@ == "text/plain"@
        &&& rejection.body@ == message
    }
}

/// What becomes of a request whose body is not JSON.
pub fn invalid_body_action(behavior: InvalidBodyBehavior, message: &'static str) -> (action:
    FilterAction)
    ensures
        match behavior {
            InvalidBodyBehavior::Continue => action is Continue,
            InvalidBodyBehavior::Reject => is_bad_request(action, message@),
        },
{
    match behavior {
        InvalidBodyBehavior::Continue => FilterAction::Continue,
        InvalidBodyBehavior::Reject => {
            let mut headers: Vec<(String, String)> = Vec::new();
            headers.push(("content-type".to_owned(), "text/plain".to_owned()));
            FilterAction::Reject(Rejection { status: 400, headers, body: message.to_owned() })
        },
    }
}

// ---- The filter ----

/// What becomes of a piece of a request body.
pub enum BodyOutcome {
    /// It is left as it is.
    Untouched,
    /// It is not JSON.
    NotJson,
    /// It is JSON, but no object.
    NotAnObject,
    /// The request is enriched: its new members.
    Enriched(Map<Seq<char>, Json>),
}

/// Only a whole body is enriched, and only where the metadata holds a list of tools.
pub open spec fn body_outcome(
    metadata: Map<Seq<char>, Seq<char>>,
    body: Option<Seq<u8>>,
    end_of_stream: bool,
    tool_choice: Seq<char>,
) -> BodyOutcome {
    if !end_of_stream || body is None || !metadata.contains_key("mcp_tools"@) {
        BodyOutcome::Untouched
    } else {
        match json_list_in_text(metadata["mcp_tools"@]) {
            None => BodyOutcome::Untouched,
            Some(tools) => match json_in_bytes(body->0) {
                None => BodyOutcome::NotJson,
                Some(Json::Object(members)) => BodyOutcome::Enriched(
                    enriched(members, tools, tool_choice),
                ),
                Some(_) => BodyOutcome::NotAnObject,
            },
        }
    }
}

/// Nothing but one more `content-length` header differs from `before`; it gives `length`.
pub open spec fn content_length_added(
    before: HttpFilterContext,
    after: HttpFilterContext,
    length: nat,
) -> bool {
    &&& after.request_headers == before.request_headers
    &&& after.filter_metadata == before.filter_metadata
    &&& after.extra_request_headers@.len() == before.extra_request_headers@.len() + 1
    &&& after.extra_request_headers@.drop_last() == before.extra_request_headers@
    &&& after.extra_request_headers@.last().0@ == "content-length"@
    &&& after.extra_request_headers@.last().1@ == decimal(length)
}

/// Injects the tools in the metadata into the `tools` of chat completion requests.
pub struct McpToolsEnricherFilter {
    max_body_bytes: usize,
    on_invalid: InvalidBodyBehavior,
    tool_choice: String,
}

impl View for McpToolsEnricherFilter {
    type V = EnricherView;

    closed spec fn view(&self) -> EnricherView {
        EnricherView {
            max_body_bytes: self.max_body_bytes,
            on_invalid: self.on_invalid,
            tool_choice: self.tool_choice@,
        }
    }
}

impl McpToolsEnricherFilter {
    /// The filter with these settings, unless `checked`, the outcome of checking them, is an
    /// error.
    pub fn from_config(
        config: McpToolsEnricherConfig,
        checked: Result<(), FilterError>,
    ) -> (r: Result<Self, FilterError>)
        ensures
            match (r, checked) {
                (Ok(filter), Ok(_)) => filter@ == config@,
                (Err(error), Err(refusal)) => error == refusal,
                _ => false,
            },
    {
        if let Err(refusal) = checked {
            return Err(refusal);
        }
        Ok(
            McpToolsEnricherFilter {
                max_body_bytes: config.max_body_bytes,
                on_invalid: config.on_invalid,
                tool_choice: config.tool_choice,
            },
        )
    }

    /// The filter's name.
    pub fn name(&self) -> (name: &'static str)
        ensures
            name@ == "mcp_tools_enricher"@,
    {
        "mcp_tools_enricher"
    }

    /// A request goes on without a change until its body comes.
    pub fn on_request(&self, ctx: &mut HttpFilterContext) -> (r: Result<FilterAction, FilterError>)
        ensures
            *final(ctx) == *old(ctx),
            r matches Ok(action) && action is Continue,
    {
        Ok(FilterAction::Continue)
    }

    /// Request bodies are read and changed.
    pub fn request_body_access(&self) -> (access: BodyAccess)
        ensures
            access == BodyAccess::ReadWrite,
    {
        BodyAccess::ReadWrite
    }

    /// Request bodies are collected, up to the configured number of bytes.
    pub fn request_body_mode(&self) -> (mode: BodyMode)
        ensures
            mode == (BodyMode::StreamBuffer { max_bytes: Some(self@.max_body_bytes) }),
    {
        BodyMode::StreamBuffer { max_bytes: Some(self.max_body_bytes) }
    }

    /// Enriches a request body with the tools in the metadata.
    pub fn on_request_body(
        &self,
        ctx: &mut HttpFilterContext,
        body: &mut Option<bytes::Bytes>,
        end_of_stream: bool,
    ) -> (r: Result<FilterAction, FilterError>)
        ensures
            match body_outcome(
                old(ctx).filter_metadata@,
                body_content(*old(body)),
                end_of_stream,
                self@.tool_choice,
            ) {
                BodyOutcome::Untouched => {
                    &&& r matches Ok(action) && action is Continue
                    &&& *final(body) == *old(body)
                    &&& *final(ctx) == *old(ctx)
                },
                BodyOutcome::NotJson => {
                    &&& r matches Ok(action) && match self@.on_invalid {
                        InvalidBodyBehavior::Continue => action is Continue,
                        InvalidBodyBehavior::Reject => is_bad_request(action, "invalid JSON body"@),
                    }
                    &&& *final(body) == *old(body)
                    &&& *final(ctx) == *old(ctx)
                },
                BodyOutcome::NotAnObject => {
                    &&& r matches Err(error) && error@ == "request body is not a JSON object"@
                    &&& *final(body) == *old(body)
                    &&& *final(ctx) == *old(ctx)
                },
                BodyOutcome::Enriched(members) => {
                    &&& r matches Ok(action) && action is Continue
                    &&& body_content(*final(body)) == Some(
                        encode_utf8(json_text(Json::Object(members))),
                    )
                    &&& reads_back(Json::Object(members), nesting_limit()) ==> json_in_bytes(
                        body_content(*final(body))->0,
                    ) == Some(Json::Object(members))
                    &&& content_length_added(
                        *old(ctx),
                        *final(ctx),
                        encode_utf8(json_text(Json::Object(members))).len(),
                    )
                },
            },
    {
        if !end_of_stream {
            return Ok(FilterAction::Continue);
        }
        let raw = match body.as_ref() {
            Some(raw) => raw,
            None => {
                return Ok(FilterAction::Continue);
            },
        };
        let tools_json = match ctx.filter_metadata.get("mcp_tools") {
            Some(text) => text,
            None => {
                return Ok(FilterAction::Continue);
            },
        };
        let tools = match read_list(tools_json.as_str()) {
            Ok(tools) => tools,
            Err(_) => {
                return Ok(FilterAction::Continue);
            },
        };
        let mut value = match read_value(body_slice(raw)) {
            Ok(value) => value,
            Err(_) => {
                return Ok(invalid_body_action(self.on_invalid, "invalid JSON body"));
            },
        };
        if let Err(error) = enrich_request_with_tools(&mut value, tools, self.tool_choice.as_str()) {
            return Err(error);
        }
        let serialized = match write_value(&value) {
            Ok(serialized) => serialized,
            Err(e) => {
                return Err(
                    FilterError::new(
                        "mcp_tools_enricher: ".to_owned().concat(json_error_message(&e).as_str()),
                    ),
                );
            },
        };
        let length = serialized.len();
        *body = Some(body_from(serialized));
        ctx.extra_request_headers.push(("content-length".to_owned(), decimal_text(length as u64)));
        assert(ctx.extra_request_headers@.drop_last() =~= old(ctx).extra_request_headers@);
        Ok(FilterAction::Continue)
    }
}

// ---- What holds of enriched requests ----

/// Enriching a request changes none of its members but `tools` and `tool_choice`.
pub proof fn enriching_keeps_other_members(
    members: Map<Seq<char>, Json>,
    tools: Seq<Json>,
    tool_choice: Seq<char>,
    key: Seq<char>,
)
    requires
        key != "tools"@,
        key != "tool_choice"@,
    ensures
        enriched(members, tools, tool_choice).contains_key(key) == members.contains_key(key),
        members.contains_key(key) ==> enriched(members, tools, tool_choice)[key] == members[key],
{
}

/// An enriched request has its own tools first, in their order, and then all the new ones, in
/// theirs.
pub proof fn enriching_appends_the_tools(
    members: Map<Seq<char>, Json>,
    tools: Seq<Json>,
    tool_choice: Seq<char>,
)
    ensures
        enriched(members, tools, tool_choice).contains_key("tools"@),
        enriched(members, tools, tool_choice)["tools"@] == Json::Array(own_tools(members) + tools),
        own_tools(enriched(members, tools, tool_choice)) == own_tools(members) + tools,
{
    lemma_tool_keys_differ();
}

/// A request's own `tool_choice` is kept; where it has none, it gets the given one.
pub proof fn enriching_keeps_the_tool_choice(
    members: Map<Seq<char>, Json>,
    tools: Seq<Json>,
    tool_choice: Seq<char>,
)
    ensures
        enriched(members, tools, tool_choice).contains_key("tool_choice"@),
        enriched(members, tools, tool_choice)["tool_choice"@] == if members.contains_key(
            "tool_choice"@,
        ) {
            members["tool_choice"@]
        } else {
            Json::Str(tool_choice)
        },
{
    lemma_tool_keys_differ();
}

/// Enriching twice is enriching once with both lists of tools; the first `tool_choice` counts.
pub proof fn enriching_twice(
    members: Map<Seq<char>, Json>,
    tools: Seq<Json>,
    more_tools: Seq<Json>,
    tool_choice: Seq<char>,
    other_choice: Seq<char>,
)
    ensures
        enriched(enriched(members, tools, tool_choice), more_tools, other_choice) == enriched(
            members,
            tools + more_tools,
            tool_choice,
        ),
{
    lemma_tool_keys_differ();
    let once = enriched(members, tools, tool_choice);
    enriching_appends_the_tools(members, tools, tool_choice);
    assert(own_tools(members) + tools + more_tools =~= own_tools(members) + (tools + more_tools));
    assert(enriched(once, more_tools, other_choice) =~= enriched(
        members,
        tools + more_tools,
        tool_choice,
    ));
}

// ---- The same, read off requests and answers alone ----

/// Settings say exactly what stands in their fields.
pub proof fn settings_say_what_they_hold(config: McpToolsEnricherConfig)
    ensures
        config@.max_body_bytes == config.max_body_bytes,
        config@.on_invalid == config.on_invalid,
        config@.tool_choice == config.tool_choice@,
{
}

/// Whatever other members a request has: where its `tools` are an array, the new tools follow
/// what stands in that array; where they are missing or anything else, there are just the new
/// tools.
pub proof fn new_tools_follow_the_array(
    members: Map<Seq<char>, Json>,
    tools: Seq<Json>,
    tool_choice: Seq<char>,
)
    ensures
        enriched(members, tools, tool_choice).contains_key("tools"@),
        members.contains_key("tools"@) ==> (members["tools"@] matches Json::Array(own) ==> enriched(
            members,
            tools,
            tool_choice,
        )["tools"@] == Json::Array(own + tools)),
        !members.contains_key("tools"@) || !(members["tools"@] is Array) ==> enriched(
            members,
            tools,
            tool_choice,
        )["tools"@] == Json::Array(tools),
{
    lemma_tool_keys_differ();
    assert(Seq::<Json>::empty() + tools =~= tools);
}

/// A piece that is not the last, a request without a body and metadata without tools leave
/// everything as it is, and so does a text in the metadata that is no list.
pub proof fn body_is_left_without_list_of_tools(
    metadata: Map<Seq<char>, Seq<char>>,
    body: Option<Seq<u8>>,
    end_of_stream: bool,
    tool_choice: Seq<char>,
)
    ensures
        body_outcome(metadata, body, end_of_stream, tool_choice) is Untouched <==> {
            ||| !end_of_stream
            ||| body is None
            ||| !metadata.contains_key("mcp_tools"@)
            ||| json_list_in_text(metadata["mcp_tools"@]) is None
        },
{
}

/// With a list of tools in the metadata, a whole body is looked at: one that is not JSON, and one
/// that is JSON but no object, are told apart from an object. An object is enriched with every
/// tool of that list, in its order, after what stands in its own array of tools; it keeps its
/// `tool_choice` or gets the configured one, and keeps all its other members.
pub proof fn whole_body_gets_all_tools(
    metadata: Map<Seq<char>, Seq<char>>,
    tools: Seq<Json>,
    body: Seq<u8>,
    tool_choice: Seq<char>,
)
    requires
        metadata.contains_key("mcp_tools"@),
        json_list_in_text(metadata["mcp_tools"@]) == Some(tools),
    ensures
        body_outcome(metadata, Some(body), true, tool_choice) is NotJson <==> json_in_bytes(
            body,
        ) is None,
        body_outcome(metadata, Some(body), true, tool_choice) is NotAnObject <==> json_in_bytes(
            body,
        ) is Some && !(json_in_bytes(body)->0 is Object),
        json_in_bytes(body) matches Some(Json::Object(members)) ==> {
            &&& body_outcome(metadata, Some(body), true, tool_choice) is Enriched
            &&& {
                let result = body_outcome(metadata, Some(body), true, tool_choice)->Enriched_0;
                &&& result.contains_key("tools"@)
                &&& members.contains_key("tools"@) && members["tools"@] is Array
                    ==> result["tools"@] == Json::Array(members["tools"@]->Array_0 + tools)
                &&& !members.contains_key("tools"@) || !(members["tools"@] is Array)
                    ==> result["tools"@] == Json::Array(tools)
                &&& result.contains_key("tool_choice"@)
                &&& members.contains_key("tool_choice"@) ==> result["tool_choice"@]
                    == members["tool_choice"@]
                &&& !members.contains_key("tool_choice"@) ==> result["tool_choice"@] == Json::Str(
                    tool_choice,
                )
                &&& forall|key: Seq<char>|
                    key != "tools"@ && key != "tool_choice"@ ==> #[trigger] result.contains_key(key)
                        == members.contains_key(key)
                &&& forall|key: Seq<char>|
                    key != "tools"@ && key != "tool_choice"@ && members.contains_key(key)
                        ==> #[trigger] result[key] == members[key]
            }
        },
{
    lemma_tool_keys_differ();
    if let Some(Json::Object(members)) = json_in_bytes(body) {
        new_tools_follow_the_array(members, tools, tool_choice);
    }
}

/// A bad request is answered with status 400, the one header `content-type: text/plain`, and the
/// message as the body.
pub proof fn bad_request_is_status_400(rejection: Rejection, message: Seq<char>)
    ensures
        !is_bad_request(FilterAction::Continue, message),
        is_bad_request(FilterAction::Reject(rejection), message) <==> {
            &&& rejection.status == 400
            &&& rejection.headers@.len() == 1
            &&& rejection.headers@[0].0@ == "content-type"@
            &&& rejection.headers@[0].1@ == "text/plain"@
            &&& rejection.body@ == message
        },
{
}

/// Announcing a length adds exactly one header behind those that were to be added before, with
/// the length in decimal, and changes neither the request's headers nor the metadata.
pub proof fn announced_length_is_one_more_header(
    before: HttpFilterContext,
    after: HttpFilterContext,
    length: nat,
)
    requires
        content_length_added(before, after, length),
    ensures
        after.request_headers == before.request_headers,
        after.filter_metadata == before.filter_metadata,
        after.extra_request_headers@.len() == before.extra_request_headers@.len() + 1,
        forall|i: int|
            0 <= i < before.extra_request_headers@.len() ==> #[trigger]
            after.extra_request_headers@[i] == before.extra_request_headers@[i],
        after.extra_request_headers@.last().0@ == "content-length"@,
        after.extra_request_headers@.last().1@ == decimal(length),
{
    assert forall|i: int| 0 <= i < before.extra_request_headers@.len() implies #[trigger]
    after.extra_request_headers@[i] == before.extra_request_headers@[i] by {
        assert(after.extra_request_headers@.drop_last()[i] == before.extra_request_headers@[i]);
    }
}

} // verus!
