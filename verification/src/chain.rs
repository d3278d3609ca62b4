//! What holds of the filters as a chain: each one finds in the metadata what the ones before it
//! have put there.

use crate::context_extractor::{
    extract, extraction_fills_required_keys, header_text_is_stored, RuleView, ValidationView,
};
use crate::headers::header_text;
use crate::json::{json_in_bytes, json_list_in_text, Json};
use crate::mcp_tools_enricher::{
    body_outcome, enriched, enriching_appends_the_tools, own_tools, whole_body_gets_all_tools,
    BodyOutcome,
};
use crate::skill_resolver::{
    is_skill_key, resolution_keeps_other_keys, resolve_all, with_failure, with_found_skill,
    with_given_skill, without_skill, ResolverView, SkillEventView, SkillStateView,
};
use crate::vmcp_manager::{
    create_request, every_listed_tool_is_stored, known_environment_gets_a_server, manage,
    manage_all, skill_in, tool_jsons, vmcp_name, with_tools, ManagerView, ToolView, VmcpCommandView,
    VmcpEventView, VmcpStateView,
};
use vstd::prelude::*;

verus! {

proof fn lemma_environment_is_no_skill_key()
    ensures
        !is_skill_key("env_id"@),
{
    reveal_strlit("env_id");
    reveal_strlit("skill_uuid");
    reveal_strlit("skill_name");
    reveal_strlit("skill_resolution_method");
    reveal_strlit("skill_resolution_error");
    assert("env_id"@.len() < "skill_uuid"@.len());
    assert("env_id"@.len() < "skill_name"@.len());
    assert("env_id"@.len() < "skill_resolution_method"@.len());
    assert("env_id"@.len() < "skill_resolution_error"@.len());
}

/// Where a rule that is required or has a default extracts the environment, every request whose
/// extraction succeeds asks the store for a server of that environment, whatever comes of its
/// skill.
pub proof fn extracted_environment_reaches_the_store(
    rules: Seq<RuleView>,
    validation: Option<ValidationView>,
    headers: Map<Seq<u8>, Seq<Seq<u8>>>,
    metadata: Map<Seq<char>, Seq<char>>,
    i: int,
    resolver: ResolverView,
    events: Seq<SkillEventView>,
    manager: ManagerView,
)
    requires
        extract(rules, validation, headers, metadata).1 is None,
        0 <= i < rules.len(),
        rules[i].metadata_key == "env_id"@,
        rules[i].required || rules[i].default is Some,
    ensures
        ({
            let extracted = extract(rules, validation, headers, metadata).0;
            let resolved = resolve_all(resolver, SkillStateView::Start, events, extracted).1;
            let env_id = extracted["env_id"@];
            let name = vmcp_name(manager.vmcp_name_template, env_id);
            &&& extracted.contains_key("env_id"@)
            &&& manage(manager, VmcpStateView::Start, VmcpEventView::Request, resolved) == (
                VmcpStateView::Creating { name },
                VmcpCommandView::Post(create_request(manager, name, skill_in(resolved), env_id)),
                resolved,
            )
        }),
{
    let extracted = extract(rules, validation, headers, metadata).0;
    extraction_fills_required_keys(rules, validation, headers, metadata, i);
    lemma_environment_is_no_skill_key();
    resolution_keeps_other_keys(resolver, SkillStateView::Start, events, extracted, "env_id"@);
}

/// The store is told the skill that was resolved, from the environment or by its name. A
/// request for which none was resolved tells the store of a skill only where its metadata named
/// one before.
pub proof fn resolved_skill_reaches_the_store(
    metadata: Map<Seq<char>, Seq<char>>,
    skill_name: Seq<char>,
    uuid: Seq<char>,
    message: Seq<char>,
)
    ensures
        skill_in(with_given_skill(metadata, uuid)) == Some(uuid),
        skill_in(with_found_skill(metadata, skill_name, uuid)) == Some(uuid),
        skill_in(with_failure(metadata, message)) == skill_in(metadata),
        skill_in(without_skill(metadata)) == skill_in(metadata),
{
    reveal_strlit("skill_uuid");
    reveal_strlit("skill_name");
    reveal_strlit("skill_resolution_method");
    reveal_strlit("skill_resolution_error");
    assert("skill_uuid"@[6] != "skill_name"@[6]);
    assert("skill_uuid"@.len() < "skill_resolution_method"@.len());
    assert("skill_uuid"@.len() < "skill_resolution_error"@.len());
}

/// The tools that were put into the metadata, and can be read back from there, are the tools
/// that a JSON object as request body is enriched with: they follow the request's own.
pub proof fn stored_tools_are_injected(
    metadata: Map<Seq<char>, Seq<char>>,
    tools: Seq<ToolView>,
    body: Seq<u8>,
    members: Map<Seq<char>, Json>,
    tool_choice: Seq<char>,
)
    requires
        json_list_in_text(with_tools(metadata, tools)["mcp_tools"@]) == Some(tool_jsons(tools)),
        json_in_bytes(body) == Some(Json::Object(members)),
    ensures
        body_outcome(with_tools(metadata, tools), Some(body), true, tool_choice)
            == BodyOutcome::Enriched(enriched(members, tool_jsons(tools), tool_choice)),
        enriched(members, tool_jsons(tools), tool_choice)["tools"@] == Json::Array(
            own_tools(members) + tool_jsons(tools),
        ),
{
    enriching_appends_the_tools(members, tool_jsons(tools), tool_choice);
}

/// Where no tools were fetched, and none were in the metadata before, request bodies are left
/// as they are.
pub proof fn bodies_without_tools_are_untouched(
    manager: ManagerView,
    events: Seq<VmcpEventView>,
    metadata: Map<Seq<char>, Seq<char>>,
    body: Option<Seq<u8>>,
    end_of_stream: bool,
    tool_choice: Seq<char>,
)
    requires
        !metadata.contains_key("mcp_tools"@),
        forall|i: int| 0 <= i < events.len() ==> !(#[trigger] events[i] matches VmcpEventView::Tools(
            Ok(_),
        )),
    ensures
        body_outcome(
            manage_all(manager, VmcpStateView::Start, events, metadata).1,
            body,
            end_of_stream,
            tool_choice,
        ) is Untouched,
{
    lemma_no_tools_are_stored(manager, VmcpStateView::Start, events, metadata);
}

proof fn lemma_no_tools_are_stored(
    manager: ManagerView,
    state: VmcpStateView,
    events: Seq<VmcpEventView>,
    metadata: Map<Seq<char>, Seq<char>>,
)
    requires
        !metadata.contains_key("mcp_tools"@),
        forall|i: int| 0 <= i < events.len() ==> !(#[trigger] events[i] matches VmcpEventView::Tools(
            Ok(_),
        )),
    ensures
        !manage_all(manager, state, events, metadata).1.contains_key("mcp_tools"@),
    decreases events.len(),
{
    if events.len() > 0 {
        reveal_strlit("mcp_tools");
        reveal_strlit("vmcp_uuid");
        reveal_strlit("vmcp_name");
        reveal_strlit("vmcp_port");
        reveal_strlit("vmcp_tools_count");
        assert("mcp_tools"@[0] == 'm' && "vmcp_uuid"@[0] == 'v' && "vmcp_name"@[0] == 'v'
            && "vmcp_port"@[0] == 'v' && "vmcp_tools_count"@[0] == 'v');
        let next = manage(manager, state, events[0], metadata);
        assert(!next.2.contains_key("mcp_tools"@));
        let rest = events.skip(1);
        assert forall|i: int| 0 <= i < rest.len() implies !(
        #[trigger] rest[i] matches VmcpEventView::Tools(Ok(_))) by {
            assert(rest[i] == events[i + 1]);
        }
        lemma_no_tools_are_stored(manager, next.0, rest, next.2);
    }
}

/// From the server to the body: the tools that a server lists, where the text that is stored for
/// them reads back, all reach a request whose body is an object. They follow the tools in its own
/// array, as many as the server lists and in the server's order, each with its own name,
/// description and input schema.
pub proof fn every_listed_tool_reaches_the_body(
    manager: ManagerView,
    tools: Seq<ToolView>,
    metadata: Map<Seq<char>, Seq<char>>,
    body: Seq<u8>,
    members: Map<Seq<char>, Json>,
    own: Seq<Json>,
    tool_choice: Seq<char>,
)
    requires
        json_list_in_text(
            manage(
                manager,
                VmcpStateView::ListingTools,
                VmcpEventView::Tools(Ok(tools)),
                metadata,
            ).2["mcp_tools"@],
        ) == Some(tool_jsons(tools)),
        json_in_bytes(body) == Some(Json::Object(members)),
        members.contains_key("tools"@) && members["tools"@] is Array ==> own
            == members["tools"@]->Array_0,
        !members.contains_key("tools"@) || !(members["tools"@] is Array) ==> own.len() == 0,
    ensures
        ({
            let stored = manage(
                manager,
                VmcpStateView::ListingTools,
                VmcpEventView::Tools(Ok(tools)),
                metadata,
            ).2;
            let outcome = body_outcome(stored, Some(body), true, tool_choice);
            let all = outcome->Enriched_0["tools"@]->Array_0;
            &&& outcome is Enriched
            &&& outcome->Enriched_0["tools"@] is Array
            &&& all.len() == own.len() + tools.len()
            &&& forall|i: int| 0 <= i < own.len() ==> #[trigger] all[i] == own[i]
            &&& forall|i: int|
                0 <= i < tools.len() ==> {
                    let tool = all[own.len() + i];
                    let function = tool->Object_0["function"@];
                    &&& tool is Object
                    &&& tool->Object_0["type"@] == Json::Str("function"@)
                    &&& function is Object
                    &&& function->Object_0["name"@] == Json::Str((#[trigger] tools[i]).name)
                    &&& function->Object_0["description"@] == Json::Str(tools[i].description)
                    &&& function->Object_0["parameters"@] == tools[i].input_schema
                }
        }),
{
    let stored = manage(
        manager,
        VmcpStateView::ListingTools,
        VmcpEventView::Tools(Ok(tools)),
        metadata,
    ).2;
    let list = every_listed_tool_is_stored(manager, tools, metadata);
    whole_body_gets_all_tools(stored, list, body, tool_choice);
    let all = body_outcome(stored, Some(body), true, tool_choice)->Enriched_0["tools"@]->Array_0;
    assert(all =~= own + list);
    assert forall|i: int| 0 <= i < tools.len() implies {
        let tool = all[own.len() + i];
        let function = tool->Object_0["function"@];
        &&& tool is Object
        &&& tool->Object_0["type"@] == Json::Str("function"@)
        &&& function is Object
        &&& function->Object_0["name"@] == Json::Str((#[trigger] tools[i]).name)
        &&& function->Object_0["description"@] == Json::Str(tools[i].description)
        &&& function->Object_0["parameters"@] == tools[i].input_schema
    } by {
        assert(all[own.len() + i] == list[i]);
    }
}

/// From the header to the store: where the request's header for the environment gives a text, and
/// no later rule stores an environment, the request to the store carries that very text, whatever
/// comes of the skill.
pub proof fn environment_header_reaches_the_store(
    rules: Seq<RuleView>,
    validation: Option<ValidationView>,
    headers: Map<Seq<u8>, Seq<Seq<u8>>>,
    metadata: Map<Seq<char>, Seq<char>>,
    i: int,
    env_id: Seq<char>,
    resolver: ResolverView,
    events: Seq<SkillEventView>,
    manager: ManagerView,
)
    requires
        extract(rules, validation, headers, metadata).1 is None,
        0 <= i < rules.len(),
        rules[i].metadata_key == "env_id"@,
        header_text(headers, rules[i].name) == Some(env_id),
        forall|j: int|
            i < j < rules.len() ==> (#[trigger] rules[j]).metadata_key != "env_id"@,
    ensures
        ({
            let extracted = extract(rules, validation, headers, metadata).0;
            let resolved = resolve_all(resolver, SkillStateView::Start, events, extracted).1;
            let command = manage(
                manager,
                VmcpStateView::Start,
                VmcpEventView::Request,
                resolved,
            ).1;
            &&& command is Post
            &&& command->Post_0.headers.len() == 1
            &&& command->Post_0.headers[0].0 == "skillberry-context-env-id"@
            &&& command->Post_0.headers[0].1 == env_id
            &&& command->Post_0.query[1].1 == "VMCP server for environment "@ + env_id
        }),
{
    let extracted = extract(rules, validation, headers, metadata).0;
    header_text_is_stored(rules, validation, headers, metadata, i, env_id);
    lemma_environment_is_no_skill_key();
    resolution_keeps_other_keys(resolver, SkillStateView::Start, events, extracted, "env_id"@);
    known_environment_gets_a_server(
        manager,
        resolve_all(resolver, SkillStateView::Start, events, extracted).1,
    );
}

} // verus!
