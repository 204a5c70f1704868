//! What holds of the server whatever the request: the laws that clients and
//! operators rely on, stated over the models of the other modules.

use vstd::prelude::*;
use crate::client::{
    action_of,
    key_text,
    response_outcome,
    FetchActionView,
    FetchEventView,
    Stage,
    UpstreamRequestView,
};
use crate::config::SettingsView;
use crate::error::{error_object, AppErrorView};
use crate::json::{json_text, JsonView};
use crate::mcp::{
    dispatch,
    is_known_method,
    method_not_found,
    method_of,
    missing_parameters,
    response,
    tool_answer,
    tool_plan,
    JsonRpcRequestView,
    McpStepView,
    Method,
    ToolPlanView,
};
use crate::server::{
    authorized,
    delivery,
    http_reply_of,
    http_step,
    line_step_of,
    message_event,
    reply_text,
    HttpReplyView,
    HttpStepView,
    LineStepView,
};
use crate::tools::{all_tools, core_only, core_tools, is_core_name, name_of, tool_at};

verus! {

/// The code that an error object carries.
pub open spec fn code_of(error: JsonView) -> JsonView {
    error.at("code"@)
}

/// An error object carries its code under `code`.
pub proof fn lemma_error_object_code(code: i64, message: Seq<char>)
    ensures
        code_of(error_object(code, message)) == JsonView::integer(code),
        error_object(code, message).at("message"@) == JsonView::Str(message),
{
    reveal_strlit("code");
    reveal_strlit("message");
    assert("code"@.len() == 4 && "message"@.len() == 7);
}

/// The names of the methods are five different texts.
proof fn lemma_method_names()
    ensures
        method_of("initialize"@) == Method::Initialize,
        method_of("notifications/initialized"@) == Method::Initialized,
        method_of("tools/list"@) == Method::ToolsList,
        method_of("tools/call"@) == Method::ToolsCall,
        method_of("ping"@) == Method::Ping,
{
    reveal_strlit("initialize");
    reveal_strlit("notifications/initialized");
    reveal_strlit("tools/list");
    reveal_strlit("tools/call");
    reveal_strlit("ping");
    assert("initialize"@.len() == 10 && "notifications/initialized"@.len() == 25);
    assert("tools/list"@.len() == 10 && "tools/call"@.len() == 10 && "ping"@.len() == 4);
    assert("tools/list"@[0] == 't' && "tools/call"@[0] == 't' && "initialize"@[0] == 'i');
    assert("tools/call"@[6] == 'c' && "tools/list"@[6] == 'l');
}

/// A notification that the client is initialized is never answered: no
/// line is written for it, the response over HTTP has no body, and no event
/// is pushed to any stream.
pub proof fn law_initialized_is_never_answered<T>(
    request: JsonRpcRequestView,
    settings: SettingsView,
    auth_token: Option<Seq<char>>,
    authorization: Option<Seq<char>>,
    table: Map<Seq<char>, T>,
    session_id: Seq<char>,
)
    requires
        request.method == "notifications/initialized"@,
    ensures
        dispatch(request, settings) == (McpStepView::Reply {
            id: None,
            result: Ok(JsonView::empty_object()),
        }),
        line_step_of(dispatch(request, settings)) == LineStepView::Silent,
        authorized(auth_token, authorization) ==> http_step(
            auth_token,
            authorization,
            request,
            settings,
        ) == HttpStepView::Respond(HttpReplyView { status: 204, body: None }),
        delivery(table, session_id, None, Ok(JsonView::empty_object())) is None,
{
    lemma_method_names();
}

/// A request without an id is never answered, whatever its method: where
/// no tool has to run, nothing is written, the response over HTTP has no
/// body, and nothing is pushed to a stream.
pub proof fn law_notification_is_never_answered<T>(
    request: JsonRpcRequestView,
    settings: SettingsView,
    table: Map<Seq<char>, T>,
    session_id: Seq<char>,
)
    requires
        request.id is None,
    ensures
        !(line_step_of(dispatch(request, settings)) is Write),
        dispatch(request, settings) matches McpStepView::Reply { id, result } ==> id is None
            && http_reply_of(id, result) == (HttpReplyView { status: 204, body: None })
            && delivery(table, session_id, id, result) is None,
        dispatch(request, settings) matches McpStepView::Run { id, .. } ==> id is None,
        forall|result: Result<JsonView, JsonView>| reply_text(None, result) is None,
{
}

/// A request with an id that needs no tool is answered with that id, as it
/// came, unless it is the notification that the client is initialized.
pub proof fn law_answer_echoes_id(request: JsonRpcRequestView, settings: SettingsView)
    requires
        request.method != "notifications/initialized"@,
    ensures
        dispatch(request, settings) matches McpStepView::Reply { id, .. } ==> id == request.id,
        dispatch(request, settings) matches McpStepView::Run { id, .. } ==> id == request.id,
        forall|id: JsonView, result: Result<JsonView, JsonView>|
            (#[trigger] response(id, result)).at("id"@) == id,
{
    assert forall|id: JsonView, result: Result<JsonView, JsonView>|
        (#[trigger] response(id, result)).at("id"@) == id by {
        reveal_strlit("id");
        reveal_strlit("jsonrpc");
        reveal_strlit("result");
        reveal_strlit("error");
        assert("id"@.len() == 2 && "jsonrpc"@.len() == 7);
        assert("result"@.len() == 6 && "error"@.len() == 5);
    }
}

/// A response holds either a result or an error, never both and never
/// neither.
pub proof fn law_response_has_result_or_error(id: JsonView, result: Result<JsonView, JsonView>)
    ensures
        result is Ok ==> response(id, result).get("result"@) == Some(result->Ok_0) && response(
            id,
            result,
        ).get("error"@) is None,
        result is Err ==> response(id, result).get("error"@) == Some(result->Err_0) && response(
            id,
            result,
        ).get("result"@) is None,
        response(id, result).at("jsonrpc"@) == JsonView::Str("2.0"@),
{
    reveal_strlit("id");
    reveal_strlit("jsonrpc");
    reveal_strlit("result");
    reveal_strlit("error");
    assert("id"@.len() == 2 && "jsonrpc"@.len() == 7);
    assert("result"@.len() == 6 && "error"@.len() == 5);
}

/// A call of a tool that does not say which tool it calls, be it that it
/// has no parameters or that they hold no text under `name`, is answered
/// with the error code -32602.
pub proof fn law_call_without_name_is_invalid(request: JsonRpcRequestView, settings: SettingsView)
    requires
        request.method == "tools/call"@,
        !(request.params matches Some(p) && p.at("name"@) is Str),
    ensures
        dispatch(request, settings) == (McpStepView::Reply {
            id: request.id,
            result: Err(missing_parameters()),
        }),
        code_of(missing_parameters()) == JsonView::integer(-32602i64),
{
    lemma_method_names();
    lemma_error_object_code(-32602i64, "Missing parameters"@);
}

/// A method that the server does not know is answered with the error code
/// -32601.
pub proof fn law_unknown_method_is_not_found(request: JsonRpcRequestView, settings: SettingsView)
    requires
        !is_known_method(request.method),
    ensures
        dispatch(request, settings) == (McpStepView::Reply {
            id: request.id,
            result: Err(method_not_found()),
        }),
        code_of(method_not_found()) == JsonView::integer(-32601i64),
{
    lemma_error_object_code(-32601i64, "Method not found"@);
}

/// The methods that the server knows are those of the protocol, and no
/// other.
pub proof fn law_known_methods(name: Seq<char>)
    ensures
        is_known_method(name) <==> (name == "initialize"@ || name == "notifications/initialized"@
            || name == "tools/list"@ || name == "tools/call"@ || name == "ping"@),
{
}

/// Whether a tool goes by the given name.
pub open spec fn is_tool_name(name: Seq<char>) -> bool {
    name == "list_animals"@ || name == "list_species"@ || name == "list_metadata"@ || name
        == "list_metadata_types"@ || name == "list_breeds"@ || name == "get_breed"@ || name
        == "get_animal_details"@ || name == "get_contact_info"@ || name == "compare_animals"@
        || name == "search_organizations"@ || name == "get_organization_details"@ || name
        == "list_org_animals"@ || name == "search_adoptable_pets"@ || name == "get_random_pet"@
        || name == "list_adopted_animals"@ || name == "inspect_tool"@
}

/// A call of a tool that does not exist is answered with the error code
/// -32004, and nothing is asked of the upstream API for it.
pub proof fn law_unknown_tool_is_not_found(
    request: JsonRpcRequestView,
    settings: SettingsView,
    name: Seq<char>,
)
    requires
        request.method == "tools/call"@,
        request.params matches Some(p) && p.at("name"@) == JsonView::Str(name),
        !is_tool_name(name),
    ensures
        tool_plan(name, request.params, settings) == ToolPlanView::Done(
            Err(AppErrorView::NotFound),
        ),
        dispatch(request, settings) == (McpStepView::Reply {
            id: request.id,
            result: Err(error_object(-32004i64, "Resource Not Found"@)),
        }),
        code_of(error_object(-32004i64, "Resource Not Found"@)) == JsonView::integer(-32004i64),
{
    lemma_method_names();
    lemma_error_object_code(-32004i64, "Resource Not Found"@);
}

/// The failure of a tool is answered with the code of its kind.
pub proof fn law_tool_failure_code(e: AppErrorView)
    ensures
        tool_answer(Err(e)) is Err,
        code_of(tool_answer(Err(e))->Err_0) == JsonView::integer(e.code()),
        e.code() == -32004 || e.code() == -32005 || e.code() == -32602 || e.code() == -32603,
{
    lemma_error_object_code(e.code(), e.message());
}

/// A descriptor holds its name under `name`.
proof fn lemma_descriptor_name(name: Seq<char>, description: Seq<char>, input_schema: JsonView)
    ensures
        name_of(crate::tools::descriptor(name, description, input_schema)) == name,
{
    reveal_strlit("name");
    reveal_strlit("description");
    reveal_strlit("inputSchema");
    assert("name"@.len() == 4 && "description"@.len() == 11 && "inputSchema"@.len() == 11);
}

/// The name of the tool at each place of the full set.
proof fn lemma_tool_names()
    ensures
        name_of(tool_at(0)) == "list_animals"@,
        name_of(tool_at(1)) == "list_species"@,
        name_of(tool_at(2)) == "list_metadata"@,
        name_of(tool_at(3)) == "list_metadata_types"@,
        name_of(tool_at(4)) == "list_breeds"@,
        name_of(tool_at(5)) == "get_breed"@,
        name_of(tool_at(6)) == "get_animal_details"@,
        name_of(tool_at(7)) == "get_contact_info"@,
        name_of(tool_at(8)) == "compare_animals"@,
        name_of(tool_at(9)) == "get_organization_details"@,
        name_of(tool_at(10)) == "list_org_animals"@,
        name_of(tool_at(11)) == "search_organizations"@,
        name_of(tool_at(12)) == "search_adoptable_pets"@,
        name_of(tool_at(13)) == "get_random_pet"@,
        name_of(tool_at(14)) == "list_adopted_animals"@,
        name_of(tool_at(15)) == "inspect_tool"@,
{
    assert forall|name: Seq<char>, description: Seq<char>, input_schema: JsonView|
        name_of(#[trigger] crate::tools::descriptor(name, description, input_schema))
            == name by {
        lemma_descriptor_name(name, description, input_schema);
    }
}

/// The names of the tools are sixteen different texts.
proof fn lemma_names_differ()
    ensures
        forall|i: int, j: int|
            0 <= i < j < 16 ==> name_of(#[trigger] tool_at(i)) != name_of(#[trigger] tool_at(j)),
{
    lemma_tool_names();
    reveal_strlit("list_animals");
    reveal_strlit("list_species");
    reveal_strlit("list_metadata");
    reveal_strlit("list_metadata_types");
    reveal_strlit("list_breeds");
    reveal_strlit("get_breed");
    reveal_strlit("get_animal_details");
    reveal_strlit("get_contact_info");
    reveal_strlit("compare_animals");
    reveal_strlit("get_organization_details");
    reveal_strlit("list_org_animals");
    reveal_strlit("search_organizations");
    reveal_strlit("search_adoptable_pets");
    reveal_strlit("get_random_pet");
    reveal_strlit("list_adopted_animals");
    reveal_strlit("inspect_tool");
    assert("list_animals"@.len() == 12 && "list_species"@.len() == 12);
    assert("list_metadata"@.len() == 13 && "list_metadata_types"@.len() == 19);
    assert("list_breeds"@.len() == 11 && "get_breed"@.len() == 9);
    assert("get_animal_details"@.len() == 18 && "get_contact_info"@.len() == 16);
    assert("compare_animals"@.len() == 15 && "get_organization_details"@.len() == 24);
    assert("list_org_animals"@.len() == 16 && "search_organizations"@.len() == 20);
    assert("search_adoptable_pets"@.len() == 21 && "get_random_pet"@.len() == 14);
    assert("list_adopted_animals"@.len() == 20 && "inspect_tool"@.len() == 12);
    assert("list_animals"@[5] == 'a' && "list_species"@[5] == 's');
    assert("list_animals"@[0] == 'l' && "list_species"@[0] == 'l' && "inspect_tool"@[0] == 'i');
    assert("get_contact_info"@[0] == 'g' && "list_org_animals"@[0] == 'l');
    assert("search_organizations"@[0] == 's' && "list_adopted_animals"@[0] == 'l');
}

/// The name of a tool is its key: no two descriptors of the full set have
/// the same name.
pub proof fn law_tool_names_are_unique(i: int, j: int)
    requires
        0 <= i < all_tools().len(),
        0 <= j < all_tools().len(),
        name_of(all_tools()[i]) == name_of(all_tools()[j]),
    ensures
        i == j,
{
    lemma_names_differ();
    if i < j {
        assert(name_of(tool_at(i)) != name_of(tool_at(j)));
    } else if j < i {
        assert(name_of(tool_at(j)) != name_of(tool_at(i)));
    }
}

/// Every tool that is listed can be called: the dispatcher knows the name
/// of each descriptor of the full set.
pub proof fn law_every_listed_tool_can_be_called(index: int)
    requires
        0 <= index < all_tools().len(),
    ensures
        is_tool_name(name_of(all_tools()[index])),
{
    lemma_tool_names();
}

/// The core descriptors of a list are descriptors of the list, and no more
/// than it has.
proof fn lemma_core_only(tools: Seq<JsonView>)
    ensures
        core_only(tools).len() <= tools.len(),
        forall|t: JsonView| core_only(tools).contains(t) ==> tools.contains(t) && is_core_name(
            name_of(t),
        ),
        forall|i: int|
            0 <= i < tools.len() && is_core_name(name_of(tools[i])) ==> core_only(tools).contains(
                #[trigger] tools[i],
            ),
        (exists|i: int| 0 <= i < tools.len() && !is_core_name(name_of(tools[i]))) ==> core_only(
            tools,
        ).len() < tools.len(),
    decreases tools.len(),
{
    if tools.len() > 0 {
        let rest = tools.drop_last();
        let last = tools.last();
        let inner = core_only(rest);
        let outer = core_only(tools);
        lemma_core_only(rest);
        assert(outer == if is_core_name(name_of(last)) {
            inner.push(last)
        } else {
            inner
        });
        assert forall|t: JsonView| outer.contains(t) implies tools.contains(t) && is_core_name(
            name_of(t),
        ) by {
            let k = choose|k: int| 0 <= k < outer.len() && outer[k] == t;
            if k < inner.len() {
                assert(inner[k] == t);
                assert(inner.contains(t));
                assert(rest.contains(t));
                let j = choose|j: int| 0 <= j < rest.len() && rest[j] == t;
                assert(tools[j] == t);
            } else {
                assert(tools[tools.len() - 1] == t);
            }
        }
        assert forall|i: int|
            0 <= i < tools.len() && is_core_name(name_of(tools[i])) implies outer.contains(
            #[trigger] tools[i],
        ) by {
            if i == tools.len() - 1 {
                assert(outer[inner.len() as int] == tools[i]);
            } else {
                assert(rest[i] == tools[i]);
                assert(inner.contains(rest[i]));
                let k = choose|k: int| 0 <= k < inner.len() && inner[k] == rest[i];
                assert(outer[k] == tools[i]);
            }
        }
        if exists|i: int| 0 <= i < tools.len() && !is_core_name(name_of(tools[i])) {
            let i = choose|i: int| 0 <= i < tools.len() && !is_core_name(name_of(tools[i]));
            if i < tools.len() - 1 {
                assert(rest[i] == tools[i]);
            }
        }
    }
}

/// In lazy mode `tools/list` shows a part of what it shows otherwise: at
/// least one tool, not all of them, and none that is not in the full set.
pub proof fn law_lazy_list_is_strict_subset()
    ensures
        core_tools().len() > 0,
        core_tools().len() < all_tools().len(),
        forall|t: JsonView| core_tools().contains(t) ==> all_tools().contains(t),
        exists|t: JsonView| all_tools().contains(t) && !core_tools().contains(t),
{
    lemma_tool_names();
    lemma_core_only(all_tools());
    reveal_strlit("list_animals");
    reveal_strlit("search_adoptable_pets");
    reveal_strlit("get_animal_details");
    reveal_strlit("inspect_tool");
    assert("list_animals"@.len() == 12 && "search_adoptable_pets"@.len() == 21);
    assert("get_animal_details"@.len() == 18 && "inspect_tool"@.len() == 12);
    assert("list_animals"@[0] == 'l' && "inspect_tool"@[0] == 'i');
    assert(all_tools()[0] == tool_at(0));
    assert(all_tools()[6] == tool_at(6));
    assert(!is_core_name(name_of(all_tools()[0])));
    assert(is_core_name(name_of(all_tools()[6])));
    assert(core_tools().contains(all_tools()[6]));
    assert(all_tools().contains(all_tools()[0]));
    assert(!core_tools().contains(all_tools()[0]));
}

/// Without the token no request is looked at: whatever the request, the
/// response has status 401, and no tool runs.
pub proof fn law_unauthorized_is_refused(
    token: Seq<char>,
    authorization: Option<Seq<char>>,
    request: JsonRpcRequestView,
    settings: SettingsView,
)
    requires
        authorization != Some("Bearer "@ + token),
    ensures
        http_step(Some(token), authorization, request, settings) == HttpStepView::Respond(
            HttpReplyView { status: 401, body: Some("Unauthorized"@) },
        ),
{
}

/// The answer to a message reaches the stream that is open under the id of
/// its session, as one `message` event that carries the JSON-RPC response;
/// for an id under which no stream is open, it is dropped.
pub proof fn law_answer_reaches_its_session<T>(
    table: Map<Seq<char>, T>,
    session_id: Seq<char>,
    sender: T,
    other: Seq<char>,
    id: JsonView,
    result: Result<JsonView, JsonView>,
)
    requires
        !table.insert(session_id, sender).contains_key(other),
    ensures
        delivery(table.insert(session_id, sender), session_id, Some(id), result) == Some(
            (sender, message_event(json_text(response(id, result)))),
        ),
        delivery(table.insert(session_id, sender), other, Some(id), result) is None,
        delivery(table.insert(session_id, sender).remove(session_id), session_id, Some(id), result)
            is None,
{
}

/// What the cache says of a key: the answer that it holds, or that it
/// holds none.
pub open spec fn lookup(cache: Map<Seq<char>, JsonView>, key: Seq<char>) -> FetchEventView {
    if cache.contains_key(key) {
        FetchEventView::CacheHit(cache[key])
    } else {
        FetchEventView::CacheMiss
    }
}

/// How one call through the gateway ended.
pub struct GatewayRun {
    /// The cache after the call.
    pub cache: Map<Seq<char>, JsonView>,
    pub result: Result<JsonView, AppErrorView>,
    /// How many requests went to the upstream API.
    pub network_calls: nat,
    /// How many slots of the rate limiter were taken.
    pub slots_taken: nat,
}

/// One call through the gateway, played to its end: against a cache that
/// holds the answers that are still valid, a rate limiter that grants the
/// slot that is waited for, and an upstream API that answers, or fails, as
/// `answer` says.
pub open spec fn run(
    cache: Map<Seq<char>, JsonView>,
    request: UpstreamRequestView,
    answer: FetchEventView,
) -> GatewayRun {
    let key = key_text(request);
    match action_of(Stage::Lookup, lookup(cache, key)) {
        FetchActionView::Finish { result, store } => GatewayRun {
            cache,
            result,
            network_calls: 0,
            slots_taken: 0,
        },
        _ => match action_of(Stage::Network, answer) {
            FetchActionView::Finish { result, store } => GatewayRun {
                cache: match result {
                    Ok(value) => if store {
                        cache.insert(key, value)
                    } else {
                        cache
                    },
                    Err(_) => cache,
                },
                result,
                network_calls: 1,
                slots_taken: 1,
            },
            _ => GatewayRun {
                cache,
                result: Err(AppErrorView::Internal("unexpected gateway event"@)),
                network_calls: 1,
                slots_taken: 1,
            },
        },
    }
}

/// Whether an event is one by which the upstream API ends a request.
pub open spec fn is_answer(event: FetchEventView) -> bool {
    event is Response || event is Failed
}

/// An answer of the cache ends a call at once: it takes no slot of the
/// rate limiter and no request to the upstream API.
pub proof fn law_cache_hit_is_free(
    cache: Map<Seq<char>, JsonView>,
    request: UpstreamRequestView,
    answer: FetchEventView,
)
    requires
        cache.contains_key(key_text(request)),
    ensures
        run(cache, request, answer) == (GatewayRun {
            cache,
            result: Ok(cache[key_text(request)]),
            network_calls: 0,
            slots_taken: 0,
        }),
{
}

/// The same call, made twice while the first answer is still in the cache,
/// goes to the upstream API once: the second call gets the answer of the
/// first, whatever the upstream API would say then.
pub proof fn law_repeated_call_is_cached(
    cache: Map<Seq<char>, JsonView>,
    request: UpstreamRequestView,
    first_answer: FetchEventView,
    second_answer: FetchEventView,
)
    requires
        !cache.contains_key(key_text(request)),
        is_answer(first_answer),
        run(cache, request, first_answer).result is Ok,
    ensures
        run(cache, request, first_answer).network_calls == 1,
        run(run(cache, request, first_answer).cache, request, second_answer).network_calls == 0,
        run(run(cache, request, first_answer).cache, request, second_answer).result == run(
            cache,
            request,
            first_answer,
        ).result,
        run(run(cache, request, first_answer).cache, request, second_answer).cache == run(
            cache,
            request,
            first_answer,
        ).cache,
{
}

/// A call whose answer is not in the cache, be it that it never was or that
/// it has expired, goes to the upstream API, and a new document that it
/// brings takes the place in the cache.
pub proof fn law_expired_entry_is_fetched_again(
    cache: Map<Seq<char>, JsonView>,
    request: UpstreamRequestView,
    answer: FetchEventView,
)
    requires
        !cache.contains_key(key_text(request)),
        is_answer(answer),
    ensures
        run(cache, request, answer).network_calls == 1,
        run(cache, request, answer).result matches Ok(value) ==> run(
            cache,
            request,
            answer,
        ).cache == cache.insert(key_text(request), value),
        run(cache, request, answer).result is Err ==> run(cache, request, answer).cache == cache,
{
}

/// A request goes to the network only when the rate limiter has granted
/// the slot that the call was waiting for, and a call waits for a slot
/// only after the cache had no answer.
pub proof fn law_network_waits_for_slot(stage: Stage, event: FetchEventView)
    ensures
        action_of(stage, event) is Send <==> stage == Stage::Slot && event is SlotGranted,
        action_of(stage, event) is WaitForSlot <==> stage == Stage::Lookup && event is CacheMiss,
{
}

/// A call is not tried again: once its request is on the network, whatever
/// happens ends the call, and nothing starts a call that has ended.
pub proof fn law_no_retries(event: FetchEventView)
    ensures
        action_of(Stage::Network, event) is Finish,
        action_of(Stage::Done, event) is Finish,
        crate::client::stage_after(action_of(Stage::Network, event)) == Stage::Done,
        crate::client::stage_after(action_of(Stage::Done, event)) == Stage::Done,
{
}

/// Only a document that the upstream API sent with a success is stored.
pub proof fn law_only_successes_are_stored(stage: Stage, event: FetchEventView)
    ensures
        action_of(stage, event) matches FetchActionView::Finish { result, store } ==> (store <==> (
            stage == Stage::Network && event is Response && 200 <= event->status <= 299
                && event->parsed is Some)),
{
}

/// What the upstream API's status means: 404 is not found, any other
/// status that is no success is an API error, and no failure passes for a
/// success.
pub proof fn law_status_classes(status: u16, status_text: Seq<char>, parsed: Option<JsonView>)
    ensures
        response_outcome(status, status_text, parsed) is Ok <==> 200 <= status <= 299
            && parsed is Some,
        status == 404 ==> response_outcome(status, status_text, parsed) == Err::<
            JsonView,
            AppErrorView,
        >(AppErrorView::NotFound),
        !(200 <= status <= 299) && status != 404 ==> response_outcome(status, status_text, parsed)
            == Err::<JsonView, AppErrorView>(AppErrorView::ApiError("API Error: "@ + status_text)),
{
}

} // verus!
