use rescue_groups_mcp::client::{
    fetch_with_cache, FetchAction, FetchEvent, UpstreamRequest,
};
use rescue_groups_mcp::config::Settings;
use rescue_groups_mcp::error::AppError;
use rescue_groups_mcp::json::Json;
use rescue_groups_mcp::mcp::{
    continue_with_species, finish_compare, finish_fetch, finish_tool_call,
    format_json_rpc_response, handle_tool_call, make_text_content, parse_method,
    process_mcp_request, Formatter, JsonRpcRequest, McpStep, Method, SpeciesUse, ToolPlan,
};
use rescue_groups_mcp::tools::{
    find_tool, get_all_tool_definitions, get_core_tool_definitions, is_core_tool, list_tools,
    tool_definition, tool_summary,
};
use std::collections::HashMap;

fn json(text: &str) -> Json {
    Json::parse(text).unwrap()
}

fn get_test_settings() -> Settings {
    Settings {
        api_key: "test_key".to_string(),
        base_url: "http://test.url".to_string(),
        default_postal_code: "00000".to_string(),
        default_miles: 50,
        default_species: "dogs".to_string(),
        timeout_seconds: 1,
        lazy: false,
        cache_capacity: 10,
        cache_ttl_seconds: 900,
        rate_limit_requests: 1,
        rate_limit_window: 1,
    }
}

fn request(id: Option<Json>, method: &str, params: Option<Json>) -> JsonRpcRequest {
    JsonRpcRequest { _jsonrpc: "2.0".to_string(), id, method: method.to_string(), params }
}

fn code_of(error: &Json) -> Option<i64> {
    error.get("code").and_then(|c| c.as_i64())
}

fn text_of(result: &Json) -> String {
    let content = result.get("content").unwrap().as_array().unwrap();
    assert_eq!(content.len(), 1);
    assert_eq!(content[0].get("type").unwrap().as_str(), Some("text"));
    content[0].get("text").unwrap().as_str().unwrap().to_string()
}

/// A stand-in for the upstream API behind its cache: what it answers to
/// each method and path, and how often it was called.
struct Upstream {
    routes: Vec<(String, String, u16, String)>,
    any: Option<(String, u16, String)>,
    cache: HashMap<String, Json>,
    calls: usize,
}

impl Upstream {
    fn new() -> Upstream {
        Upstream { routes: Vec::new(), any: None, cache: HashMap::new(), calls: 0 }
    }

    fn mock(&mut self, method: &str, path: &str, status: u16, body: &str) {
        self.routes.push((
            method.to_string(),
            format!("http://test.url{}", path),
            status,
            body.to_string(),
        ));
    }

    fn mock_any(&mut self, method: &str, status: u16, body: &str) {
        self.any = Some((method.to_string(), status, body.to_string()));
    }

    fn answer(&mut self, request: &UpstreamRequest) -> FetchEvent {
        self.calls += 1;
        let mut found = None;
        for (method, url, status, body) in self.routes.iter() {
            if *method == request.method && *url == request.url {
                found = Some((*status, body.clone()));
            }
        }
        if found.is_none() {
            if let Some((method, status, body)) = &self.any {
                if *method == request.method {
                    found = Some((*status, body.clone()));
                }
            }
        }
        let (status, body) = found.unwrap_or((501, String::new()));
        let status_text = match status {
            200 => "200 OK",
            404 => "404 Not Found",
            500 => "500 Internal Server Error",
            _ => "501 Not Implemented",
        };
        FetchEvent::Response { status, status_text: status_text.to_string(), body }
    }

    fn fetch(&mut self, request: UpstreamRequest) -> Result<Json, AppError> {
        let mut fetch = fetch_with_cache(request);
        let mut event = match self.cache.get(&fetch.key) {
            Some(value) => FetchEvent::CacheHit(value.clone()),
            None => FetchEvent::CacheMiss,
        };
        loop {
            match fetch.on_event(event) {
                FetchAction::WaitForSlot => event = FetchEvent::SlotGranted,
                FetchAction::Send => event = self.answer(&fetch.request),
                FetchAction::Finish { result, store } => {
                    if store {
                        if let Ok(value) = &result {
                            self.cache.insert(fetch.key.clone(), value.clone());
                        }
                    }
                    return result;
                }
            }
        }
    }

    fn run(&mut self, plan: ToolPlan, settings: &Settings) -> Result<Json, AppError> {
        match plan {
            ToolPlan::Done(outcome) => outcome,
            ToolPlan::Fetch { request, formatter } => finish_fetch(&formatter, self.fetch(request)),
            ToolPlan::Resolve { lookup, species, then } => {
                let list = self.fetch(lookup);
                let next = continue_with_species(settings, &species, &then, list);
                self.run(next, settings)
            }
            ToolPlan::Compare { requests } => {
                let outcomes: Vec<Result<Json, String>> = requests
                    .into_iter()
                    .map(|r| self.fetch(r).map_err(|e| e.to_string()))
                    .collect();
                finish_compare(&outcomes)
            }
        }
    }

    fn call(&mut self, name: &str, params: Option<Json>, settings: &Settings) -> Result<Json, AppError> {
        let plan = handle_tool_call(name, params.as_ref(), settings);
        self.run(plan, settings)
    }

    fn process(&mut self, req: JsonRpcRequest, settings: &Settings) -> (Option<Json>, Result<Json, Json>) {
        match process_mcp_request(req, settings) {
            McpStep::Reply { id, result } => (id, result),
            McpStep::Run { id, name: _, plan } => {
                let outcome = self.run(plan, settings);
                finish_tool_call(id, outcome)
            }
        }
    }
}

#[test]
fn test_format_json_rpc_response_success() {
    let id = json("1");
    let result = Ok(json(r#"{"foo": "bar"}"#));
    let output = format_json_rpc_response(id.clone(), result);
    assert_eq!(output.get("id").unwrap().render(), id.render());
    assert_eq!(output.get("result").unwrap().get("foo").unwrap().as_str(), Some("bar"));
    assert!(output.get("error").is_none());
    assert_eq!(output.render(), r#"{"id":1,"jsonrpc":"2.0","result":{"foo":"bar"}}"#);
}

#[test]
fn test_format_json_rpc_response_error() {
    let id = json("1");
    let result = Err(json(r#"{"code": -1, "message": "fail"}"#));
    let output = format_json_rpc_response(id.clone(), result);
    assert_eq!(output.get("id").unwrap().render(), id.render());
    assert_eq!(code_of(output.get("error").unwrap()), Some(-1));
    assert!(output.get("result").is_none());
    assert_eq!(
        output.render(),
        r#"{"error":{"code":-1,"message":"fail"},"id":1,"jsonrpc":"2.0"}"#
    );
}

#[test]
fn test_response_echoes_the_id_as_it_came() {
    for id in ["\"abc\"", "7", "1.5", "[1]", "{\"k\":null}", "true"] {
        let output = format_json_rpc_response(json(id), Ok(Json::object()));
        assert_eq!(output.get("id").unwrap().render(), json(id).render());
    }
}

#[test]
fn test_process_mcp_request_initialize() {
    let settings = get_test_settings();
    let req = request(Some(json("1")), "initialize", None);

    let (id, result) = Upstream::new().process(req, &settings);
    assert_eq!(id.unwrap().render(), "1");
    let res = result.unwrap();
    assert_eq!(res.get("protocolVersion").unwrap().as_str(), Some("2024-11-05"));
    assert_eq!(
        res.render(),
        r#"{"capabilities":{"tools":{}},"protocolVersion":"2024-11-05","serverInfo":{"name":"rescue-groups-mcp","version":"0.1.0"}}"#
    );
}

#[test]
fn test_process_mcp_request_tools_list() {
    let settings = get_test_settings();
    let req = request(Some(json("1")), "tools/list", None);

    let (_, result) = Upstream::new().process(req, &settings);
    let res = result.unwrap();
    let tools = res.get("tools").unwrap().as_array().unwrap();
    assert!(!tools.is_empty());
    let list_animals =
        tools.iter().find(|t| t.get("name").unwrap().as_str() == Some("list_animals"));
    assert!(list_animals.is_some());
    let get_breed = tools.iter().find(|t| t.get("name").unwrap().as_str() == Some("get_breed"));
    assert!(get_breed.is_some());
    assert_eq!(tools.len(), 16);
}

#[test]
fn test_process_mcp_request_tools_call_get_breed_not_found() {
    let settings = get_test_settings();
    let req = request(
        Some(json("1")),
        "tools/call",
        Some(json(r#"{"name": "get_breed", "arguments": {"breed_id": "99999"}}"#)),
    );

    let mut upstream = Upstream::new();
    upstream.mock("GET", "/public/animals/breeds/99999", 404, "");
    let (_, result) = upstream.process(req, &settings);
    assert!(result.is_err());
    assert_eq!(code_of(&result.unwrap_err()), Some(-32004));
}

#[test]
fn test_handle_tool_call_list_species() {
    let settings = get_test_settings();
    let mut upstream = Upstream::new();
    upstream.mock("GET", "/public/animals/species", 200, r#"{"data": []}"#);

    let res = upstream.call("list_species", None, &settings);
    assert!(res.is_ok());
    assert_eq!(text_of(&res.unwrap()), "No species found.");
}

#[test]
fn test_handle_tool_call_list_breeds() {
    let settings = get_test_settings();
    let mut upstream = Upstream::new();
    upstream.mock(
        "GET",
        "/public/animals/species",
        200,
        r#"{"data": [{"id": "1", "attributes": {"singular": "Dog", "plural": "Dogs"}}]}"#,
    );
    upstream.mock("GET", "/public/animals/species/1/breeds", 200, r#"{"data": []}"#);

    let params = json(r#"{"arguments": {"species": "dog"}}"#);

    let res = upstream.call("list_breeds", Some(params), &settings);
    assert!(res.is_ok());
    assert_eq!(text_of(&res.unwrap()), "No breeds found for species 'dog'.");
    assert_eq!(upstream.calls, 2);
}

#[test]
fn test_list_breeds_without_arguments_uses_the_default_species() {
    let settings = get_test_settings();
    match handle_tool_call("list_breeds", None, &settings) {
        ToolPlan::Resolve { lookup, species, then } => {
            assert_eq!(lookup.url, "http://test.url/public/animals/species");
            assert_eq!(species, "dogs");
            assert!(matches!(then, SpeciesUse::Breeds));
        }
        other => panic!("unexpected plan {:?}", other),
    }
}

#[test]
fn test_handle_tool_call_list_metadata() {
    let settings = get_test_settings();
    let mut upstream = Upstream::new();
    upstream.mock("GET", "/public/animals/colors", 200, r#"{"data": []}"#);

    let params = json(r#"{"arguments": {"metadata_type": "colors"}}"#);

    let res = upstream.call("list_metadata", Some(params), &settings);
    assert!(res.is_ok());
    assert_eq!(text_of(&res.unwrap()), "No colors found.");
}

#[test]
fn test_list_metadata_defaults_and_species() {
    let settings = get_test_settings();
    match handle_tool_call("list_metadata", Some(&json(r#"{"arguments": {"species": "cats"}}"#)), &settings) {
        ToolPlan::Fetch { request, formatter } => {
            // without the kind the arguments cannot be read: the defaults apply
            assert_eq!(request.url, "http://test.url/public/animals/colors");
            assert!(matches!(formatter, Formatter::MetadataResults(kind) if kind == "colors"));
        }
        other => panic!("unexpected plan {:?}", other),
    }
    let params = json(r#"{"arguments": {"metadata_type": "patterns", "species": "cats"}}"#);
    match handle_tool_call("list_metadata", Some(&params), &settings) {
        ToolPlan::Resolve { lookup, species, then } => {
            assert_eq!(lookup.url, "http://test.url/public/animals/species");
            assert_eq!(species, "cats");
            assert!(matches!(then, SpeciesUse::Metadata(kind) if kind == "patterns"));
        }
        other => panic!("unexpected plan {:?}", other),
    }
    let params = json(r#"{"arguments": {"metadata_type": "patterns", "species": "3"}}"#);
    match handle_tool_call("list_metadata", Some(&params), &settings) {
        ToolPlan::Fetch { request, .. } => {
            assert_eq!(request.url, "http://test.url/public/animals/species/3/patterns")
        }
        other => panic!("unexpected plan {:?}", other),
    }
}

#[test]
fn test_handle_tool_call_get_animal_details() {
    let settings = get_test_settings();
    let mut upstream = Upstream::new();
    upstream.mock(
        "GET",
        "/public/animals/123",
        200,
        r#"{"data": {"id": "123", "attributes": {"name": "Buddy"}}}"#,
    );

    let params = json(r#"{"arguments": {"animal_id": "123"}}"#);

    let res = upstream.call("get_animal_details", Some(params), &settings);
    assert!(res.is_ok());
    assert!(text_of(&res.unwrap()).starts_with("# Buddy\n**Breed:** Mix"));
}

#[test]
fn test_handle_tool_call_get_contact_info() {
    let settings = get_test_settings();
    let mut upstream = Upstream::new();
    upstream.mock(
        "GET",
        "/public/animals/123?include=orgs",
        200,
        r#"{"data": {"id": "123", "attributes": {"name": "Buddy"}}}"#,
    );

    let params = json(r#"{"arguments": {"animal_id": "123"}}"#);

    let res = upstream.call("get_contact_info", Some(params), &settings);
    assert!(res.is_ok());
    assert!(text_of(&res.unwrap()).starts_with("## Contact Information for Buddy\n\n"));
}

#[test]
fn test_handle_tool_call_compare_animals() {
    let settings = get_test_settings();
    let mut upstream = Upstream::new();
    upstream.mock_any("GET", 200, r#"{"data": {"id": "1", "attributes": {"name": "Buddy"}}}"#);

    let params = json(r#"{"arguments": {"animal_ids": ["1", "2"]}}"#);

    let res = upstream.call("compare_animals", Some(params), &settings);
    assert!(res.is_ok());
    assert!(text_of(&res.unwrap()).starts_with("| Feature | [Buddy]() | [Buddy]() |\n"));
    assert_eq!(upstream.calls, 2);
}

#[test]
fn test_compare_animals_without_ids() {
    let settings = get_test_settings();
    let mut upstream = Upstream::new();
    let res = upstream.call("compare_animals", None, &settings).unwrap();
    assert_eq!(text_of(&res), "No animals to compare.");
    let bad = json(r#"{"arguments": {"animal_ids": ["1", 2]}}"#);
    let res = upstream.call("compare_animals", Some(bad), &settings).unwrap();
    assert_eq!(text_of(&res), "No animals to compare.");
    assert_eq!(upstream.calls, 0);
}

#[test]
fn test_handle_tool_call_search_organizations() {
    let settings = get_test_settings();
    let mut upstream = Upstream::new();
    upstream.mock("POST", "/public/orgs/search", 200, r#"{"data": []}"#);

    let params = json(r#"{"arguments": {"query": "Rescue"}}"#);

    let res = upstream.call("search_organizations", Some(params), &settings);
    assert!(res.is_ok());
    assert_eq!(text_of(&res.unwrap()), "No organizations found.");
}

#[test]
fn test_handle_tool_call_get_organization_details() {
    let settings = get_test_settings();
    let mut upstream = Upstream::new();
    upstream.mock(
        "GET",
        "/public/orgs/866",
        200,
        r#"{"data": {"id": "866", "attributes": {"name": "Test Org"}}}"#,
    );

    let params = json(r#"{"arguments": {"org_id": "866"}}"#);

    let res = upstream.call("get_organization_details", Some(params), &settings);
    assert!(res.is_ok());
    assert!(text_of(&res.unwrap()).starts_with("# Test Org\n\n"));
}

#[test]
fn test_handle_tool_call_list_org_animals() {
    let settings = get_test_settings();
    let mut upstream = Upstream::new();
    upstream.mock("GET", "/public/orgs/866/animals/search/available", 200, r#"{"data": []}"#);

    let params = json(r#"{"arguments": {"org_id": "866"}}"#);

    let res = upstream.call("list_org_animals", Some(params), &settings);
    assert!(res.is_ok());
    assert_eq!(text_of(&res.unwrap()), "No adoptable animals found.");
}

#[test]
fn test_handle_tool_call_search_adoptable_pets() {
    let settings = get_test_settings();
    let mut upstream = Upstream::new();
    upstream.mock("POST", "/public/animals/search/available/dogs/haspic", 200, r#"{"data": []}"#);

    let params = json(r#"{"arguments": {"species": "dogs"}}"#);

    let res = upstream.call("search_adoptable_pets", Some(params), &settings);
    assert!(res.is_ok());
}

#[test]
fn test_search_with_unreadable_arguments_runs_on_defaults() {
    let settings = get_test_settings();
    let bad = json(r#"{"arguments": {"species": "cats", "miles": "ten"}}"#);
    match handle_tool_call("search_adoptable_pets", Some(&bad), &settings) {
        ToolPlan::Fetch { request, .. } => {
            assert_eq!(
                request.url,
                "http://test.url/public/animals/search/available/dogs/haspic"
            );
            assert_eq!(
                request.body.unwrap().render(),
                r#"{"data":{"filterRadius":{"miles":50,"postalcode":"00000"}}}"#
            );
        }
        other => panic!("unexpected plan {:?}", other),
    }
    let good = json(r#"{"arguments": {"species": "cats", "miles": 10, "color": null, "extra": 1}}"#);
    match handle_tool_call("search_adoptable_pets", Some(&good), &settings) {
        ToolPlan::Fetch { request, .. } => {
            assert_eq!(
                request.url,
                "http://test.url/public/animals/search/available/cats/haspic"
            );
            assert_eq!(
                request.body.unwrap().render(),
                r#"{"data":{"filterRadius":{"miles":10,"postalcode":"00000"}}}"#
            );
        }
        other => panic!("unexpected plan {:?}", other),
    }
}

#[test]
fn test_handle_tool_call_get_random_pet() {
    let settings = get_test_settings();
    let mut upstream = Upstream::new();
    upstream.mock(
        "POST",
        "/public/animals/search/available/dogs/haspic?sort=random",
        200,
        r#"{"data": []}"#,
    );

    let params = json(r#"{"arguments": {"species": "dogs"}}"#);

    let res = upstream.call("get_random_pet", Some(params), &settings);
    assert!(res.is_ok());
}

#[test]
fn test_handle_tool_call_list_adopted_animals() {
    let settings = get_test_settings();
    let mut upstream = Upstream::new();
    upstream.mock("POST", "/public/animals/search/adopted/dogs/haspic", 200, r#"{"data": []}"#);

    let params = json(r#"{"arguments": {"species": "dogs"}}"#);

    let res = upstream.call("list_adopted_animals", Some(params), &settings);
    assert!(res.is_ok());
}

#[test]
fn test_handle_tool_call_inspect_tool() {
    let settings = get_test_settings();
    let mut upstream = Upstream::new();

    let res = upstream.call("inspect_tool", None, &settings);
    assert!(res.is_ok());
    let summary = text_of(&res.unwrap());
    assert!(summary.starts_with(
        "- list_animals: List the most recent adoptable animals available globally.\n- list_species: "
    ));
    assert_eq!(summary.lines().count(), 16);

    let params = json(r#"{"arguments": {"tool_name": "list_animals"}}"#);
    let res = upstream.call("inspect_tool", Some(params), &settings);
    assert!(res.is_ok());
    assert_eq!(
        text_of(&res.unwrap()),
        "{\n  \"description\": \"List the most recent adoptable animals available globally.\",\n  \"inputSchema\": {\n    \"properties\": {},\n    \"type\": \"object\"\n  },\n  \"name\": \"list_animals\"\n}"
    );

    let params = json(r#"{"arguments": {"tool_name": "no_such_tool"}}"#);
    let res = upstream.call("inspect_tool", Some(params), &settings);
    assert!(matches!(res, Err(AppError::NotFound)));
    assert_eq!(upstream.calls, 0);
}

#[test]
fn test_process_mcp_request_notifications() {
    let settings = get_test_settings();
    let req = request(None, "notifications/initialized", None);

    let (id, result) = Upstream::new().process(req, &settings);
    assert!(id.is_none());
    assert!(result.is_ok());
    assert_eq!(result.unwrap().render(), "{}");
}

#[test]
fn test_initialized_with_an_id_is_not_answered_either() {
    let settings = get_test_settings();
    let req = request(Some(json("5")), "notifications/initialized", None);
    let (id, result) = Upstream::new().process(req, &settings);
    assert!(id.is_none());
    assert!(result.is_ok());
}

#[test]
fn test_process_mcp_request_ping() {
    let settings = get_test_settings();
    let req = request(Some(json("1")), "ping", None);

    let (id, result) = Upstream::new().process(req, &settings);
    assert!(result.is_ok());
    assert_eq!(result.unwrap().render(), "{}");
    assert_eq!(id.unwrap().render(), "1");
}

#[test]
fn test_process_mcp_request_tools_list_lazy() {
    let mut settings = get_test_settings();
    settings.lazy = true;
    let req = request(Some(json("1")), "tools/list", None);

    let (_, result) = Upstream::new().process(req, &settings);
    let res = result.unwrap();
    let tools = res.get("tools").unwrap().as_array().unwrap();
    assert!(tools.len() < get_all_tool_definitions().len());
    let names: Vec<&str> = tools.iter().map(|t| t.get("name").unwrap().as_str().unwrap()).collect();
    assert_eq!(names, vec!["get_animal_details", "search_adoptable_pets", "inspect_tool"]);
}

#[test]
fn test_lazy_list_is_a_strict_part_of_the_full_list() {
    let all: Vec<String> = list_tools(false).iter().map(|t| t.render()).collect();
    let core: Vec<String> = list_tools(true).iter().map(|t| t.render()).collect();
    assert!(!core.is_empty());
    assert!(core.len() < all.len());
    for tool in core.iter() {
        assert!(all.contains(tool));
    }
    assert_eq!(get_core_tool_definitions().len(), 3);
}

#[test]
fn test_process_mcp_request_tools_call_missing_params() {
    let settings = get_test_settings();
    let req = request(Some(json("1")), "tools/call", None);

    let (_, result) = Upstream::new().process(req, &settings);
    assert!(result.is_err());
    assert_eq!(code_of(&result.unwrap_err()), Some(-32602));
}

#[test]
fn test_tools_call_without_a_name_is_invalid() {
    let settings = get_test_settings();
    for params in [r#"{}"#, r#"{"arguments": {}}"#, r#"{"name": 7}"#, r#"{"name": null}"#, r#"[]"#] {
        let req = request(Some(json("\"a\"")), "tools/call", Some(json(params)));
        let mut upstream = Upstream::new();
        let (id, result) = upstream.process(req, &settings);
        assert_eq!(id.unwrap().render(), "\"a\"");
        let error = result.unwrap_err();
        assert_eq!(code_of(&error), Some(-32602));
        assert_eq!(error.get("message").unwrap().as_str(), Some("Missing parameters"));
        assert_eq!(upstream.calls, 0);
    }
}

#[test]
fn test_handle_tool_call_not_found_branches() {
    let settings = get_test_settings();
    let mut upstream = Upstream::new();
    upstream.mock_any("GET", 200, r#"{"data": []}"#);

    // get_breed None
    let res = upstream.call("get_breed", None, &settings);
    assert!(matches!(res, Err(AppError::NotFound)));

    // get_animal_details None
    let res = upstream.call("get_animal_details", None, &settings);
    assert!(matches!(res, Err(AppError::NotFound)));

    // get_organization_details None
    let res = upstream.call("get_organization_details", None, &settings);
    assert!(matches!(res, Err(AppError::NotFound)));
}

#[test]
fn test_ids_default_to_zero() {
    let settings = get_test_settings();
    let urls: Vec<String> = ["get_breed", "get_animal_details", "get_contact_info", "get_organization_details", "list_org_animals"]
        .iter()
        .map(|name| match handle_tool_call(name, None, &settings) {
            ToolPlan::Fetch { request, .. } => request.url,
            other => panic!("unexpected plan {:?}", other),
        })
        .collect();
    assert_eq!(
        urls,
        vec![
            "http://test.url/public/animals/breeds/0",
            "http://test.url/public/animals/0",
            "http://test.url/public/animals/0?include=orgs",
            "http://test.url/public/orgs/0",
            "http://test.url/public/orgs/0/animals/search/available",
        ]
    );
    // a record may come as a list of its fields
    let params = json(r#"{"arguments": ["77"]}"#);
    match handle_tool_call("get_animal_details", Some(&params), &settings) {
        ToolPlan::Fetch { request, .. } => assert_eq!(request.url, "http://test.url/public/animals/77"),
        other => panic!("unexpected plan {:?}", other),
    }
    let params = json(r#"{"arguments": ["77", "78"]}"#);
    match handle_tool_call("get_animal_details", Some(&params), &settings) {
        ToolPlan::Fetch { request, .. } => assert_eq!(request.url, "http://test.url/public/animals/0"),
        other => panic!("unexpected plan {:?}", other),
    }
}

#[test]
fn test_handle_tool_call_unknown_tool() {
    let settings = get_test_settings();
    let res = Upstream::new().call("unknown_tool", None, &settings);
    assert!(matches!(res, Err(AppError::NotFound)));
}

#[test]
fn test_unknown_tool_scenario() {
    let settings = get_test_settings();
    let req = request(
        Some(json("3")),
        "tools/call",
        Some(json(r#"{"name": "does_not_exist"}"#)),
    );
    let mut upstream = Upstream::new();
    let (id, result) = upstream.process(req, &settings);
    assert_eq!(id.unwrap().render(), "3");
    let error = result.unwrap_err();
    assert_eq!(code_of(&error), Some(-32004));
    assert_eq!(error.render(), r#"{"code":-32004,"message":"Resource Not Found"}"#);
    assert_eq!(upstream.calls, 0);
}

#[test]
fn test_handle_tool_call_list_animals() {
    let settings = get_test_settings();
    let mut upstream = Upstream::new();
    upstream.mock("GET", "/public/animals", 200, r#"{"data": []}"#);

    let res = upstream.call("list_animals", None, &settings);
    assert!(res.is_ok());
}

#[test]
fn test_handle_tool_call_list_metadata_types() {
    let settings = get_test_settings();
    let res = Upstream::new().call("list_metadata_types", None, &settings);
    assert!(res.is_ok());
    assert_eq!(
        text_of(&res.unwrap()),
        "### Supported Metadata Types\n\nbreeds\ncolors\npatterns\nspecies\nstatuses\nqualities"
    );
}

#[test]
fn test_process_mcp_request_method_not_found() {
    let settings = get_test_settings();
    let req = request(Some(json("1")), "unknown", None);

    let (_, result) = Upstream::new().process(req, &settings);
    assert!(result.is_err());
    let error = result.unwrap_err();
    assert_eq!(code_of(&error), Some(-32601));
    assert_eq!(error.render(), r#"{"code":-32601,"message":"Method not found"}"#);
}

#[test]
fn test_upstream_failure_code() {
    let settings = get_test_settings();
    let mut upstream = Upstream::new();
    upstream.mock("GET", "/public/animals", 500, "");
    let req = request(Some(json("1")), "tools/call", Some(json(r#"{"name": "list_animals"}"#)));
    let (_, result) = upstream.process(req, &settings);
    let error = result.unwrap_err();
    assert_eq!(code_of(&error), Some(-32005));
    assert_eq!(
        error.get("message").unwrap().as_str(),
        Some("API Error: API Error: 500 Internal Server Error")
    );
}

#[test]
fn test_tool_call_is_cached() {
    let settings = get_test_settings();
    let mut upstream = Upstream::new();
    upstream.mock("GET", "/public/animals", 200, r#"{"data": []}"#);
    let first = upstream.call("list_animals", None, &settings).unwrap();
    let second = upstream.call("list_animals", None, &settings).unwrap();
    assert_eq!(upstream.calls, 1);
    assert_eq!(first.render(), second.render());
}

#[test]
fn test_parse_method() {
    assert_eq!(parse_method("initialize"), Method::Initialize);
    assert_eq!(parse_method("notifications/initialized"), Method::Initialized);
    assert_eq!(parse_method("tools/list"), Method::ToolsList);
    assert_eq!(parse_method("tools/call"), Method::ToolsCall);
    assert_eq!(parse_method("ping"), Method::Ping);
    assert_eq!(parse_method("Ping"), Method::Unknown);
    assert_eq!(parse_method(""), Method::Unknown);
}

#[test]
fn test_request_from_json() {
    let req = JsonRpcRequest::from_json(&json(
        r#"{"jsonrpc": "2.0", "id": 7, "method": "ping", "params": {"a": 1}, "extra": true}"#,
    ))
    .unwrap();
    assert_eq!(req._jsonrpc, "2.0");
    assert_eq!(req.id.unwrap().render(), "7");
    assert_eq!(req.method, "ping");
    assert_eq!(req.params.unwrap().render(), r#"{"a":1}"#);

    let req = JsonRpcRequest::from_json(&json(r#"{"jsonrpc": "2.0", "id": null, "method": "m"}"#))
        .unwrap();
    assert!(req.id.is_none());
    assert!(req.params.is_none());

    let req = JsonRpcRequest::from_json(&json(r#"["2.0", "x", "ping", null]"#)).unwrap();
    assert_eq!(req.id.unwrap().render(), "\"x\"");
    assert_eq!(req.method, "ping");
    assert!(req.params.is_none());

    for bad in [
        r#"{"id": 1, "method": "ping"}"#,
        r#"{"jsonrpc": "2.0", "id": 1}"#,
        r#"{"jsonrpc": 2, "id": 1, "method": "ping"}"#,
        r#"{"jsonrpc": "2.0", "method": 5}"#,
        r#"["2.0", 1, "ping"]"#,
        r#"["2.0", 1, "ping", null, null]"#,
        r#""ping""#,
        r#"null"#,
    ] {
        assert!(JsonRpcRequest::from_json(&json(bad)).is_none(), "{}", bad);
    }
}

#[test]
fn test_finish_fetch_formats_by_kind() {
    let data = || Ok(json(r#"{"data": [{"id": "9", "attributes": {"name": "N", "singular": "S"}}]}"#));
    assert_eq!(text_of(&finish_fetch(&Formatter::BreedDetails, data()).unwrap()), "# Breed: N");
    assert_eq!(
        text_of(&finish_fetch(&Formatter::SpeciesResults, data()).unwrap()),
        "### Supported Species\n\nS"
    );
    assert_eq!(
        text_of(&finish_fetch(&Formatter::MetadataResults("colors".to_string()), data()).unwrap()),
        "### Supported colors\n\nN"
    );
    assert_eq!(
        text_of(&finish_fetch(&Formatter::BreedResults("dog".to_string()), data()).unwrap()),
        "### Breeds for dog\n\nN"
    );
    assert!(text_of(&finish_fetch(&Formatter::SingleAnimal, data()).unwrap()).starts_with("# N\n"));
    assert!(text_of(&finish_fetch(&Formatter::SingleOrg, data()).unwrap()).starts_with("# N\n\n"));
    assert!(text_of(&finish_fetch(&Formatter::OrgResults, data()).unwrap()).starts_with("### N\n**ID:** 9\n"));
    assert!(text_of(&finish_fetch(&Formatter::AnimalResults, data()).unwrap()).starts_with("### [N]()"));
    assert!(text_of(&finish_fetch(&Formatter::ContactInfo, data()).unwrap())
        .starts_with("## Contact Information for N"));
    let failed = finish_fetch(&Formatter::AnimalResults, Err(AppError::Network("down".to_string())));
    assert!(matches!(failed, Err(AppError::Network(message)) if message == "down"));
    let empty = finish_fetch(&Formatter::SingleAnimal, Ok(json("{}")));
    assert!(matches!(empty, Err(AppError::NotFound)));
}

#[test]
fn test_continue_with_species() {
    let settings = get_test_settings();
    let list = json(r#"{"data": [{"id": "2", "attributes": {"singular": "Cat", "plural": "Cats"}}]}"#);
    match continue_with_species(&settings, "cats", &SpeciesUse::Breeds, Ok(list.clone())) {
        ToolPlan::Fetch { request, formatter } => {
            assert_eq!(request.url, "http://test.url/public/animals/species/2/breeds");
            assert!(matches!(formatter, Formatter::BreedResults(species) if species == "cats"));
        }
        other => panic!("unexpected plan {:?}", other),
    }
    let then = SpeciesUse::Metadata("colors".to_string());
    match continue_with_species(&settings, "cat", &then, Ok(list.clone())) {
        ToolPlan::Fetch { request, formatter } => {
            assert_eq!(request.url, "http://test.url/public/animals/species/2/colors");
            assert!(matches!(formatter, Formatter::MetadataResults(kind) if kind == "colors"));
        }
        other => panic!("unexpected plan {:?}", other),
    }
    assert!(matches!(
        continue_with_species(&settings, "dog", &SpeciesUse::Breeds, Ok(list)),
        ToolPlan::Done(Err(AppError::NotFound))
    ));
    assert!(matches!(
        continue_with_species(&settings, "dog", &SpeciesUse::Breeds, Err(AppError::NotFound)),
        ToolPlan::Done(Err(AppError::NotFound))
    ));
}

#[test]
fn test_make_text_content() {
    assert_eq!(
        make_text_content("a\nb").render(),
        r#"{"content":[{"text":"a\nb","type":"text"}]}"#
    );
}

#[test]
fn test_tool_registry() {
    let all = get_all_tool_definitions();
    let names: Vec<&str> = all.iter().map(|t| t.get("name").unwrap().as_str().unwrap()).collect();
    assert_eq!(
        names,
        vec![
            "list_animals",
            "list_species",
            "list_metadata",
            "list_metadata_types",
            "list_breeds",
            "get_breed",
            "get_animal_details",
            "get_contact_info",
            "compare_animals",
            "get_organization_details",
            "list_org_animals",
            "search_organizations",
            "search_adoptable_pets",
            "get_random_pet",
            "list_adopted_animals",
            "inspect_tool",
        ]
    );
    for (index, tool) in all.iter().enumerate() {
        assert_eq!(tool_definition(index).render(), tool.render());
        assert!(tool.get("description").unwrap().as_str().is_some());
        let schema = tool.get("inputSchema").unwrap();
        assert_eq!(schema.get("type").unwrap().as_str(), Some("object"));
        assert!(schema.get("properties").is_some());
        let name = tool.get("name").unwrap().as_str().unwrap();
        assert_eq!(find_tool(name).unwrap().render(), tool.render());
        assert!(!matches!(
            handle_tool_call(name, None, &get_test_settings()),
            ToolPlan::Done(Err(AppError::NotFound))
        ));
    }
    assert!(find_tool("nope").is_none());
    assert!(is_core_tool("inspect_tool"));
    assert!(!is_core_tool("list_animals"));
    assert_eq!(tool_summary().lines().count(), 16);
    assert_eq!(
        all[8].render(),
        r#"{"description":"Compare up to 5 animals side-by-side by their IDs.","inputSchema":{"properties":{"animal_ids":{"description":"List of animal IDs to compare (max 5).","items":{"type":"string"},"type":"array"}},"required":["animal_ids"],"type":"object"},"name":"compare_animals"}"#
    );
    assert_eq!(
        all[12].get("inputSchema").unwrap().get("properties").unwrap().get("sort_by").unwrap().render(),
        r#"{"description":"Sort order for results.","enum":["Newest","Distance","Random"],"type":"string"}"#
    );
}
