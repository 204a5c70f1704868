use rescue_groups_mcp::cli::{AdoptedAnimalsArgs, OrgSearchArgs, ToolArgs};
use rescue_groups_mcp::client::{
    add_filter, build_search_body, cache_key, classify_response, compare_animals, compare_results,
    fetch_adopted_pets, fetch_pets, fetch_with_cache, get_animal_details, get_breed_details,
    get_contact_info, get_organization_details, get_random_pet, is_species_id, list_animals,
    list_breeds, list_metadata, list_metadata_types, list_org_animals, list_species,
    request_headers, resolve_species_id, search_organizations, FetchAction, FetchEvent, Stage,
    UpstreamRequest,
};
use rescue_groups_mcp::config::Settings;
use rescue_groups_mcp::error::AppError;
use rescue_groups_mcp::json::Json;
use std::collections::HashMap;

fn json(text: &str) -> Json {
    Json::parse(text).unwrap()
}

fn get_test_settings(url: String) -> Settings {
    Settings {
        api_key: "test_key".to_string(),
        base_url: url,
        default_postal_code: "00000".to_string(),
        default_miles: 50,
        default_species: "dogs".to_string(),
        timeout_seconds: 1,
        lazy: false,
        cache_capacity: 10,
        cache_ttl_seconds: 900,
        rate_limit_requests: 100,
        rate_limit_window: 1,
    }
}

fn body_of(request: &UpstreamRequest) -> String {
    request.body.as_ref().unwrap().render()
}

/// A stand-in for the upstream API: what it answers to each method and URL,
/// and how often it was called.
struct Upstream {
    routes: Vec<(String, String, u16, String)>,
    calls: usize,
}

impl Upstream {
    fn new() -> Upstream {
        Upstream { routes: Vec::new(), calls: 0 }
    }

    fn mock(&mut self, method: &str, url: &str, status: u16, body: &str) {
        self.routes.push((method.to_string(), url.to_string(), status, body.to_string()));
    }

    fn answer(&mut self, request: &UpstreamRequest) -> FetchEvent {
        self.calls += 1;
        for (method, url, status, body) in self.routes.iter() {
            if *method == request.method && *url == request.url {
                let status_text = match *status {
                    200 => "200 OK",
                    404 => "404 Not Found",
                    500 => "500 Internal Server Error",
                    _ => "unknown",
                };
                return FetchEvent::Response {
                    status: *status,
                    status_text: status_text.to_string(),
                    body: body.clone(),
                };
            }
        }
        FetchEvent::Response {
            status: 501,
            status_text: "501 Not Implemented".to_string(),
            body: String::new(),
        }
    }
}

/// A stand-in for the cache and the rate limiter in front of the API.
struct Gateway {
    cache: HashMap<String, Json>,
    slots_taken: usize,
}

impl Gateway {
    fn new() -> Gateway {
        Gateway { cache: HashMap::new(), slots_taken: 0 }
    }

    fn fetch(&mut self, upstream: &mut Upstream, request: UpstreamRequest) -> Result<Json, AppError> {
        let mut fetch = fetch_with_cache(request);
        let mut event = match self.cache.get(&fetch.key) {
            Some(value) => FetchEvent::CacheHit(value.clone()),
            None => FetchEvent::CacheMiss,
        };
        loop {
            match fetch.on_event(event) {
                FetchAction::WaitForSlot => {
                    self.slots_taken += 1;
                    event = FetchEvent::SlotGranted;
                }
                FetchAction::Send => {
                    event = upstream.answer(&fetch.request);
                }
                FetchAction::Finish { result, store } => {
                    if store {
                        if let Ok(value) = &result {
                            self.cache.insert(fetch.key.clone(), value.clone());
                        }
                    }
                    return result;
                }
            }
        }
    }
}

#[test]
fn test_list_species() {
    let settings = get_test_settings("http://test.url".to_string());
    let request = list_species(&settings);
    assert_eq!(request.method, "GET");
    assert_eq!(request.url, "http://test.url/public/animals/species");
    assert!(request.body.is_none());

    let mut upstream = Upstream::new();
    upstream.mock(
        "GET",
        "http://test.url/public/animals/species",
        200,
        r#"{"data": [{"id": "1", "type": "species", "attributes": {"singular": "Dog", "plural": "Dogs"}}]}"#,
    );
    let result = Gateway::new().fetch(&mut upstream, request).unwrap();
    assert_eq!(upstream.calls, 1);
    let first = &result.get("data").unwrap().as_array().unwrap()[0];
    assert_eq!(
        first.get("attributes").unwrap().get("singular").unwrap().as_str(),
        Some("Dog")
    );
}

#[test]
fn test_resolve_species_id_numeric() {
    assert!(is_species_id("1"));
    assert!(is_species_id("0123456789"));
    assert!(is_species_id(""));
    assert!(!is_species_id("dog"));
    assert!(!is_species_id("1a"));
    assert!(!is_species_id("-1"));
}

#[test]
fn test_resolve_species_id_name() {
    let list = json(
        r#"{"data": [{"id": "1", "type": "species", "attributes": {"singular": "Dog", "plural": "Dogs"}}]}"#,
    );
    let id = resolve_species_id("dog", &list).unwrap();
    assert_eq!(id, "1");

    let id = resolve_species_id("Dogs", &list).unwrap();
    assert_eq!(id, "1");
}

#[test]
fn test_resolve_species_id_not_found() {
    let list = json(r#"{"data": []}"#);
    let result = resolve_species_id("cat", &list);
    assert!(matches!(result, Err(AppError::NotFound)));
}

#[test]
fn test_resolve_species_id_takes_the_first_match() {
    let list = json(
        r#"{"data": [
            {"id": "3", "attributes": {"singular": "Bird", "plural": "Birds"}},
            {"id": "8", "attributes": {"singular": "CAT", "plural": "Cats"}},
            {"id": "9", "attributes": {"singular": "Cat"}},
            {"attributes": {"singular": "Horse"}}]}"#,
    );
    assert_eq!(resolve_species_id("cat", &list).unwrap(), "8");
    assert_eq!(resolve_species_id("cats", &list).unwrap(), "8");
    assert_eq!(resolve_species_id("BIRDS", &list).unwrap(), "3");
    assert_eq!(resolve_species_id("horse", &list).unwrap(), "");
    assert!(matches!(resolve_species_id("dog", &list), Err(AppError::NotFound)));
}

#[test]
fn test_resolve_species_id_without_a_list() {
    match resolve_species_id("cat", &json(r#"{"data": {}}"#)) {
        Err(AppError::Internal(message)) => {
            assert_eq!(message, "Failed to fetch species list for resolution")
        }
        other => panic!("expected an internal error, got {:?}", other),
    }
    assert!(matches!(resolve_species_id("cat", &json("{}")), Err(AppError::Internal(_))));
}

#[test]
fn test_list_breeds() {
    let settings = get_test_settings("http://test.url".to_string());
    let list = json(
        r#"{"data": [{"id": "1", "attributes": {"singular": "Dog", "plural": "Dogs"}}]}"#,
    );
    let species_id = resolve_species_id("dog", &list).unwrap();
    let request = list_breeds(&settings, &species_id);
    assert_eq!(request.method, "GET");
    assert_eq!(request.url, "http://test.url/public/animals/species/1/breeds");

    let mut upstream = Upstream::new();
    upstream.mock(
        "GET",
        "http://test.url/public/animals/species/1/breeds",
        200,
        r#"{"data": [{"id": "1", "attributes": {"name": "Labrador"}}]}"#,
    );
    let result = Gateway::new().fetch(&mut upstream, request).unwrap();
    let first = &result.get("data").unwrap().as_array().unwrap()[0];
    assert_eq!(
        first.get("attributes").unwrap().get("name").unwrap().as_str(),
        Some("Labrador")
    );
}

#[test]
fn test_get_animal_details() {
    let settings = get_test_settings("http://test.url".to_string());
    let request = get_animal_details(&settings, "123");
    assert_eq!(request.method, "GET");
    assert_eq!(request.url, "http://test.url/public/animals/123");
    assert!(request.body.is_none());
}

#[test]
fn test_fetch_pets() {
    let settings = get_test_settings("http://test.url".to_string());
    let args = ToolArgs {
        postal_code: Some("12345".to_string()),
        miles: Some(10),
        species: Some("dogs".to_string()),
        breeds: Some("Labrador".to_string()),
        sex: Some("Male".to_string()),
        age: Some("Adult".to_string()),
        size: Some("Large".to_string()),
        good_with_children: Some(true),
        good_with_dogs: Some(true),
        good_with_cats: Some(false),
        house_trained: Some(true),
        special_needs: Some(false),
        needs_foster: Some(false),
        color: Some("Black".to_string()),
        pattern: Some("Solid".to_string()),
        sort_by: Some("Newest".to_string()),
    };

    let request = fetch_pets(&settings, &args);
    assert_eq!(request.method, "POST");
    assert_eq!(
        request.url,
        "http://test.url/public/animals/search/available/dogs/haspic?sort=-animals.createdDate"
    );
    assert_eq!(
        body_of(&request),
        [
            r#"{"data":{"filterRadius":{"miles":10,"postalcode":"12345"},"filters":["#,
            r#"{"criteria":"Labrador","fieldName":"breeds.name","operation":"contains"},"#,
            r#"{"criteria":"Male","fieldName":"animals.sex","operation":"equal"},"#,
            r#"{"criteria":"Adult","fieldName":"animals.ageGroup","operation":"equal"},"#,
            r#"{"criteria":"Large","fieldName":"animals.sizeGroup","operation":"equal"},"#,
            r#"{"criteria":"Yes","fieldName":"animals.isGoodWithChildren","operation":"equal"},"#,
            r#"{"criteria":"Yes","fieldName":"animals.isGoodWithDogs","operation":"equal"},"#,
            r#"{"criteria":"No","fieldName":"animals.isGoodWithCats","operation":"equal"},"#,
            r#"{"criteria":"Yes","fieldName":"animals.isHouseTrained","operation":"equal"},"#,
            r#"{"criteria":"No","fieldName":"animals.isSpecialNeeds","operation":"equal"},"#,
            r#"{"criteria":"No","fieldName":"animals.isNeedingFoster","operation":"equal"},"#,
            r#"{"criteria":"Black","fieldName":"animals.colorDetails","operation":"contains"},"#,
            r#"{"criteria":"Solid","fieldName":"animals.patternDetails","operation":"contains"}"#,
            r#"]}}"#,
        ]
        .concat()
    );
}

#[test]
fn test_fetch_pets_defaults() {
    let settings = get_test_settings("http://test.url".to_string());
    let request = fetch_pets(&settings, &ToolArgs::empty());
    assert_eq!(request.url, "http://test.url/public/animals/search/available/dogs/haspic");
    assert_eq!(
        body_of(&request),
        r#"{"data":{"filterRadius":{"miles":50,"postalcode":"00000"}}}"#
    );
}

#[test]
fn test_search_advanced_filters_mock() {
    let mut settings = get_test_settings("http://test.url".to_string());
    settings.default_postal_code = "90210".to_string();
    let mut args = ToolArgs::empty();
    args.postal_code = Some("90210".to_string());
    args.miles = Some(50);
    args.species = Some("dogs".to_string());
    args.sex = Some("Female".to_string());
    args.age = Some("Senior".to_string());

    let request = fetch_pets(&settings, &args);
    assert_eq!(request.url, "http://test.url/public/animals/search/available/dogs/haspic");
    let expected = json(
        r#"{
            "data": {
                "filterRadius": { "miles": 50, "postalcode": "90210" },
                "filters": [
                    { "fieldName": "animals.sex", "operation": "equal", "criteria": "Female" },
                    { "fieldName": "animals.ageGroup", "operation": "equal", "criteria": "Senior" }
                ]
            }
        }"#,
    );
    assert_eq!(body_of(&request), expected.render());
}

#[test]
fn test_search_behavior_filters_mock() {
    let mut settings = get_test_settings("http://test.url".to_string());
    settings.default_postal_code = "90210".to_string();
    let mut args = ToolArgs::empty();
    args.postal_code = Some("90210".to_string());
    args.miles = Some(50);
    args.species = Some("dogs".to_string());
    args.good_with_children = Some(true);
    args.house_trained = Some(true);
    args.special_needs = Some(false);

    let request = fetch_pets(&settings, &args);
    let expected = json(
        r#"{
            "data": {
                "filterRadius": { "miles": 50, "postalcode": "90210" },
                "filters": [
                    { "fieldName": "animals.isGoodWithChildren", "operation": "equal", "criteria": "Yes" },
                    { "fieldName": "animals.isHouseTrained", "operation": "equal", "criteria": "Yes" },
                    { "fieldName": "animals.isSpecialNeeds", "operation": "equal", "criteria": "No" }
                ]
            }
        }"#,
    );
    assert_eq!(body_of(&request), expected.render());
}

#[test]
fn test_search_sorting_mock() {
    let settings = get_test_settings("http://test.url".to_string());
    let mut args = ToolArgs::empty();
    args.sort_by = Some("Newest".to_string());
    assert_eq!(
        fetch_pets(&settings, &args).url,
        "http://test.url/public/animals/search/available/dogs/haspic?sort=-animals.createdDate"
    );
    args.sort_by = Some("Distance".to_string());
    assert_eq!(
        fetch_pets(&settings, &args).url,
        "http://test.url/public/animals/search/available/dogs/haspic?sort=distance"
    );
    args.sort_by = Some("Random".to_string());
    assert_eq!(
        fetch_pets(&settings, &args).url,
        "http://test.url/public/animals/search/available/dogs/haspic?sort=random"
    );
    args.sort_by = Some("newest".to_string());
    assert_eq!(
        fetch_pets(&settings, &args).url,
        "http://test.url/public/animals/search/available/dogs/haspic"
    );
}

#[test]
fn test_search_organizations() {
    let settings = get_test_settings("http://test.url".to_string());
    let args = OrgSearchArgs { postal_code: None, miles: None, query: Some("Rescue".to_string()) };

    let request = search_organizations(&settings, &args);
    assert_eq!(request.method, "POST");
    assert_eq!(request.url, "http://test.url/public/orgs/search");
    assert_eq!(
        body_of(&request),
        r#"{"data":{"filterRadius":{"miles":50,"postalcode":"00000"},"filters":[{"criteria":"Rescue","fieldName":"orgs.name","operation":"contains"}]}}"#
    );

    let plain = search_organizations(&settings, &OrgSearchArgs::empty());
    assert_eq!(
        body_of(&plain),
        r#"{"data":{"filterRadius":{"miles":50,"postalcode":"00000"}}}"#
    );
}

#[test]
fn test_get_random_pet() {
    let settings = get_test_settings("http://test.url".to_string());
    let request = get_random_pet(&settings, Some("dogs".to_string()));
    assert_eq!(request.method, "POST");
    assert_eq!(
        request.url,
        "http://test.url/public/animals/search/available/dogs/haspic?sort=random"
    );
    let request = get_random_pet(&settings, Some("cats".to_string()));
    assert_eq!(
        request.url,
        "http://test.url/public/animals/search/available/cats/haspic?sort=random"
    );
    assert_eq!(
        body_of(&request),
        r#"{"data":{"filterRadius":{"miles":50,"postalcode":"00000"}}}"#
    );
}

#[test]
fn test_fetch_adopted_pets() {
    let settings = get_test_settings("http://test.url".to_string());
    let args = AdoptedAnimalsArgs { postal_code: None, miles: None, species: None };

    let request = fetch_adopted_pets(&settings, &args);
    assert_eq!(request.method, "POST");
    assert_eq!(request.url, "http://test.url/public/animals/search/adopted/dogs/haspic");
    assert_eq!(
        body_of(&request),
        r#"{"data":{"filterRadius":{"miles":50,"postalcode":"00000"}}}"#
    );

    let args = AdoptedAnimalsArgs {
        postal_code: Some("90210".to_string()),
        miles: Some(5),
        species: Some("cats".to_string()),
    };
    let request = fetch_adopted_pets(&settings, &args);
    assert_eq!(request.url, "http://test.url/public/animals/search/adopted/cats/haspic");
    assert_eq!(
        body_of(&request),
        r#"{"data":{"filterRadius":{"miles":5,"postalcode":"90210"}}}"#
    );
}

#[test]
fn test_list_metadata() {
    let settings = get_test_settings("http://test.url".to_string());
    let request = list_metadata(&settings, "colors", None);
    assert_eq!(request.method, "GET");
    assert_eq!(request.url, "http://test.url/public/animals/colors");
}

#[test]
fn test_list_metadata_with_species() {
    let settings = get_test_settings("http://test.url".to_string());
    let list = json(
        r#"{"data": [{"id": "1", "attributes": {"singular": "Dog", "plural": "Dogs"}}]}"#,
    );
    let species_id = resolve_species_id("dog", &list).unwrap();
    let request = list_metadata(&settings, "colors", Some(&species_id));
    assert_eq!(request.url, "http://test.url/public/animals/species/1/colors");
}

#[test]
fn test_get_contact_info() {
    let settings = get_test_settings("http://test.url".to_string());
    let request = get_contact_info(&settings, "123");
    assert_eq!(request.method, "GET");
    assert_eq!(request.url, "http://test.url/public/animals/123?include=orgs");
}

#[test]
fn test_get_breed_details() {
    let settings = get_test_settings("http://test.url".to_string());
    let request = get_breed_details(&settings, "42");
    assert_eq!(request.method, "GET");
    assert_eq!(request.url, "http://test.url/public/animals/breeds/42");
}

#[test]
fn test_compare_animals() {
    let settings = get_test_settings("http://test.url".to_string());
    let requests = compare_animals(&settings, vec!["1".to_string(), "2".to_string()]);
    assert_eq!(requests.len(), 2);
    assert_eq!(requests[0].url, "http://test.url/public/animals/1");
    assert_eq!(requests[1].url, "http://test.url/public/animals/2");

    let outcomes = vec![
        Ok(json(r#"{"data": {"id": "1", "attributes": {"name": "Buddy"}}}"#)),
        Ok(json(r#"{"data": {"id": "2", "attributes": {"name": "Lucy"}}}"#)),
    ];
    let result = compare_results(&outcomes);
    assert_eq!(result.get("data").unwrap().as_array().unwrap().len(), 2);
    assert_eq!(
        result.render(),
        r#"{"data":[{"attributes":{"name":"Buddy"},"id":"1"},{"attributes":{"name":"Lucy"},"id":"2"}],"errors":[]}"#
    );
}

#[test]
fn test_compare_animals_sorts_and_limits() {
    let settings = get_test_settings("http://x".to_string());
    let ids: Vec<String> =
        ["7", "3", "3", "10", "5", "1", "7", "2", "9"].iter().map(|s| s.to_string()).collect();
    let requests = compare_animals(&settings, ids);
    let urls: Vec<&str> = requests.iter().map(|r| r.url.as_str()).collect();
    assert_eq!(
        urls,
        vec![
            "http://x/public/animals/1",
            "http://x/public/animals/10",
            "http://x/public/animals/2",
            "http://x/public/animals/3",
            "http://x/public/animals/5",
        ]
    );
    assert!(compare_animals(&settings, Vec::new()).is_empty());
}

#[test]
fn test_compare_animals_with_errors() {
    let outcomes = vec![
        Ok(json(r#"{"data": {"id": "1", "attributes": {"name": "Buddy"}}}"#)),
        Err(AppError::ApiError("API Error: 500 Internal Server Error".to_string()).to_string()),
    ];
    let result = compare_results(&outcomes);
    assert_eq!(result.get("data").unwrap().as_array().unwrap().len(), 1);
    assert_eq!(result.get("errors").unwrap().as_array().unwrap().len(), 1);
    assert_eq!(
        result.get("errors").unwrap().as_array().unwrap()[0].as_str(),
        Some("API Error: API Error: 500 Internal Server Error")
    );
}

#[test]
fn test_compare_results_skips_answers_without_an_animal() {
    let outcomes = vec![
        Ok(json(r#"{"data": []}"#)),
        Ok(json(r#"{"other": 1}"#)),
        Ok(json(r#"{"data": [{"id": "a"}, {"id": "b"}]}"#)),
        Ok(json(r#"{"data": 3}"#)),
    ];
    assert_eq!(compare_results(&outcomes).render(), r#"{"data":[{"id":"a"}],"errors":[]}"#);
}

#[test]
fn test_list_metadata_types() {
    let result = list_metadata_types();
    let types = result.get("data").unwrap().as_array().unwrap();
    assert!(types.iter().any(|t| t.as_str() == Some("breeds")));
    assert_eq!(
        result.render(),
        r#"{"data":["breeds","colors","patterns","species","statuses","qualities"]}"#
    );
}

#[test]
fn test_api_error_404() {
    let settings = get_test_settings("http://test.url".to_string());
    let mut upstream = Upstream::new();
    upstream.mock("GET", "http://test.url/public/animals/999", 404, "");
    let result = Gateway::new().fetch(&mut upstream, get_animal_details(&settings, "999"));
    assert!(matches!(result, Err(AppError::NotFound)));
}

#[test]
fn test_api_error_500() {
    let settings = get_test_settings("http://test.url".to_string());
    let mut upstream = Upstream::new();
    upstream.mock("GET", "http://test.url/public/animals/error", 500, "");
    let result = Gateway::new().fetch(&mut upstream, get_animal_details(&settings, "error"));
    assert!(matches!(result, Err(AppError::ApiError(_))));
    match result {
        Err(AppError::ApiError(message)) => {
            assert_eq!(message, "API Error: 500 Internal Server Error")
        }
        _ => unreachable!(),
    }
}

#[test]
fn test_list_animals() {
    let settings = get_test_settings("http://test.url".to_string());
    let request = list_animals(&settings);
    assert_eq!(request.method, "GET");
    assert_eq!(request.url, "http://test.url/public/animals");
}

#[test]
fn test_get_organization_details() {
    let settings = get_test_settings("http://test.url".to_string());
    let request = get_organization_details(&settings, "866");
    assert_eq!(request.method, "GET");
    assert_eq!(request.url, "http://test.url/public/orgs/866");
}

#[test]
fn test_list_org_animals() {
    let settings = get_test_settings("http://test.url".to_string());
    let request = list_org_animals(&settings, "866");
    assert_eq!(request.method, "GET");
    assert_eq!(request.url, "http://test.url/public/orgs/866/animals/search/available");
}

#[test]
fn test_rate_limiting_call() {
    let settings = get_test_settings("http://test.url".to_string());
    let mut upstream = Upstream::new();
    upstream.mock("GET", "http://test.url/public/animals/species", 200, r#"{"data": []}"#);
    let mut gateway = Gateway::new();
    gateway.fetch(&mut upstream, list_species(&settings)).unwrap();
    assert_eq!(gateway.slots_taken, 1);
    assert_eq!(upstream.calls, 1);
}

#[test]
fn test_request_waits_for_its_slot() {
    let settings = get_test_settings("http://test.url".to_string());
    let mut fetch = fetch_with_cache(list_species(&settings));
    assert_eq!(fetch.stage, Stage::Lookup);
    assert!(matches!(fetch.on_event(FetchEvent::CacheMiss), FetchAction::WaitForSlot));
    assert_eq!(fetch.stage, Stage::Slot);
    // an answer that comes while the slot is waited for does not start the request
    let early = fetch.on_event(FetchEvent::CacheMiss);
    assert!(matches!(early, FetchAction::Finish { result: Err(AppError::Internal(_)), store: false }));
    assert_eq!(fetch.stage, Stage::Done);

    let mut fetch = fetch_with_cache(list_species(&settings));
    assert!(matches!(fetch.on_event(FetchEvent::CacheMiss), FetchAction::WaitForSlot));
    assert!(matches!(fetch.on_event(FetchEvent::SlotGranted), FetchAction::Send));
    assert_eq!(fetch.stage, Stage::Network);
    let done = fetch.on_event(FetchEvent::Failed("timed out".to_string()));
    match done {
        FetchAction::Finish { result: Err(AppError::Network(message)), store } => {
            assert_eq!(message, "timed out");
            assert!(!store);
        }
        other => panic!("unexpected action {:?}", other),
    }
}

#[test]
fn test_caching_behavior() {
    let settings = get_test_settings("http://test.url".to_string());
    let mut upstream = Upstream::new();
    upstream.mock(
        "GET",
        "http://test.url/public/animals/123",
        200,
        r#"{"data": {"attributes": {"name": "CachedPet", "breedString": "Mix"}}}"#,
    );
    let mut gateway = Gateway::new();

    // First call - goes to the upstream API
    let first = gateway.fetch(&mut upstream, get_animal_details(&settings, "123")).unwrap();
    assert_eq!(upstream.calls, 1);
    assert_eq!(gateway.slots_taken, 1);

    // Second call - answered by the cache
    let second = gateway.fetch(&mut upstream, get_animal_details(&settings, "123")).unwrap();
    assert_eq!(upstream.calls, 1);
    assert_eq!(gateway.slots_taken, 1);
    assert_eq!(first.render(), second.render());
}

#[test]
fn test_expired_entry_is_fetched_again() {
    let settings = get_test_settings("http://test.url".to_string());
    let mut upstream = Upstream::new();
    upstream.mock("GET", "http://test.url/public/animals/123", 200, r#"{"data": {"id": "123"}}"#);
    let mut gateway = Gateway::new();
    gateway.fetch(&mut upstream, get_animal_details(&settings, "123")).unwrap();
    // the entry expires
    gateway.cache.clear();
    gateway.fetch(&mut upstream, get_animal_details(&settings, "123")).unwrap();
    assert_eq!(upstream.calls, 2);
    assert_eq!(gateway.slots_taken, 2);
}

#[test]
fn test_failures_are_not_cached() {
    let settings = get_test_settings("http://test.url".to_string());
    let mut upstream = Upstream::new();
    upstream.mock("GET", "http://test.url/public/animals/1", 500, r#"{"data": {}}"#);
    upstream.mock("GET", "http://test.url/public/animals/2", 200, "not json");
    let mut gateway = Gateway::new();
    assert!(gateway.fetch(&mut upstream, get_animal_details(&settings, "1")).is_err());
    let undecoded = gateway.fetch(&mut upstream, get_animal_details(&settings, "2"));
    match undecoded {
        Err(AppError::Network(message)) => assert_eq!(message, "error decoding response body"),
        other => panic!("expected a network error, got {:?}", other),
    }
    assert!(gateway.cache.is_empty());
    assert!(gateway.fetch(&mut upstream, get_animal_details(&settings, "1")).is_err());
    assert_eq!(upstream.calls, 3);
}

#[test]
fn test_cache_key() {
    let settings = get_test_settings("http://test.url".to_string());
    assert_eq!(cache_key(&list_animals(&settings)), "GET:http://test.url/public/animals:");
    assert_eq!(
        cache_key(&fetch_adopted_pets(&settings, &AdoptedAnimalsArgs::empty())),
        r#"POST:http://test.url/public/animals/search/adopted/dogs/haspic:{"data":{"filterRadius":{"miles":50,"postalcode":"00000"}}}"#
    );
    let fetch = fetch_with_cache(list_animals(&settings));
    assert_eq!(fetch.key, "GET:http://test.url/public/animals:");
}

#[test]
fn test_classify_response() {
    assert_eq!(classify_response(200, "200 OK", Some(json("{\"a\":1}"))).unwrap().render(), "{\"a\":1}");
    assert!(classify_response(299, "299", Some(json("[]"))).is_ok());
    assert!(matches!(classify_response(204, "204 No Content", None), Err(AppError::Network(_))));
    assert!(matches!(classify_response(404, "404 Not Found", Some(json("{}"))), Err(AppError::NotFound)));
    assert!(matches!(classify_response(199, "199", Some(json("{}"))), Err(AppError::ApiError(_))));
    assert!(matches!(classify_response(300, "300", Some(json("{}"))), Err(AppError::ApiError(_))));
    match classify_response(503, "503 Service Unavailable", None) {
        Err(AppError::ApiError(message)) => assert_eq!(message, "API Error: 503 Service Unavailable"),
        other => panic!("expected an API error, got {:?}", other),
    }
}

#[test]
fn test_build_search_body_and_add_filter() {
    let mut filters = Vec::new();
    add_filter(&mut filters, "animals.sex", "equal", "Male");
    assert_eq!(
        filters[0].render(),
        r#"{"criteria":"Male","fieldName":"animals.sex","operation":"equal"}"#
    );
    assert_eq!(
        build_search_body(4294967295, "9", filters).render(),
        r#"{"data":{"filterRadius":{"miles":4294967295,"postalcode":"9"},"filters":[{"criteria":"Male","fieldName":"animals.sex","operation":"equal"}]}}"#
    );
    assert_eq!(
        build_search_body(0, "", Vec::new()).render(),
        r#"{"data":{"filterRadius":{"miles":0,"postalcode":""}}}"#
    );
}

#[test]
fn test_request_headers() {
    let settings = get_test_settings("http://test.url".to_string());
    assert_eq!(
        request_headers(&settings),
        vec![
            ("Authorization".to_string(), "test_key".to_string()),
            ("Content-Type".to_string(), "application/vnd.api+json".to_string()),
        ]
    );
}

#[test]
fn test_lowercase_wrapper_changes_its_argument() {
    let list = json(r#"{"data": [{"id": "5", "attributes": {"singular": "RABBIT"}}]}"#);
    assert_eq!(resolve_species_id("Rabbit", &list).unwrap(), "5");
}
