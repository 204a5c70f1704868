//! The calls to the upstream API: which request each tool makes, and how the
//! gateway in front of the API decides between its cache, its rate limiter
//! and the network.
//!
//! Nothing here touches the network. A function of this module says which
//! request is due; the caller performs it and hands the answer back.

use vstd::prelude::*;
use vstd::string::*;
use crate::cli::{AdoptedAnimalsArgs, OrgSearchArgs, ToolArgs, ToolArgsView, opt_text};
use crate::config::Settings;
use crate::error::{AppError, AppErrorView};
use crate::fmt::{attr, extract_single_item, single_item};
use crate::json::{
    items_view,
    json_parse,
    json_text,
    lemma_items_push,
    lemma_items_view,
    text_or,
    Json,
    JsonView,
};
use crate::text::{dedup, sort, sort_strings, texts};

verus! {

/// The lower-case form that std gives a text.
pub uninterp spec fn lowercase(text: Seq<char>) -> Seq<char>;

/// Whether std counts a character among the numeric ones.
pub uninterp spec fn char_is_numeric(c: char) -> bool;

/// `str::to_lowercase`: the lower-case form of a text, which depends on the
/// text alone.
#[verifier::external_body]
fn to_lowercase(text: &str) -> (r: String)
    ensures
        r@ == lowercase(text@),
{
    text.to_lowercase()
}

/// `char::is_numeric`: whether a character is one of the numeric ones,
/// which depends on the character alone.
#[verifier::external_body]
fn is_numeric(c: char) -> (r: bool)
    ensures
        r == char_is_numeric(c),
{
    c.is_numeric()
}

/// One call to the upstream API.
#[derive(Debug)]
pub struct UpstreamRequest {
    /// `GET` or `POST`.
    pub method: String,
    pub url: String,
    /// The JSON document to send, if any.
    pub body: Option<Json>,
}

/// What an `UpstreamRequest` stands for in contracts: its texts are sequences of
/// characters, its JSON documents their values.
pub struct UpstreamRequestView {
    pub method: Seq<char>,
    pub url: Seq<char>,
    pub body: Option<JsonView>,
}

impl View for UpstreamRequest {
    type V = UpstreamRequestView;

    open spec fn view(&self) -> UpstreamRequestView {
        UpstreamRequestView {
            method: self.method@,
            url: self.url@,
            body: match self.body {
                Some(b) => Some(b@),
                None => None,
            },
        }
    }
}

impl Clone for UpstreamRequest {
    fn clone(&self) -> (r: UpstreamRequest)
        ensures
            r@ == self@,
    {
        UpstreamRequest {
            method: self.method.clone(),
            url: self.url.clone(),
            body: match &self.body {
                Some(b) => Some(b.clone()),
                None => None,
            },
        }
    }
}

/// The `GET` request for a path under the base URL.
pub open spec fn get_request(base: Seq<char>, path: Seq<char>) -> UpstreamRequestView {
    UpstreamRequestView { method: "GET"@, url: base + path, body: None }
}

/// The `POST` request for a path under the base URL, with a body.
pub open spec fn post_request(base: Seq<char>, path: Seq<char>, body: JsonView) -> UpstreamRequestView {
    UpstreamRequestView { method: "POST"@, url: base + path, body: Some(body) }
}

fn get(settings: &Settings, path: &str) -> (r: UpstreamRequest)
    ensures
        r@ == get_request(settings.base_url@, path@),
{
    let mut url = settings.base_url.clone();
    url.append(path);
    UpstreamRequest { method: String::from_str("GET"), url, body: None }
}

fn post(settings: &Settings, path: &str, body: Json) -> (r: UpstreamRequest)
    ensures
        r@ == post_request(settings.base_url@, path@, body@),
{
    let mut url = settings.base_url.clone();
    url.append(path);
    UpstreamRequest { method: String::from_str("POST"), url, body: Some(body) }
}

/// The request that lists the species.
pub fn list_species(settings: &Settings) -> (r: UpstreamRequest)
    ensures
        r@ == get_request(settings.base_url@, "/public/animals/species"@),
{
    get(settings, "/public/animals/species")
}

/// The request that lists the most recent adoptable animals.
pub fn list_animals(settings: &Settings) -> (r: UpstreamRequest)
    ensures
        r@ == get_request(settings.base_url@, "/public/animals"@),
{
    get(settings, "/public/animals")
}

/// The request for the breeds of the species with the given id.
pub fn list_breeds(settings: &Settings, species_id: &str) -> (r: UpstreamRequest)
    ensures
        r@ == get_request(
            settings.base_url@,
            "/public/animals/species/"@ + species_id@ + "/breeds"@,
        ),
{
    let mut path = String::from_str("/public/animals/species/");
    path.append(species_id);
    path.append("/breeds");
    get(settings, path.as_str())
}

/// The path of a kind of metadata, for all animals or for one species.
pub open spec fn metadata_path(metadata_type: Seq<char>, species_id: Option<Seq<char>>) -> Seq<
    char,
> {
    match species_id {
        Some(id) => "/public/animals/species/"@ + id + "/"@ + metadata_type,
        None => "/public/animals/"@ + metadata_type,
    }
}

/// The request for the values of a kind of metadata, for all animals or for
/// the species with the given id.
pub fn list_metadata(settings: &Settings, metadata_type: &str, species_id: Option<&str>) -> (r:
    UpstreamRequest)
    ensures
        r@ == get_request(
            settings.base_url@,
            metadata_path(
                metadata_type@,
                match species_id {
                    Some(id) => Some(id@),
                    None => None,
                },
            ),
        ),
{
    match species_id {
        Some(id) => {
            let mut path = String::from_str("/public/animals/species/");
            path.append(id);
            path.append("/");
            path.append(metadata_type);
            get(settings, path.as_str())
        },
        None => {
            let mut path = String::from_str("/public/animals/");
            path.append(metadata_type);
            get(settings, path.as_str())
        },
    }
}

/// The request for one breed.
pub fn get_breed_details(settings: &Settings, breed_id: &str) -> (r: UpstreamRequest)
    ensures
        r@ == get_request(settings.base_url@, "/public/animals/breeds/"@ + breed_id@),
{
    let mut path = String::from_str("/public/animals/breeds/");
    path.append(breed_id);
    get(settings, path.as_str())
}

/// The kinds of metadata that can be listed.
pub open spec fn metadata_types() -> Seq<JsonView> {
    seq![
        JsonView::Str("breeds"@),
        JsonView::Str("colors"@),
        JsonView::Str("patterns"@),
        JsonView::Str("species"@),
        JsonView::Str("statuses"@),
        JsonView::Str("qualities"@),
    ]
}

/// The kinds of metadata that can be listed, as the answer
/// `{"data": [...]}`. No request is made for it.
pub fn list_metadata_types() -> (r: Json)
    ensures
        r@ == JsonView::empty_object().with("data"@, JsonView::Array(metadata_types())),
{
    let mut types: Vec<Json> = Vec::new();
    proof {
        lemma_items_view(types@);
    }
    push_text(&mut types, "breeds");
    push_text(&mut types, "colors");
    push_text(&mut types, "patterns");
    push_text(&mut types, "species");
    push_text(&mut types, "statuses");
    push_text(&mut types, "qualities");
    assert(items_view(types@) =~= metadata_types());
    Json::object().with("data", Json::array(types))
}

/// Appends a string value to a list.
fn push_text(items: &mut Vec<Json>, text: &str)
    ensures
        items_view(final(items)@) == items_view(old(items)@).push(JsonView::Str(text@)),
{
    let item = Json::string(text);
    proof {
        lemma_items_push(items@, item);
    }
    items.push(item);
}

/// The request for one animal.
pub fn get_animal_details(settings: &Settings, animal_id: &str) -> (r: UpstreamRequest)
    ensures
        r@ == get_request(settings.base_url@, "/public/animals/"@ + animal_id@),
{
    let mut path = String::from_str("/public/animals/");
    path.append(animal_id);
    get(settings, path.as_str())
}

/// The request for one animal together with its organization.
pub fn get_contact_info(settings: &Settings, animal_id: &str) -> (r: UpstreamRequest)
    ensures
        r@ == get_request(
            settings.base_url@,
            "/public/animals/"@ + animal_id@ + "?include=orgs"@,
        ),
{
    let mut path = String::from_str("/public/animals/");
    path.append(animal_id);
    path.append("?include=orgs");
    get(settings, path.as_str())
}

/// The request for one organization.
pub fn get_organization_details(settings: &Settings, org_id: &str) -> (r: UpstreamRequest)
    ensures
        r@ == get_request(settings.base_url@, "/public/orgs/"@ + org_id@),
{
    let mut path = String::from_str("/public/orgs/");
    path.append(org_id);
    get(settings, path.as_str())
}

/// The request for the adoptable animals of one organization.
pub fn list_org_animals(settings: &Settings, org_id: &str) -> (r: UpstreamRequest)
    ensures
        r@ == get_request(
            settings.base_url@,
            "/public/orgs/"@ + org_id@ + "/animals/search/available"@,
        ),
{
    let mut path = String::from_str("/public/orgs/");
    path.append(org_id);
    path.append("/animals/search/available");
    get(settings, path.as_str())
}

/// One condition of a search: `{"fieldName", "operation", "criteria"}`.
pub open spec fn filter(field: Seq<char>, operation: Seq<char>, criteria: Seq<char>) -> JsonView {
    JsonView::empty_object().with("fieldName"@, JsonView::Str(field)).with(
        "operation"@,
        JsonView::Str(operation),
    ).with("criteria"@, JsonView::Str(criteria))
}

/// Where to search: `{"miles", "postalcode"}`.
pub open spec fn radius(miles: u32, postal_code: Seq<char>) -> JsonView {
    JsonView::empty_object().with("miles"@, JsonView::integer(miles as i64)).with(
        "postalcode"@,
        JsonView::Str(postal_code),
    )
}

/// The body of a search: the radius, and the conditions if there are any.
pub open spec fn search_body(miles: u32, postal_code: Seq<char>, filters: Seq<JsonView>) -> JsonView {
    let data = JsonView::empty_object().with("filterRadius"@, radius(miles, postal_code));
    JsonView::empty_object().with(
        "data"@,
        if filters.len() == 0 {
            data
        } else {
            data.with("filters"@, JsonView::Array(filters))
        },
    )
}

/// Builds the body of a search.
pub fn build_search_body(miles: u32, postal_code: &str, filters: Vec<Json>) -> (r: Json)
    ensures
        r@ == search_body(miles, postal_code@, items_view(filters@)),
{
    proof {
        lemma_items_view(filters@);
    }
    let around = Json::object().with("miles", Json::integer(miles as i64)).with(
        "postalcode",
        Json::string(postal_code),
    );
    let mut data = Json::object().with("filterRadius", around);
    if filters.len() > 0 {
        data = data.with("filters", Json::array(filters));
    }
    Json::object().with("data", data)
}

/// Appends one condition to the conditions of a search.
pub fn add_filter(filters: &mut Vec<Json>, field: &str, operation: &str, criteria: &str)
    ensures
        items_view(final(filters)@) == items_view(old(filters)@).push(
            filter(field@, operation@, criteria@),
        ),
{
    let item = Json::object().with("fieldName", Json::string(field)).with(
        "operation",
        Json::string(operation),
    ).with("criteria", Json::string(criteria));
    proof {
        lemma_items_push(filters@, item);
    }
    filters.push(item);
}

/// The condition on a text, if one is asked for.
pub open spec fn text_filter(value: Option<Seq<char>>, field: Seq<char>, operation: Seq<char>) -> Seq<
    JsonView,
> {
    match value {
        Some(v) => seq![filter(field, operation, v)],
        None => Seq::empty(),
    }
}

/// The condition on a trait that an animal has or has not, if one is asked
/// for.
pub open spec fn flag_filter(value: Option<bool>, field: Seq<char>) -> Seq<JsonView> {
    match value {
        Some(v) => seq![
            filter(
                field,
                "equal"@,
                if v {
                    "Yes"@
                } else {
                    "No"@
                },
            ),
        ],
        None => Seq::empty(),
    }
}

/// The conditions of a search for pets, in the order in which they are sent.
pub open spec fn pet_filters(args: ToolArgsView) -> Seq<JsonView> {
    text_filter(args.breeds, "breeds.name"@, "contains"@) + text_filter(
        args.sex,
        "animals.sex"@,
        "equal"@,
    ) + text_filter(args.age, "animals.ageGroup"@, "equal"@) + text_filter(
        args.size,
        "animals.sizeGroup"@,
        "equal"@,
    ) + flag_filter(args.good_with_children, "animals.isGoodWithChildren"@) + flag_filter(
        args.good_with_dogs,
        "animals.isGoodWithDogs"@,
    ) + flag_filter(args.good_with_cats, "animals.isGoodWithCats"@) + flag_filter(
        args.house_trained,
        "animals.isHouseTrained"@,
    ) + flag_filter(args.special_needs, "animals.isSpecialNeeds"@) + flag_filter(
        args.needs_foster,
        "animals.isNeedingFoster"@,
    ) + text_filter(args.color, "animals.colorDetails"@, "contains"@) + text_filter(
        args.pattern,
        "animals.patternDetails"@,
        "contains"@,
    )
}

fn add_text_filter(filters: &mut Vec<Json>, value: &Option<String>, field: &str, operation: &str)
    ensures
        items_view(final(filters)@) == items_view(old(filters)@) + text_filter(
            opt_text(*value),
            field@,
            operation@,
        ),
{
    match value {
        Some(v) => {
            add_filter(filters, field, operation, v.as_str());
            assert(items_view(old(filters)@).push(filter(field@, operation@, v@)) =~= items_view(
                old(filters)@,
            ) + seq![filter(field@, operation@, v@)]);
        },
        None => {
            assert(items_view(old(filters)@) + Seq::<JsonView>::empty() =~= items_view(
                old(filters)@,
            ));
        },
    }
}

fn add_flag_filter(filters: &mut Vec<Json>, value: Option<bool>, field: &str)
    ensures
        items_view(final(filters)@) == items_view(old(filters)@) + flag_filter(value, field@),
{
    match value {
        Some(v) => {
            let criteria = if v {
                "Yes"
            } else {
                "No"
            };
            add_filter(filters, field, "equal", criteria);
            assert(items_view(old(filters)@).push(filter(field@, "equal"@, criteria@))
                =~= items_view(old(filters)@) + seq![filter(field@, "equal"@, criteria@)]);
        },
        None => {
            assert(items_view(old(filters)@) + Seq::<JsonView>::empty() =~= items_view(
                old(filters)@,
            ));
        },
    }
}

/// The query that asks for an order of the results.
pub open spec fn sort_param(sort_by: Option<Seq<char>>) -> Seq<char> {
    match sort_by {
        Some(s) => if s == "Newest"@ {
            "?sort=-animals.createdDate"@
        } else if s == "Distance"@ {
            "?sort=distance"@
        } else if s == "Random"@ {
            "?sort=random"@
        } else {
            Seq::empty()
        },
        None => Seq::empty(),
    }
}

/// `value`, and `default` where there is none.
pub open spec fn or_text(value: Option<Seq<char>>, default: Seq<char>) -> Seq<char> {
    match value {
        Some(v) => v,
        None => default,
    }
}

/// `value`, and `default` where there is none.
pub open spec fn or_miles(value: Option<u32>, default: u32) -> u32 {
    match value {
        Some(v) => v,
        None => default,
    }
}

fn text_or_default<'a>(value: &'a Option<String>, default: &'a String) -> (r: &'a str)
    ensures
        r@ == or_text(opt_text(*value), default@),
{
    match value {
        Some(v) => v.as_str(),
        None => default.as_str(),
    }
}

fn miles_or_default(value: Option<u32>, default: u32) -> (r: u32)
    ensures
        r == or_miles(value, default),
{
    match value {
        Some(v) => v,
        None => default,
    }
}

/// The search for adoptable pets that `args` asks for. What `args` leaves
/// out is taken from the settings.
pub open spec fn pets_request(
    base: Seq<char>,
    default_species: Seq<char>,
    default_postal_code: Seq<char>,
    default_miles: u32,
    args: ToolArgsView,
) -> UpstreamRequestView {
    post_request(
        base,
        "/public/animals/search/available/"@ + or_text(args.species, default_species) + "/haspic"@
            + sort_param(args.sort_by),
        search_body(
            or_miles(args.miles, default_miles),
            or_text(args.postal_code, default_postal_code),
            pet_filters(args),
        ),
    )
}

/// The request that searches for adoptable pets.
pub fn fetch_pets(settings: &Settings, args: &ToolArgs) -> (r: UpstreamRequest)
    ensures
        r@ == pets_request(
            settings.base_url@,
            settings.default_species@,
            settings.default_postal_code@,
            settings.default_miles,
            args@,
        ),
{
    let miles = miles_or_default(args.miles, settings.default_miles);
    let species = text_or_default(&args.species, &settings.default_species);
    let postal_code = text_or_default(&args.postal_code, &settings.default_postal_code);
    let order = match &args.sort_by {
        Some(s) => if s.as_str().eq("Newest") {
            "?sort=-animals.createdDate"
        } else if s.as_str().eq("Distance") {
            "?sort=distance"
        } else if s.as_str().eq("Random") {
            "?sort=random"
        } else {
            ""
        },
        None => "",
    };
    assert(order@ == sort_param(args@.sort_by)) by {
        reveal_strlit("");
        assert(""@ =~= Seq::<char>::empty());
    }
    let mut path = String::from_str("/public/animals/search/available/");
    path.append(species);
    path.append("/haspic");
    path.append(order);

    let mut filters: Vec<Json> = Vec::new();
    assert(items_view(filters@) =~= Seq::<JsonView>::empty());
    add_text_filter(&mut filters, &args.breeds, "breeds.name", "contains");
    assert(items_view(filters@) =~= text_filter(args@.breeds, "breeds.name"@, "contains"@));
    add_text_filter(&mut filters, &args.sex, "animals.sex", "equal");
    add_text_filter(&mut filters, &args.age, "animals.ageGroup", "equal");
    add_text_filter(&mut filters, &args.size, "animals.sizeGroup", "equal");
    add_flag_filter(&mut filters, args.good_with_children, "animals.isGoodWithChildren");
    add_flag_filter(&mut filters, args.good_with_dogs, "animals.isGoodWithDogs");
    add_flag_filter(&mut filters, args.good_with_cats, "animals.isGoodWithCats");
    add_flag_filter(&mut filters, args.house_trained, "animals.isHouseTrained");
    add_flag_filter(&mut filters, args.special_needs, "animals.isSpecialNeeds");
    add_flag_filter(&mut filters, args.needs_foster, "animals.isNeedingFoster");
    add_text_filter(&mut filters, &args.color, "animals.colorDetails", "contains");
    add_text_filter(&mut filters, &args.pattern, "animals.patternDetails", "contains");

    let body = build_search_body(miles, postal_code, filters);
    post(settings, path.as_str(), body)
}

/// The search that asks for nothing but a random order, for a species.
pub open spec fn random_pet_args(species: Option<Seq<char>>) -> ToolArgsView {
    ToolArgsView { species, sort_by: Some("Random"@), ..ToolArgsView::empty() }
}

/// The request for adoptable pets of a species in a random order.
pub fn get_random_pet(settings: &Settings, species: Option<String>) -> (r: UpstreamRequest)
    ensures
        r@ == pets_request(
            settings.base_url@,
            settings.default_species@,
            settings.default_postal_code@,
            settings.default_miles,
            random_pet_args(opt_text(species)),
        ),
{
    let mut args = ToolArgs::empty();
    args.species = species;
    args.sort_by = Some(String::from_str("Random"));
    fetch_pets(settings, &args)
}

/// The request that lists recently adopted animals.
pub fn fetch_adopted_pets(settings: &Settings, args: &AdoptedAnimalsArgs) -> (r: UpstreamRequest)
    ensures
        r@ == post_request(
            settings.base_url@,
            "/public/animals/search/adopted/"@ + or_text(args@.species, settings.default_species@)
                + "/haspic"@,
            search_body(
                or_miles(args.miles, settings.default_miles),
                or_text(args@.postal_code, settings.default_postal_code@),
                Seq::empty(),
            ),
        ),
{
    let miles = miles_or_default(args.miles, settings.default_miles);
    let species = text_or_default(&args.species, &settings.default_species);
    let postal_code = text_or_default(&args.postal_code, &settings.default_postal_code);
    let mut path = String::from_str("/public/animals/search/adopted/");
    path.append(species);
    path.append("/haspic");
    let filters: Vec<Json> = Vec::new();
    assert(items_view(filters@) =~= Seq::<JsonView>::empty());
    let body = build_search_body(miles, postal_code, filters);
    post(settings, path.as_str(), body)
}

/// The body of a search for organizations: the radius, and the condition on
/// the name if one is asked for.
pub open spec fn org_search_body(miles: u32, postal_code: Seq<char>, query: Option<Seq<char>>) -> JsonView {
    search_body(miles, postal_code, text_filter(query, "orgs.name"@, "contains"@))
}

/// The request that searches for organizations.
pub fn search_organizations(settings: &Settings, args: &OrgSearchArgs) -> (r: UpstreamRequest)
    ensures
        r@ == post_request(
            settings.base_url@,
            "/public/orgs/search"@,
            org_search_body(
                or_miles(args.miles, settings.default_miles),
                or_text(args@.postal_code, settings.default_postal_code@),
                args@.query,
            ),
        ),
{
    let miles = miles_or_default(args.miles, settings.default_miles);
    let postal_code = text_or_default(&args.postal_code, &settings.default_postal_code);
    let mut filters: Vec<Json> = Vec::new();
    assert(items_view(filters@) =~= Seq::<JsonView>::empty());
    add_text_filter(&mut filters, &args.query, "orgs.name", "contains");
    assert(items_view(filters@) =~= text_filter(args@.query, "orgs.name"@, "contains"@));
    let body = build_search_body(miles, postal_code, filters);
    post(settings, "/public/orgs/search", body)
}

/// Whether every character of a text is a numeric one. The empty text is
/// such a text.
pub open spec fn all_numeric(text: Seq<char>) -> bool {
    forall|i: int| 0 <= i < text.len() ==> char_is_numeric(#[trigger] text[i])
}

/// Whether `species` is an id already, so that no list has to be fetched to
/// find its id.
pub fn is_species_id(species: &str) -> (r: bool)
    ensures
        r == all_numeric(species@),
{
    let n = species.unicode_len();
    let mut i: usize = 0;
    while i < n
        invariant
            n == species@.len(),
            i <= n,
            forall|j: int| 0 <= j < i ==> char_is_numeric(#[trigger] species@[j]),
        decreases n - i,
    {
        if !is_numeric(species.get_char(i)) {
            return false;
        }
        i = i + 1;
    }
    true
}

/// Whether an item of the species list goes by the name `target`, which is
/// in lower case, in the singular or in the plural.
pub open spec fn names_species(item: JsonView, target: Seq<char>) -> bool {
    lowercase(attr(item, "singular"@, ""@)) == target || lowercase(attr(item, "plural"@, ""@))
        == target
}

/// The first item of the species list that goes by the name `target`.
pub open spec fn first_species(items: Seq<JsonView>, target: Seq<char>) -> Option<JsonView>
    decreases items.len(),
{
    if items.len() == 0 {
        None
    } else if names_species(items[0], target) {
        Some(items[0])
    } else {
        first_species(items.drop_first(), target)
    }
}

/// The id that the species list gives a species of the given name, whatever
/// the case of its letters. A list that is none is an internal error; a name
/// that the list lacks is not found.
pub open spec fn species_id(species: Seq<char>, list: JsonView) -> Result<Seq<char>, AppErrorView> {
    match list.at("data"@) {
        JsonView::Array(items) => match first_species(items, lowercase(species)) {
            Some(found) => Ok(found.at("id"@).str_or(""@)),
            None => Err(AppErrorView::NotFound),
        },
        _ => Err(AppErrorView::Internal("Failed to fetch species list for resolution"@)),
    }
}

fn attribute_lower(item: &Json, key: &str) -> (r: String)
    ensures
        r@ == lowercase(attr(item@, key@, ""@)),
{
    let text = match item.get("attributes") {
        Some(attrs) => text_or(attrs, key, ""),
        None => "",
    };
    to_lowercase(text)
}

/// Finds the id of a species in the answer to `list_species`.
pub fn resolve_species_id(species: &str, species_list: &Json) -> (r: Result<String, AppError>)
    ensures
        match r {
            Ok(id) => species_id(species@, species_list@) == Ok::<Seq<char>, AppErrorView>(id@),
            Err(e) => species_id(species@, species_list@) == Err::<Seq<char>, AppErrorView>(e@),
        },
{
    let items = match species_list.get("data") {
        Some(found) => found.as_array(),
        None => None,
    };
    let items = match items {
        Some(items) => items,
        None => {
            return Err(
                AppError::Internal(String::from_str("Failed to fetch species list for resolution")),
            );
        },
    };
    proof {
        lemma_items_view(items@);
    }
    let target = to_lowercase(species);
    let ghost views = items_view(items@);
    let mut i: usize = 0;
    assert(views.skip(0) == views);
    while i < items.len()
        invariant
            i <= items.len(),
            views == items_view(items@),
            views.len() == items@.len(),
            forall|j: int| 0 <= j < items@.len() ==> views[j] == items@[j]@,
            species_list@.at("data"@) == JsonView::Array(views),
            target@ == lowercase(species@),
            first_species(views, target@) == first_species(views.skip(i as int), target@),
        decreases items.len() - i,
    {
        let ghost rest = views.skip(i as int);
        assert(rest[0] == items@[i as int]@);
        assert(rest.drop_first() == views.skip(i + 1));
        let singular = attribute_lower(&items[i], "singular");
        let plural = attribute_lower(&items[i], "plural");
        if singular.as_str().eq(target.as_str()) || plural.as_str().eq(target.as_str()) {
            let id = text_or(&items[i], "id", "");
            return Ok(String::from_str(id));
        }
        i = i + 1;
    }
    assert(views.skip(items.len() as int).len() == 0);
    Err(AppError::NotFound)
}

/// The most animals that are put side by side.
pub const COMPARED: usize = 5;

/// The ids to compare: those asked for, in ascending order, each once, and
/// no more than five of them.
pub open spec fn compared_ids(ids: Seq<Seq<char>>) -> Seq<Seq<char>> {
    let unique = dedup(sort(ids));
    if unique.len() <= COMPARED {
        unique
    } else {
        unique.take(COMPARED as int)
    }
}

/// A text that repeats its predecessor is left out: the texts up to a place
/// give the same, whether or not the list goes on.
proof fn lemma_dedup_step(parts: Seq<Seq<char>>, i: int)
    requires
        0 <= i < parts.len(),
    ensures
        dedup(parts.take(i + 1)) == if i > 0 && parts[i - 1] == parts[i] {
            dedup(parts.take(i))
        } else {
            dedup(parts.take(i)).push(parts[i])
        },
{
    let upto = parts.take(i + 1);
    assert(upto.drop_last() == parts.take(i));
    assert(upto.last() == parts[i]);
    if i > 0 {
        assert(upto[upto.len() - 2] == parts[i - 1]);
    } else {
        assert(dedup(parts.take(0)) =~= Seq::<Seq<char>>::empty());
        assert(dedup(upto) =~= Seq::<Seq<char>>::empty().push(parts[0]));
    }
}

/// The requests for the animals to compare, one for each of the ids.
pub fn compare_animals(settings: &Settings, animal_ids: Vec<String>) -> (r: Vec<UpstreamRequest>)
    ensures
        r@.len() == compared_ids(texts(animal_ids@)).len(),
        forall|i: int|
            0 <= i < r@.len() ==> (#[trigger] r@[i])@ == get_request(
                settings.base_url@,
                "/public/animals/"@ + compared_ids(texts(animal_ids@))[i],
            ),
{
    let sorted = sort_strings(animal_ids);
    let ghost all = texts(sorted@);
    let mut unique: Vec<String> = Vec::new();
    let mut i: usize = 0;
    assert(dedup(all.take(0)) =~= texts(unique@));
    while i < sorted.len()
        invariant
            i <= sorted.len(),
            all == texts(sorted@),
            texts(unique@) == dedup(all.take(i as int)),
        decreases sorted.len() - i,
    {
        proof {
            lemma_dedup_step(all, i as int);
        }
        let ghost before = texts(unique@);
        let repeats = i > 0 && sorted[i - 1].as_str().eq(sorted[i].as_str());
        if !repeats {
            unique.push(sorted[i].clone());
            assert(texts(unique@) =~= before.push(all[i as int]));
        }
        i = i + 1;
    }
    assert(all.take(sorted.len() as int) == all);
    let count = if unique.len() <= COMPARED {
        unique.len()
    } else {
        COMPARED
    };
    let ghost ids = compared_ids(texts(animal_ids@));
    assert(ids.len() == count);
    let mut requests: Vec<UpstreamRequest> = Vec::new();
    let mut k: usize = 0;
    while k < count
        invariant
            k <= count,
            count <= unique.len(),
            ids.len() == count,
            forall|j: int| 0 <= j < count ==> ids[j] == #[trigger] unique@[j]@,
            requests@.len() == k,
            forall|j: int|
                0 <= j < k ==> (#[trigger] requests@[j])@ == get_request(
                    settings.base_url@,
                    "/public/animals/"@ + ids[j],
                ),
        decreases count - k,
    {
        let request = get_animal_details(settings, unique[k].as_str());
        requests.push(request);
        k = k + 1;
    }
    requests
}

/// How one of the calls of a comparison ended: with the answer, or with the
/// text of what went wrong.
pub open spec fn outcome_view(outcome: Result<Json, String>) -> Result<JsonView, Seq<char>> {
    match outcome {
        Ok(v) => Ok(v@),
        Err(m) => Err(m@),
    }
}

/// The animals that the answers hold, in the order of the answers. An
/// answer without an animal gives none.
pub open spec fn compared_animals(outcomes: Seq<Result<JsonView, Seq<char>>>) -> Seq<JsonView>
    decreases outcomes.len(),
{
    if outcomes.len() == 0 {
        Seq::empty()
    } else {
        let rest = compared_animals(outcomes.drop_last());
        match outcomes.last() {
            Ok(answer) => match answer.get("data"@) {
                Some(data) => match single_item(data) {
                    Some(animal) => rest.push(animal),
                    None => rest,
                },
                None => rest,
            },
            Err(_) => rest,
        }
    }
}

/// The texts of the calls that failed, in the order of the answers.
pub open spec fn compared_errors(outcomes: Seq<Result<JsonView, Seq<char>>>) -> Seq<JsonView>
    decreases outcomes.len(),
{
    if outcomes.len() == 0 {
        Seq::empty()
    } else {
        let rest = compared_errors(outcomes.drop_last());
        match outcomes.last() {
            Ok(_) => rest,
            Err(message) => rest.push(JsonView::Str(message)),
        }
    }
}

/// Gathers the answers of the calls of a comparison into
/// `{"data": [animals], "errors": [texts]}`.
pub fn compare_results(outcomes: &Vec<Result<Json, String>>) -> (r: Json)
    ensures
        r@ == JsonView::empty_object().with(
            "data"@,
            JsonView::Array(
                compared_animals(outcomes@.map_values(|o: Result<Json, String>| outcome_view(o))),
            ),
        ).with(
            "errors"@,
            JsonView::Array(
                compared_errors(outcomes@.map_values(|o: Result<Json, String>| outcome_view(o))),
            ),
        ),
{
    let ghost all = outcomes@.map_values(|o: Result<Json, String>| outcome_view(o));
    let mut animals: Vec<Json> = Vec::new();
    let mut errors: Vec<Json> = Vec::new();
    let mut i: usize = 0;
    assert(all.take(0) == Seq::<Result<JsonView, Seq<char>>>::empty());
    assert(items_view(animals@) =~= Seq::<JsonView>::empty());
    assert(items_view(errors@) =~= Seq::<JsonView>::empty());
    while i < outcomes.len()
        invariant
            i <= outcomes.len(),
            all == outcomes@.map_values(|o: Result<Json, String>| outcome_view(o)),
            items_view(animals@) == compared_animals(all.take(i as int)),
            items_view(errors@) == compared_errors(all.take(i as int)),
        decreases outcomes.len() - i,
    {
        let ghost next = all.take(i + 1);
        assert(next.drop_last() == all.take(i as int));
        assert(next.last() == outcome_view(outcomes@[i as int]));
        match &outcomes[i] {
            Ok(answer) => {
                let found = match answer.get("data") {
                    Some(data) => extract_single_item(data),
                    None => None,
                };
                match found {
                    Some(animal) => {
                        let copy = animal.clone();
                        proof {
                            lemma_items_push(animals@, copy);
                        }
                        animals.push(copy);
                    },
                    None => {},
                }
            },
            Err(message) => {
                let item = Json::string(message.as_str());
                proof {
                    lemma_items_push(errors@, item);
                }
                errors.push(item);
            },
        }
        i = i + 1;
    }
    assert(all.take(outcomes.len() as int) == all);
    Json::object().with("data", Json::array(animals)).with("errors", Json::array(errors))
}

/// The signature of a call, under which its answer is cached: the method,
/// the URL and the compact text of the body, with colons between them.
pub open spec fn key_text(request: UpstreamRequestView) -> Seq<char> {
    request.method + ":"@ + request.url + ":"@ + (match request.body {
        Some(body) => json_text(body),
        None => Seq::empty(),
    })
}

/// The signature of a call, under which its answer is cached.
pub fn cache_key(request: &UpstreamRequest) -> (r: String)
    ensures
        r@ == key_text(request@),
{
    let body = match &request.body {
        Some(body) => body.render(),
        None => String::new(),
    };
    let mut key = request.method.clone();
    key.append(":");
    key.append(request.url.as_str());
    key.append(":");
    key.append(body.as_str());
    key
}

/// What the upstream API's answer means: the JSON document of a success,
/// `NotFound` for status 404, and an API error for any other status that is
/// no success. A success whose body is no JSON document is a network error.
pub open spec fn response_outcome(
    status: u16,
    status_text: Seq<char>,
    parsed: Option<JsonView>,
) -> Result<JsonView, AppErrorView> {
    if 200 <= status <= 299 {
        match parsed {
            Some(value) => Ok(value),
            None => Err(AppErrorView::Network("error decoding response body"@)),
        }
    } else if status == 404 {
        Err(AppErrorView::NotFound)
    } else {
        Err(AppErrorView::ApiError("API Error: "@ + status_text))
    }
}

/// The view of the outcome of a call.
pub open spec fn result_view(result: Result<Json, AppError>) -> Result<JsonView, AppErrorView> {
    match result {
        Ok(v) => Ok(v@),
        Err(e) => Err(e@),
    }
}

/// Says what the upstream API's answer means. `status_text` is the status
/// as shown to people, such as `500 Internal Server Error`; `parsed` is
/// the JSON document that the body holds, if it holds one.
pub fn classify_response(status: u16, status_text: &str, parsed: Option<Json>) -> (r: Result<
    Json,
    AppError,
>)
    ensures
        result_view(r) == response_outcome(
            status,
            status_text@,
            match parsed {
                Some(v) => Some(v@),
                None => None,
            },
        ),
{
    if 200 <= status && status <= 299 {
        match parsed {
            Some(value) => Ok(value),
            None => Err(AppError::Network(String::from_str("error decoding response body"))),
        }
    } else if status == 404 {
        Err(AppError::NotFound)
    } else {
        let mut message = String::from_str("API Error: ");
        message.append(status_text);
        Err(AppError::ApiError(message))
    }
}

/// Where a call through the gateway stands.
#[derive(Clone, Copy, Debug, PartialEq, Eq, Structural)]
pub enum Stage {
    /// The cache is being asked for the answer.
    Lookup,
    /// The rate limiter is being waited for.
    Slot,
    /// The request is on the network.
    Network,
    /// The call has ended.
    Done,
}

/// What happened outside while a call through the gateway was waiting.
#[derive(Debug)]
pub enum FetchEvent {
    /// The cache holds the answer.
    CacheHit(Json),
    /// The cache holds no answer that is still valid.
    CacheMiss,
    /// The rate limiter lets one request pass.
    SlotGranted,
    /// The upstream API answered.
    Response { status: u16, status_text: String, body: String },
    /// No answer came: the connection failed or the time ran out.
    Failed(String),
}

/// What a `FetchEvent` stands for in contracts: its texts are sequences of
/// characters, its JSON documents their values.
pub enum FetchEventView {
    CacheHit(JsonView),
    CacheMiss,
    SlotGranted,
    Response { status: u16, status_text: Seq<char>, parsed: Option<JsonView> },
    Failed(Seq<char>),
}

impl View for FetchEvent {
    type V = FetchEventView;

    open spec fn view(&self) -> FetchEventView {
        match *self {
            FetchEvent::CacheHit(v) => FetchEventView::CacheHit(v@),
            FetchEvent::CacheMiss => FetchEventView::CacheMiss,
            FetchEvent::SlotGranted => FetchEventView::SlotGranted,
            FetchEvent::Response { status, status_text, body } => FetchEventView::Response {
                status,
                status_text: status_text@,
                parsed: json_parse(body@),
            },
            FetchEvent::Failed(m) => FetchEventView::Failed(m@),
        }
    }
}

/// What the caller of the gateway has to do next.
#[derive(Debug)]
pub enum FetchAction {
    /// Wait until the rate limiter lets a request pass.
    WaitForSlot,
    /// Send the request.
    Send,
    /// Hand `result` to whoever asked; if `store` is set, first put its
    /// document into the cache under the key of the call.
    Finish { result: Result<Json, AppError>, store: bool },
}

/// What a `FetchAction` stands for in contracts: its texts are sequences of
/// characters, its JSON documents their values.
pub enum FetchActionView {
    WaitForSlot,
    Send,
    Finish { result: Result<JsonView, AppErrorView>, store: bool },
}

impl View for FetchAction {
    type V = FetchActionView;

    open spec fn view(&self) -> FetchActionView {
        match *self {
            FetchAction::WaitForSlot => FetchActionView::WaitForSlot,
            FetchAction::Send => FetchActionView::Send,
            FetchAction::Finish { result, store } => FetchActionView::Finish {
                result: result_view(result),
                store,
            },
        }
    }
}

/// What is due when `event` happens at `stage`. An answer of the cache ends
/// the call at once. Without one the rate limiter is waited for, then the
/// request is sent, and a document that came back with a success is stored.
/// An event that the stage does not wait for ends the call with an internal
/// error.
pub open spec fn action_of(stage: Stage, event: FetchEventView) -> FetchActionView {
    match (stage, event) {
        (Stage::Lookup, FetchEventView::CacheHit(value)) => FetchActionView::Finish {
            result: Ok(value),
            store: false,
        },
        (Stage::Lookup, FetchEventView::CacheMiss) => FetchActionView::WaitForSlot,
        (Stage::Slot, FetchEventView::SlotGranted) => FetchActionView::Send,
        (
            Stage::Network,
            FetchEventView::Response { status, status_text, parsed },
        ) => FetchActionView::Finish {
            result: response_outcome(status, status_text, parsed),
            store: response_outcome(status, status_text, parsed) is Ok,
        },
        (Stage::Network, FetchEventView::Failed(message)) => FetchActionView::Finish {
            result: Err(AppErrorView::Network(message)),
            store: false,
        },
        _ => FetchActionView::Finish {
            result: Err(AppErrorView::Internal("unexpected gateway event"@)),
            store: false,
        },
    }
}

/// The stage that follows an action.
pub open spec fn stage_after(action: FetchActionView) -> Stage {
    match action {
        FetchActionView::WaitForSlot => Stage::Slot,
        FetchActionView::Send => Stage::Network,
        FetchActionView::Finish { .. } => Stage::Done,
    }
}

/// One call through the gateway: the request, the key of its answer in the
/// cache, and how far the call has come.
#[derive(Debug)]
pub struct Fetch {
    pub request: UpstreamRequest,
    pub key: String,
    pub stage: Stage,
}

/// Begins a call through the gateway. The caller asks the cache for the
/// answer under `key` first, and reports what it found to `on_event`.
pub fn fetch_with_cache(request: UpstreamRequest) -> (r: Fetch)
    ensures
        r.request@ == request@,
        r.key@ == key_text(request@),
        r.stage == Stage::Lookup,
{
    let key = cache_key(&request);
    Fetch { request, key, stage: Stage::Lookup }
}

impl Fetch {
    /// Takes what happened outside and says what is due next.
    pub fn on_event(&mut self, event: FetchEvent) -> (r: FetchAction)
        ensures
            r@ == action_of(old(self).stage, event@),
            final(self).stage == stage_after(r@),
            final(self).request == old(self).request,
            final(self).key == old(self).key,
    {
        let action = match (self.stage, event) {
            (Stage::Lookup, FetchEvent::CacheHit(value)) => FetchAction::Finish {
                result: Ok(value),
                store: false,
            },
            (Stage::Lookup, FetchEvent::CacheMiss) => FetchAction::WaitForSlot,
            (Stage::Slot, FetchEvent::SlotGranted) => FetchAction::Send,
            (Stage::Network, FetchEvent::Response { status, status_text, body }) => {
                let parsed = Json::parse(body.as_str());
                let result = classify_response(status, status_text.as_str(), parsed);
                let store = result.is_ok();
                FetchAction::Finish { result, store }
            },
            (Stage::Network, FetchEvent::Failed(message)) => FetchAction::Finish {
                result: Err(AppError::Network(message)),
                store: false,
            },
            _ => FetchAction::Finish {
                result: Err(AppError::Internal(String::from_str("unexpected gateway event"))),
                store: false,
            },
        };
        self.stage = match &action {
            FetchAction::WaitForSlot => Stage::Slot,
            FetchAction::Send => Stage::Network,
            FetchAction::Finish { .. } => Stage::Done,
        };
        action
    }
}

/// The headers that every request to the upstream API carries: the API key
/// as `Authorization`, and the content type of the API.
pub fn request_headers(settings: &Settings) -> (r: Vec<(String, String)>)
    ensures
        r@.len() == 2,
        r@[0].0@ == "Authorization"@,
        r@[0].1@ == settings.api_key@,
        r@[1].0@ == "Content-Type"@,
        r@[1].1@ == "application/vnd.api+json"@,
{
    let mut headers: Vec<(String, String)> = Vec::new();
    headers.push((String::from_str("Authorization"), settings.api_key.clone()));
    headers.push((String::from_str("Content-Type"), String::from_str("application/vnd.api+json")));
    headers
}

} // verus!
