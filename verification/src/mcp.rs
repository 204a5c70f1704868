//! The dispatcher: from a JSON-RPC request to its answer, or to the calls
//! of the upstream API that the answer needs.
//!
//! A request is answered at once where that takes no call to the upstream
//! API. Where it does, the dispatcher hands out a plan: the request to make
//! and what to do with the answer. The caller makes the request and hands
//! the answer to the function that finishes the plan.

use vstd::prelude::*;
use vstd::string::*;
use crate::cli::{
    field,
    opt_text,
    required_text,
    AdoptedAnimalsArgs,
    AdoptedAnimalsArgsView,
    AnimalIdArgs,
    BreedIdArgs,
    CompareArgs,
    MetadataArgs,
    MetadataArgsView,
    OrgIdArgs,
    OrgSearchArgs,
    OrgSearchArgsView,
    SpeciesArgs,
    ToolArgs,
    ToolArgsView,
};
use crate::client::{
    all_numeric,
    compare_animals,
    compare_results,
    compared_animals,
    compared_errors,
    compared_ids,
    fetch_adopted_pets,
    fetch_pets,
    get_animal_details,
    get_breed_details,
    get_contact_info,
    get_organization_details,
    get_random_pet,
    get_request,
    is_species_id,
    list_animals,
    list_breeds,
    list_metadata,
    list_metadata_types,
    list_org_animals,
    list_species,
    metadata_path,
    metadata_types,
    or_miles,
    or_text,
    org_search_body,
    outcome_view,
    pets_request,
    post_request,
    random_pet_args,
    resolve_species_id,
    result_view,
    search_body,
    search_organizations,
    species_id,
    UpstreamRequest,
    UpstreamRequestView,
};
use crate::config::{Settings, SettingsView};
use crate::error::{error_object, make_error_object, AppError, AppErrorView};
use crate::fmt::{
    animal_results_text,
    breed_details_text,
    breed_results_text,
    comparison_table_text,
    contact_info_text,
    extract_single_item,
    format_animal_results,
    format_breed_details,
    format_breed_results,
    format_comparison_table,
    format_contact_info,
    format_metadata_results,
    format_org_results,
    format_single_animal,
    format_single_org,
    format_species_results,
    metadata_results_text,
    org_results_text,
    single_animal_text,
    single_item,
    single_org_text,
    species_results_text,
};
use crate::json::{
    items_view,
    json_pretty_text,
    lemma_items_push,
    lemma_items_view,
    Json,
    JsonView,
};
use crate::text::{join, join_strings, texts};
use crate::tools::{all_tools, find_tool, first_named, list_tools, listed_tools, summary, tool_summary};

verus! {

/// The view of a JSON value that may be absent.
pub open spec fn opt_json(value: Option<Json>) -> Option<JsonView> {
    match value {
        Some(v) => Some(v@),
        None => None,
    }
}

/// One JSON-RPC request. A request without an `id` is a notification: it is
/// never answered.
#[derive(Debug)]
pub struct JsonRpcRequest {
    pub _jsonrpc: String,
    pub id: Option<Json>,
    pub method: String,
    pub params: Option<Json>,
}

/// What a `JsonRpcRequest` stands for in contracts: its texts are sequences of
/// characters, its JSON documents their values.
pub struct JsonRpcRequestView {
    pub jsonrpc: Seq<char>,
    pub id: Option<JsonView>,
    pub method: Seq<char>,
    pub params: Option<JsonView>,
}

impl View for JsonRpcRequest {
    type V = JsonRpcRequestView;

    open spec fn view(&self) -> JsonRpcRequestView {
        JsonRpcRequestView {
            jsonrpc: self._jsonrpc@,
            id: opt_json(self.id),
            method: self.method@,
            params: opt_json(self.params),
        }
    }
}

/// A value that may be absent: absent where the record lacks it or holds
/// `null` there. `None` where the record has not the shape of a record.
pub open spec fn optional_value(slot: Option<Option<JsonView>>) -> Option<Option<JsonView>> {
    match slot {
        Some(None) | Some(Some(JsonView::Null)) => Some(None),
        Some(Some(v)) => Some(Some(v)),
        None => None,
    }
}

impl JsonRpcRequestView {
    /// The request that a JSON document holds, if it holds one: an object
    /// with the texts `jsonrpc` and `method`, or an array of the four fields
    /// in their order.
    pub open spec fn decode(value: JsonView) -> Option<JsonRpcRequestView> {
        let jsonrpc = required_text(field(value, 0, "jsonrpc"@, 4));
        let id = optional_value(field(value, 1, "id"@, 4));
        let method = required_text(field(value, 2, "method"@, 4));
        let params = optional_value(field(value, 3, "params"@, 4));
        if jsonrpc is Some && id is Some && method is Some && params is Some {
            Some(
                JsonRpcRequestView {
                    jsonrpc: jsonrpc->0,
                    id: id->0,
                    method: method->0,
                    params: params->0,
                },
            )
        } else {
            None
        }
    }
}

fn read_text(value: &Json, index: usize, name: &str) -> (r: Option<String>)
    requires
        index < 4,
    ensures
        opt_text(r) == required_text(field(value@, index as int, name@, 4)),
{
    match value {
        Json::Object(_) => match value.get(name) {
            Some(Json::Str(s)) => Some(s.clone()),
            _ => None,
        },
        Json::Array(items) => {
            proof {
                lemma_items_view(items@);
            }
            if items.len() == 4 {
                match &items[index] {
                    Json::Str(s) => Some(s.clone()),
                    _ => None,
                }
            } else {
                None
            }
        },
        _ => None,
    }
}

fn read_value(value: &Json, index: usize, name: &str) -> (r: Option<Option<Json>>)
    requires
        index < 4,
    ensures
        match r {
            Some(v) => optional_value(field(value@, index as int, name@, 4)) == Some(opt_json(v)),
            None => optional_value(field(value@, index as int, name@, 4)) is None,
        },
{
    match value {
        Json::Object(_) => match value.get(name) {
            Some(found) => if found.is_null() {
                Some(None)
            } else {
                Some(Some(found.clone()))
            },
            None => Some(None),
        },
        Json::Array(items) => {
            proof {
                lemma_items_view(items@);
            }
            if items.len() == 4 {
                if items[index].is_null() {
                    Some(None)
                } else {
                    Some(Some(items[index].clone()))
                }
            } else {
                None
            }
        },
        _ => None,
    }
}

impl JsonRpcRequest {
    /// Reads a request from a JSON document.
    pub fn from_json(value: &Json) -> (r: Option<JsonRpcRequest>)
        ensures
            match r {
                Some(request) => JsonRpcRequestView::decode(value@) == Some(request@),
                None => JsonRpcRequestView::decode(value@) is None,
            },
    {
        let jsonrpc = read_text(value, 0, "jsonrpc")?;
        let id = read_value(value, 1, "id")?;
        let method = read_text(value, 2, "method")?;
        let params = read_value(value, 3, "params")?;
        Some(JsonRpcRequest { _jsonrpc: jsonrpc, id, method, params })
    }
}

/// What is done with the answer to a request to the upstream API.
#[derive(Debug)]
pub enum Formatter {
    AnimalResults,
    SpeciesResults,
    /// The list of the values of the given kind of metadata.
    MetadataResults(String),
    /// The list of the breeds of the species of the given name.
    BreedResults(String),
    BreedDetails,
    SingleAnimal,
    ContactInfo,
    OrgResults,
    SingleOrg,
}

/// What a `Formatter` stands for in contracts: its texts are sequences of
/// characters, its JSON documents their values.
pub enum FormatterView {
    AnimalResults,
    SpeciesResults,
    MetadataResults(Seq<char>),
    BreedResults(Seq<char>),
    BreedDetails,
    SingleAnimal,
    ContactInfo,
    OrgResults,
    SingleOrg,
}

impl View for Formatter {
    type V = FormatterView;

    open spec fn view(&self) -> FormatterView {
        match *self {
            Formatter::AnimalResults => FormatterView::AnimalResults,
            Formatter::SpeciesResults => FormatterView::SpeciesResults,
            Formatter::MetadataResults(t) => FormatterView::MetadataResults(t@),
            Formatter::BreedResults(s) => FormatterView::BreedResults(s@),
            Formatter::BreedDetails => FormatterView::BreedDetails,
            Formatter::SingleAnimal => FormatterView::SingleAnimal,
            Formatter::ContactInfo => FormatterView::ContactInfo,
            Formatter::OrgResults => FormatterView::OrgResults,
            Formatter::SingleOrg => FormatterView::SingleOrg,
        }
    }
}

/// What the id of a species is needed for.
#[derive(Debug)]
pub enum SpeciesUse {
    /// The breeds of the species.
    Breeds,
    /// The values of the given kind of metadata for the species.
    Metadata(String),
}

/// What a `SpeciesUse` stands for in contracts: its texts are sequences of
/// characters, its JSON documents their values.
pub enum SpeciesUseView {
    Breeds,
    Metadata(Seq<char>),
}

impl View for SpeciesUse {
    type V = SpeciesUseView;

    open spec fn view(&self) -> SpeciesUseView {
        match *self {
            SpeciesUse::Breeds => SpeciesUseView::Breeds,
            SpeciesUse::Metadata(t) => SpeciesUseView::Metadata(t@),
        }
    }
}

/// What a call of a tool takes.
#[derive(Debug)]
pub enum ToolPlan {
    /// Nothing more: this is the outcome.
    Done(Result<Json, AppError>),
    /// One request; `finish_fetch` makes the outcome of its answer.
    Fetch { request: UpstreamRequest, formatter: Formatter },
    /// The list of species first, to find the id of `species` in it;
    /// `continue_with_species` makes the next plan of its answer.
    Resolve { lookup: UpstreamRequest, species: String, then: SpeciesUse },
    /// Several requests, in any order; `finish_compare` makes the outcome
    /// of their answers.
    Compare { requests: Vec<UpstreamRequest> },
}

/// What a `ToolPlan` stands for in contracts: its texts are sequences of
/// characters, its JSON documents their values.
pub enum ToolPlanView {
    Done(Result<JsonView, AppErrorView>),
    Fetch { request: UpstreamRequestView, formatter: FormatterView },
    Resolve { lookup: UpstreamRequestView, species: Seq<char>, then: SpeciesUseView },
    Compare { requests: Seq<UpstreamRequestView> },
}

impl View for ToolPlan {
    type V = ToolPlanView;

    open spec fn view(&self) -> ToolPlanView {
        match *self {
            ToolPlan::Done(result) => ToolPlanView::Done(result_view(result)),
            ToolPlan::Fetch { request, formatter } => ToolPlanView::Fetch {
                request: request@,
                formatter: formatter@,
            },
            ToolPlan::Resolve { lookup, species, then } => ToolPlanView::Resolve {
                lookup: lookup@,
                species: species@,
                then: then@,
            },
            ToolPlan::Compare { requests } => ToolPlanView::Compare {
                requests: requests@.map_values(|r: UpstreamRequest| r@),
            },
        }
    }
}

/// The result of a tool: `{"content": [{"type": "text", "text": text}]}`.
pub open spec fn text_content(text: Seq<char>) -> JsonView {
    JsonView::empty_object().with(
        "content"@,
        JsonView::Array(
            seq![
                JsonView::empty_object().with("type"@, JsonView::Str("text"@)).with(
                    "text"@,
                    JsonView::Str(text),
                ),
            ],
        ),
    )
}

/// Wraps a text as the result of a tool.
pub fn make_text_content(text: &str) -> (r: Json)
    ensures
        r@ == text_content(text@),
{
    let part = Json::object().with("type", Json::string("text")).with("text", Json::string(text));
    let mut parts: Vec<Json> = Vec::new();
    proof {
        lemma_items_view(parts@);
        lemma_items_push(parts@, part);
    }
    parts.push(part);
    assert(items_view(parts@) =~= seq![part@]);
    Json::object().with("content", Json::array(parts))
}

/// The result of a tool whose text exists, and `NotFound` where it does
/// not.
pub open spec fn content_or_not_found(text: Option<Seq<char>>) -> Result<JsonView, AppErrorView> {
    match text {
        Some(t) => Ok(text_content(t)),
        None => Err(AppErrorView::NotFound),
    }
}

/// The item under `data` that an answer is about.
pub open spec fn answer_item(data: JsonView) -> Option<JsonView> {
    match data.get("data"@) {
        Some(found) => single_item(found),
        None => None,
    }
}

/// The result that a formatter makes of an answer.
pub open spec fn formatted(formatter: FormatterView, data: JsonView) -> Result<
    JsonView,
    AppErrorView,
> {
    match formatter {
        FormatterView::AnimalResults => content_or_not_found(animal_results_text(data)),
        FormatterView::SpeciesResults => content_or_not_found(species_results_text(data)),
        FormatterView::MetadataResults(kind) => content_or_not_found(
            metadata_results_text(data, kind),
        ),
        FormatterView::BreedResults(species) => content_or_not_found(
            breed_results_text(data, species),
        ),
        FormatterView::BreedDetails => match answer_item(data) {
            Some(breed) => Ok(text_content(breed_details_text(breed))),
            None => Err(AppErrorView::NotFound),
        },
        FormatterView::SingleAnimal => match answer_item(data) {
            Some(animal) => Ok(text_content(single_animal_text(animal))),
            None => Err(AppErrorView::NotFound),
        },
        FormatterView::ContactInfo => content_or_not_found(contact_info_text(data)),
        FormatterView::OrgResults => content_or_not_found(org_results_text(data)),
        FormatterView::SingleOrg => match answer_item(data) {
            Some(org) => Ok(text_content(single_org_text(org))),
            None => Err(AppErrorView::NotFound),
        },
    }
}

/// The outcome of a plan with one request: the failure of the request, or
/// what the formatter makes of its answer.
pub open spec fn finished(
    formatter: FormatterView,
    fetched: Result<JsonView, AppErrorView>,
) -> Result<JsonView, AppErrorView> {
    match fetched {
        Ok(data) => formatted(formatter, data),
        Err(e) => Err(e),
    }
}

fn wrap(text: Result<String, AppError>) -> (r: Result<Json, AppError>)
    ensures
        match text {
            Ok(t) => result_view(r) == Ok::<JsonView, AppErrorView>(text_content(t@)),
            Err(e) => result_view(r) == Err::<JsonView, AppErrorView>(e@),
        },
{
    match text {
        Ok(t) => Ok(make_text_content(t.as_str())),
        Err(e) => Err(e),
    }
}

fn item_of(data: &Json) -> (r: Option<&Json>)
    ensures
        match r {
            Some(item) => answer_item(data@) == Some(item@),
            None => answer_item(data@) is None,
        },
{
    match data.get("data") {
        Some(found) => extract_single_item(found),
        None => None,
    }
}

/// Makes the outcome of a plan with one request of the answer to the
/// request.
pub fn finish_fetch(formatter: &Formatter, fetched: Result<Json, AppError>) -> (r: Result<
    Json,
    AppError,
>)
    ensures
        result_view(r) == finished(formatter@, result_view(fetched)),
{
    let data = match fetched {
        Ok(data) => data,
        Err(e) => {
            return Err(e);
        },
    };
    match formatter {
        Formatter::AnimalResults => wrap(format_animal_results(&data)),
        Formatter::SpeciesResults => wrap(format_species_results(&data)),
        Formatter::MetadataResults(kind) => wrap(format_metadata_results(&data, kind.as_str())),
        Formatter::BreedResults(species) => wrap(format_breed_results(&data, species.as_str())),
        Formatter::BreedDetails => match item_of(&data) {
            Some(breed) => {
                let text = format_breed_details(breed);
                Ok(make_text_content(text.as_str()))
            },
            None => Err(AppError::NotFound),
        },
        Formatter::SingleAnimal => match item_of(&data) {
            Some(animal) => {
                let text = format_single_animal(animal);
                Ok(make_text_content(text.as_str()))
            },
            None => Err(AppError::NotFound),
        },
        Formatter::ContactInfo => wrap(format_contact_info(&data)),
        Formatter::OrgResults => wrap(format_org_results(&data)),
        Formatter::SingleOrg => match item_of(&data) {
            Some(org) => {
                let text = format_single_org(org);
                Ok(make_text_content(text.as_str()))
            },
            None => Err(AppError::NotFound),
        },
    }
}

/// The plan that follows the answer to the species list: the failure of the
/// request or of the search for the id, or the request that needed the id.
pub open spec fn species_plan(
    base: Seq<char>,
    species: Seq<char>,
    then: SpeciesUseView,
    species_list: Result<JsonView, AppErrorView>,
) -> ToolPlanView {
    match species_list {
        Ok(list) => match species_id(species, list) {
            Ok(id) => match then {
                SpeciesUseView::Breeds => ToolPlanView::Fetch {
                    request: get_request(base, "/public/animals/species/"@ + id + "/breeds"@),
                    formatter: FormatterView::BreedResults(species),
                },
                SpeciesUseView::Metadata(kind) => ToolPlanView::Fetch {
                    request: get_request(base, metadata_path(kind, Some(id))),
                    formatter: FormatterView::MetadataResults(kind),
                },
            },
            Err(e) => ToolPlanView::Done(Err(e)),
        },
        Err(e) => ToolPlanView::Done(Err(e)),
    }
}

/// Makes the next plan of the answer to the species list.
pub fn continue_with_species(
    settings: &Settings,
    species: &str,
    then: &SpeciesUse,
    species_list: Result<Json, AppError>,
) -> (r: ToolPlan)
    ensures
        r@ == species_plan(settings.base_url@, species@, then@, result_view(species_list)),
{
    let list = match species_list {
        Ok(list) => list,
        Err(e) => {
            return ToolPlan::Done(Err(e));
        },
    };
    let id = match resolve_species_id(species, &list) {
        Ok(id) => id,
        Err(e) => {
            return ToolPlan::Done(Err(e));
        },
    };
    match then {
        SpeciesUse::Breeds => ToolPlan::Fetch {
            request: list_breeds(settings, id.as_str()),
            formatter: Formatter::BreedResults(String::from_str(species)),
        },
        SpeciesUse::Metadata(kind) => ToolPlan::Fetch {
            request: list_metadata(settings, kind.as_str(), Some(id.as_str())),
            formatter: Formatter::MetadataResults(kind.clone()),
        },
    }
}

/// The outcome of a comparison: the table of the animals that the answers
/// hold.
pub open spec fn compared(outcomes: Seq<Result<JsonView, Seq<char>>>) -> Result<
    JsonView,
    AppErrorView,
> {
    content_or_not_found(
        comparison_table_text(
            JsonView::empty_object().with(
                "data"@,
                JsonView::Array(compared_animals(outcomes)),
            ).with("errors"@, JsonView::Array(compared_errors(outcomes))),
        ),
    )
}

/// Makes the outcome of a comparison of the answers to its requests, in the
/// order in which they came in. A request that failed is in the list with
/// the text of its failure.
pub fn finish_compare(outcomes: &Vec<Result<Json, String>>) -> (r: Result<Json, AppError>)
    ensures
        result_view(r) == compared(
            outcomes@.map_values(|o: Result<Json, String>| outcome_view(o)),
        ),
{
    let data = compare_results(outcomes);
    wrap(format_comparison_table(&data))
}

/// The arguments of a call: what its parameters hold under `arguments`.
pub open spec fn arguments_of(params: Option<JsonView>) -> JsonView {
    match params {
        Some(p) => p.at("arguments"@),
        None => JsonView::Null,
    }
}

/// The plan with one request.
pub open spec fn fetch(request: UpstreamRequestView, formatter: FormatterView) -> ToolPlanView {
    ToolPlanView::Fetch { request, formatter }
}

/// The text, and `default` where there is none.
pub open spec fn text_or_zero(id: Option<Seq<char>>) -> Seq<char> {
    match id {
        Some(v) => v,
        None => "0"@,
    }
}

/// The heading and the lines of the kinds of metadata.
pub open spec fn metadata_types_text() -> Seq<char> {
    "### Supported Metadata Types\n\n"@ + join(
        metadata_types().map_values(|t: JsonView| t.str_or(""@)),
        "\n"@,
    )
}

/// The plan for the metadata of a kind: for all animals, for the species
/// whose id is given, or, where a name is given, after the search for the
/// id.
pub open spec fn metadata_plan(base: Seq<char>, args: MetadataArgsView) -> ToolPlanView {
    match args.species {
        Some(species) => if all_numeric(species) {
            fetch(
                get_request(base, metadata_path(args.metadata_type, Some(species))),
                FormatterView::MetadataResults(args.metadata_type),
            )
        } else {
            ToolPlanView::Resolve {
                lookup: get_request(base, "/public/animals/species"@),
                species,
                then: SpeciesUseView::Metadata(args.metadata_type),
            }
        },
        None => fetch(
            get_request(base, metadata_path(args.metadata_type, None)),
            FormatterView::MetadataResults(args.metadata_type),
        ),
    }
}

/// The plan for the breeds of a species: at once where its id is given,
/// and else after the search for the id.
pub open spec fn breeds_plan(base: Seq<char>, species: Seq<char>) -> ToolPlanView {
    if all_numeric(species) {
        fetch(
            get_request(base, "/public/animals/species/"@ + species + "/breeds"@),
            FormatterView::BreedResults(species),
        )
    } else {
        ToolPlanView::Resolve {
            lookup: get_request(base, "/public/animals/species"@),
            species,
            then: SpeciesUseView::Breeds,
        }
    }
}

/// What `inspect_tool` answers: the descriptor of the tool that is asked
/// for, in indented text, or the summary of all tools where none is asked
/// for. A tool that does not exist is not found.
pub open spec fn inspection(arguments: JsonView) -> Result<JsonView, AppErrorView> {
    match arguments.at("tool_name"@) {
        JsonView::Str(name) => match first_named(all_tools(), name) {
            Some(tool) => Ok(text_content(json_pretty_text(tool))),
            None => Err(AppErrorView::NotFound),
        },
        _ => Ok(text_content(summary())),
    }
}

/// The text of a string value that may be given.
pub open spec fn given_text(value: JsonView) -> Option<Seq<char>> {
    match value {
        JsonView::Str(s) => Some(s),
        _ => None,
    }
}

/// What the call of the tool `name` with `params` takes. Arguments that
/// cannot be read as the tool's record count as not given: the tool then
/// runs on its defaults. A name that is no tool's is not found.
pub open spec fn tool_plan(name: Seq<char>, params: Option<JsonView>, settings: SettingsView) -> ToolPlanView {
    let base = settings.base_url;
    let arguments = arguments_of(params);
    if name == "list_animals"@ {
        fetch(get_request(base, "/public/animals"@), FormatterView::AnimalResults)
    } else if name == "list_species"@ {
        fetch(get_request(base, "/public/animals/species"@), FormatterView::SpeciesResults)
    } else if name == "list_metadata"@ {
        metadata_plan(
            base,
            match MetadataArgsView::decode(arguments) {
                Some(args) => args,
                None => MetadataArgsView { metadata_type: "colors"@, species: None },
            },
        )
    } else if name == "list_metadata_types"@ {
        ToolPlanView::Done(Ok(text_content(metadata_types_text())))
    } else if name == "list_breeds"@ {
        breeds_plan(
            base,
            match SpeciesArgs::decode(arguments) {
                Some(species) => species,
                None => settings.default_species,
            },
        )
    } else if name == "get_breed"@ {
        fetch(
            get_request(
                base,
                "/public/animals/breeds/"@ + text_or_zero(BreedIdArgs::decode(arguments)),
            ),
            FormatterView::BreedDetails,
        )
    } else if name == "get_animal_details"@ {
        fetch(
            get_request(
                base,
                "/public/animals/"@ + text_or_zero(AnimalIdArgs::decode(arguments)),
            ),
            FormatterView::SingleAnimal,
        )
    } else if name == "get_contact_info"@ {
        fetch(
            get_request(
                base,
                "/public/animals/"@ + text_or_zero(AnimalIdArgs::decode(arguments))
                    + "?include=orgs"@,
            ),
            FormatterView::ContactInfo,
        )
    } else if name == "compare_animals"@ {
        let ids = compared_ids(
            match CompareArgs::decode(arguments) {
                Some(ids) => ids,
                None => Seq::empty(),
            },
        );
        ToolPlanView::Compare {
            requests: Seq::new(ids.len(), |i: int| get_request(base, "/public/animals/"@ + ids[i])),
        }
    } else if name == "search_organizations"@ {
        let args = match OrgSearchArgsView::decode(arguments) {
            Some(args) => args,
            None => OrgSearchArgsView::empty(),
        };
        fetch(
            post_request(
                base,
                "/public/orgs/search"@,
                org_search_body(
                    or_miles(args.miles, settings.default_miles),
                    or_text(args.postal_code, settings.default_postal_code),
                    args.query,
                ),
            ),
            FormatterView::OrgResults,
        )
    } else if name == "get_organization_details"@ {
        fetch(
            get_request(base, "/public/orgs/"@ + text_or_zero(OrgIdArgs::decode(arguments))),
            FormatterView::SingleOrg,
        )
    } else if name == "list_org_animals"@ {
        fetch(
            get_request(
                base,
                "/public/orgs/"@ + text_or_zero(OrgIdArgs::decode(arguments))
                    + "/animals/search/available"@,
            ),
            FormatterView::AnimalResults,
        )
    } else if name == "search_adoptable_pets"@ {
        fetch(
            pets_request(
                base,
                settings.default_species,
                settings.default_postal_code,
                settings.default_miles,
                match ToolArgsView::decode(arguments) {
                    Some(args) => args,
                    None => ToolArgsView::empty(),
                },
            ),
            FormatterView::AnimalResults,
        )
    } else if name == "get_random_pet"@ {
        fetch(
            pets_request(
                base,
                settings.default_species,
                settings.default_postal_code,
                settings.default_miles,
                random_pet_args(given_text(arguments.at("species"@))),
            ),
            FormatterView::AnimalResults,
        )
    } else if name == "list_adopted_animals"@ {
        let args = match AdoptedAnimalsArgsView::decode(arguments) {
            Some(args) => args,
            None => AdoptedAnimalsArgsView::empty(),
        };
        fetch(
            post_request(
                base,
                "/public/animals/search/adopted/"@ + or_text(args.species, settings.default_species)
                    + "/haspic"@,
                search_body(
                    or_miles(args.miles, settings.default_miles),
                    or_text(args.postal_code, settings.default_postal_code),
                    Seq::empty(),
                ),
            ),
            FormatterView::AnimalResults,
        )
    } else if name == "inspect_tool"@ {
        ToolPlanView::Done(inspection(arguments))
    } else {
        ToolPlanView::Done(Err(AppErrorView::NotFound))
    }
}

fn plan_breeds(settings: &Settings, species: String) -> (r: ToolPlan)
    ensures
        r@ == breeds_plan(settings.base_url@, species@),
{
    if is_species_id(species.as_str()) {
        ToolPlan::Fetch {
            request: list_breeds(settings, species.as_str()),
            formatter: Formatter::BreedResults(species),
        }
    } else {
        ToolPlan::Resolve { lookup: list_species(settings), species, then: SpeciesUse::Breeds }
    }
}

fn plan_metadata(settings: &Settings, args: MetadataArgs) -> (r: ToolPlan)
    ensures
        r@ == metadata_plan(settings.base_url@, args@),
{
    match args.species {
        Some(species) => if is_species_id(species.as_str()) {
            ToolPlan::Fetch {
                request: list_metadata(
                    settings,
                    args.metadata_type.as_str(),
                    Some(species.as_str()),
                ),
                formatter: Formatter::MetadataResults(args.metadata_type),
            }
        } else {
            ToolPlan::Resolve {
                lookup: list_species(settings),
                species,
                then: SpeciesUse::Metadata(args.metadata_type),
            }
        },
        None => ToolPlan::Fetch {
            request: list_metadata(settings, args.metadata_type.as_str(), None),
            formatter: Formatter::MetadataResults(args.metadata_type),
        },
    }
}

fn metadata_types_content() -> (r: Json)
    ensures
        r@ == text_content(metadata_types_text()),
{
    let data = list_metadata_types();
    let ghost wanted = metadata_types().map_values(|t: JsonView| t.str_or(""@));
    let mut lines: Vec<String> = Vec::new();
    match data.get("data") {
        Some(found) => match found.as_array() {
            Some(types) => {
                proof {
                    lemma_items_view(types@);
                }
                let mut i: usize = 0;
                while i < types.len()
                    invariant
                        i <= types.len(),
                        items_view(types@) == metadata_types(),
                        items_view(types@).len() == types@.len(),
                        forall|j: int|
                            0 <= j < types@.len() ==> items_view(types@)[j] == types@[j]@,
                        lines@.len() == i,
                        forall|j: int|
                            0 <= j < i ==> (#[trigger] lines@[j])@ == metadata_types()[j].str_or(
                                ""@,
                            ),
                    decreases types.len() - i,
                {
                    assert(items_view(types@)[i as int] == types@[i as int]@);
                    let text = match types[i].as_str() {
                        Some(text) => text,
                        None => "",
                    };
                    lines.push(String::from_str(text));
                    i = i + 1;
                }
            },
            None => {},
        },
        None => {},
    }
    assert(data@.get("data"@) == Some(JsonView::Array(metadata_types())));
    assert(texts(lines@) =~= wanted);
    let joined = join_strings(&lines, "\n");
    let mut text = String::from_str("### Supported Metadata Types\n\n");
    text.append(joined.as_str());
    make_text_content(text.as_str())
}

fn inspect(arguments: &Json) -> (r: Result<Json, AppError>)
    ensures
        result_view(r) == inspection(arguments@),
{
    let name = match arguments.get("tool_name") {
        Some(found) => found.as_str(),
        None => None,
    };
    match name {
        Some(name) => match find_tool(name) {
            Some(tool) => {
                let text = tool.render_pretty();
                Ok(make_text_content(text.as_str()))
            },
            None => Err(AppError::NotFound),
        },
        None => {
            let text = tool_summary();
            Ok(make_text_content(text.as_str()))
        },
    }
}

fn id_or_zero(id: Option<String>) -> (r: String)
    ensures
        r@ == text_or_zero(opt_text(id)),
{
    match id {
        Some(v) => v,
        None => String::from_str("0"),
    }
}

/// Says what the call of the tool `name` with `params` takes.
pub fn handle_tool_call(name: &str, params: Option<&Json>, settings: &Settings) -> (r: ToolPlan)
    ensures
        r@ == tool_plan(
            name@,
            match params {
                Some(p) => Some(p@),
                None => None,
            },
            settings@,
        ),
{
    let null = Json::Null;
    let arguments: &Json = match params {
        Some(p) => match p.get("arguments") {
            Some(found) => found,
            None => &null,
        },
        None => &null,
    };
    if name.eq("list_animals") {
        ToolPlan::Fetch { request: list_animals(settings), formatter: Formatter::AnimalResults }
    } else if name.eq("list_species") {
        ToolPlan::Fetch { request: list_species(settings), formatter: Formatter::SpeciesResults }
    } else if name.eq("list_metadata") {
        let args = match MetadataArgs::from_json(arguments) {
            Some(args) => args,
            None => MetadataArgs { metadata_type: String::from_str("colors"), species: None },
        };
        plan_metadata(settings, args)
    } else if name.eq("list_metadata_types") {
        ToolPlan::Done(Ok(metadata_types_content()))
    } else if name.eq("list_breeds") {
        let species = match SpeciesArgs::from_json(arguments) {
            Some(args) => args.species,
            None => settings.default_species.clone(),
        };
        plan_breeds(settings, species)
    } else if name.eq("get_breed") {
        let id = id_or_zero(
            match BreedIdArgs::from_json(arguments) {
                Some(args) => Some(args.breed_id),
                None => None,
            },
        );
        ToolPlan::Fetch {
            request: get_breed_details(settings, id.as_str()),
            formatter: Formatter::BreedDetails,
        }
    } else if name.eq("get_animal_details") {
        let id = id_or_zero(
            match AnimalIdArgs::from_json(arguments) {
                Some(args) => Some(args.animal_id),
                None => None,
            },
        );
        ToolPlan::Fetch {
            request: get_animal_details(settings, id.as_str()),
            formatter: Formatter::SingleAnimal,
        }
    } else if name.eq("get_contact_info") {
        let id = id_or_zero(
            match AnimalIdArgs::from_json(arguments) {
                Some(args) => Some(args.animal_id),
                None => None,
            },
        );
        ToolPlan::Fetch {
            request: get_contact_info(settings, id.as_str()),
            formatter: Formatter::ContactInfo,
        }
    } else if name.eq("compare_animals") {
        let ids = match CompareArgs::from_json(arguments) {
            Some(args) => args.animal_ids,
            None => Vec::new(),
        };
        assert(texts(ids@) =~= match CompareArgs::decode(arguments@) {
            Some(ids) => ids,
            None => Seq::empty(),
        });
        let requests = compare_animals(settings, ids);
        let ghost wanted = compared_ids(texts(ids@));
        assert(requests@.map_values(|r: UpstreamRequest| r@) =~= Seq::new(
            wanted.len(),
            |i: int| get_request(settings.base_url@, "/public/animals/"@ + wanted[i]),
        ));
        ToolPlan::Compare { requests }
    } else if name.eq("search_organizations") {
        let args = match OrgSearchArgs::from_json(arguments) {
            Some(args) => args,
            None => OrgSearchArgs::empty(),
        };
        ToolPlan::Fetch {
            request: search_organizations(settings, &args),
            formatter: Formatter::OrgResults,
        }
    } else if name.eq("get_organization_details") {
        let id = id_or_zero(
            match OrgIdArgs::from_json(arguments) {
                Some(args) => Some(args.org_id),
                None => None,
            },
        );
        ToolPlan::Fetch {
            request: get_organization_details(settings, id.as_str()),
            formatter: Formatter::SingleOrg,
        }
    } else if name.eq("list_org_animals") {
        let id = id_or_zero(
            match OrgIdArgs::from_json(arguments) {
                Some(args) => Some(args.org_id),
                None => None,
            },
        );
        ToolPlan::Fetch {
            request: list_org_animals(settings, id.as_str()),
            formatter: Formatter::AnimalResults,
        }
    } else if name.eq("search_adoptable_pets") {
        let args = match ToolArgs::from_json(arguments) {
            Some(args) => args,
            None => ToolArgs::empty(),
        };
        ToolPlan::Fetch { request: fetch_pets(settings, &args), formatter: Formatter::AnimalResults }
    } else if name.eq("get_random_pet") {
        let species = match arguments.get("species") {
            Some(found) => match found.as_str() {
                Some(text) => Some(String::from_str(text)),
                None => None,
            },
            None => None,
        };
        ToolPlan::Fetch {
            request: get_random_pet(settings, species),
            formatter: Formatter::AnimalResults,
        }
    } else if name.eq("list_adopted_animals") {
        let args = match AdoptedAnimalsArgs::from_json(arguments) {
            Some(args) => args,
            None => AdoptedAnimalsArgs::empty(),
        };
        ToolPlan::Fetch {
            request: fetch_adopted_pets(settings, &args),
            formatter: Formatter::AnimalResults,
        }
    } else if name.eq("inspect_tool") {
        ToolPlan::Done(inspect(arguments))
    } else {
        ToolPlan::Done(Err(AppError::NotFound))
    }
}

/// The version of the protocol that the server speaks.
pub open spec fn protocol_version() -> Seq<char> {
    "2024-11-05"@
}

/// The name under which the server introduces itself.
pub open spec fn server_name() -> Seq<char> {
    "rescue-groups-mcp"@
}

/// The version under which the server introduces itself.
pub open spec fn server_version() -> Seq<char> {
    "0.1.0"@
}

/// What `initialize` answers: the protocol version, the capabilities and
/// the name and version of the server.
pub open spec fn initialize_result() -> JsonView {
    JsonView::empty_object().with("protocolVersion"@, JsonView::Str(protocol_version())).with(
        "capabilities"@,
        JsonView::empty_object().with("tools"@, JsonView::empty_object()),
    ).with(
        "serverInfo"@,
        JsonView::empty_object().with("name"@, JsonView::Str(server_name())).with(
            "version"@,
            JsonView::Str(server_version()),
        ),
    )
}

/// What `tools/list` answers: `{"tools": [descriptors]}`.
pub open spec fn tools_list_result(lazy: bool) -> JsonView {
    JsonView::empty_object().with("tools"@, JsonView::Array(listed_tools(lazy)))
}

/// The methods of the protocol that the server knows.
#[derive(Clone, Copy, Debug, PartialEq, Eq, Structural)]
pub enum Method {
    Initialize,
    Initialized,
    ToolsList,
    ToolsCall,
    Ping,
    /// Any other method.
    Unknown,
}

/// The method that a name stands for.
pub open spec fn method_of(name: Seq<char>) -> Method {
    if name == "initialize"@ {
        Method::Initialize
    } else if name == "notifications/initialized"@ {
        Method::Initialized
    } else if name == "tools/list"@ {
        Method::ToolsList
    } else if name == "tools/call"@ {
        Method::ToolsCall
    } else if name == "ping"@ {
        Method::Ping
    } else {
        Method::Unknown
    }
}

/// Whether the server knows a method of the given name.
pub open spec fn is_known_method(name: Seq<char>) -> bool {
    method_of(name) != Method::Unknown
}

/// The method that a name stands for.
pub fn parse_method(name: &str) -> (r: Method)
    ensures
        r == method_of(name@),
{
    if name.eq("initialize") {
        Method::Initialize
    } else if name.eq("notifications/initialized") {
        Method::Initialized
    } else if name.eq("tools/list") {
        Method::ToolsList
    } else if name.eq("tools/call") {
        Method::ToolsCall
    } else if name.eq("ping") {
        Method::Ping
    } else {
        Method::Unknown
    }
}

/// What a request takes.
#[derive(Debug)]
pub enum McpStep {
    /// Nothing more: `result` is the answer to the request with this `id`.
    /// Without an `id` no answer is sent.
    Reply { id: Option<Json>, result: Result<Json, Json> },
    /// The tool `name` has to run as `plan` says; `finish_tool_call` makes
    /// the answer of its outcome.
    Run { id: Option<Json>, name: String, plan: ToolPlan },
}

/// What a `McpStep` stands for in contracts: its texts are sequences of
/// characters, its JSON documents their values.
pub enum McpStepView {
    Reply { id: Option<JsonView>, result: Result<JsonView, JsonView> },
    Run { id: Option<JsonView>, name: Seq<char>, plan: ToolPlanView },
}

/// The view of an answer: a result or an error object.
pub open spec fn answer_view(result: Result<Json, Json>) -> Result<JsonView, JsonView> {
    match result {
        Ok(v) => Ok(v@),
        Err(e) => Err(e@),
    }
}

impl View for McpStep {
    type V = McpStepView;

    open spec fn view(&self) -> McpStepView {
        match *self {
            McpStep::Reply { id, result } => McpStepView::Reply {
                id: opt_json(id),
                result: answer_view(result),
            },
            McpStep::Run { id, name, plan } => McpStepView::Run {
                id: opt_json(id),
                name: name@,
                plan: plan@,
            },
        }
    }
}

/// The answer that the outcome of a tool gives: its result, or the error
/// object of its failure.
pub open spec fn tool_answer(outcome: Result<JsonView, AppErrorView>) -> Result<JsonView, JsonView> {
    match outcome {
        Ok(value) => Ok(value),
        Err(e) => Err(error_object(e.code(), e.message())),
    }
}

/// The error object of a call that does not say which tool it calls.
pub open spec fn missing_parameters() -> JsonView {
    error_object(crate::error::INVALID_PARAMS, "Missing parameters"@)
}

/// The error object of a method that the server does not know.
pub open spec fn method_not_found() -> JsonView {
    error_object(crate::error::METHOD_NOT_FOUND, "Method not found"@)
}

/// What `tools/call` takes: the plan of the tool that `params` names. A
/// call without parameters, or whose parameters name no tool by a text, is
/// answered with the error of missing parameters.
pub open spec fn tool_call(
    id: Option<JsonView>,
    params: Option<JsonView>,
    settings: SettingsView,
) -> McpStepView {
    match params {
        Some(p) => match p.at("name"@) {
            JsonView::Str(name) => match tool_plan(name, Some(p), settings) {
                ToolPlanView::Done(outcome) => McpStepView::Reply {
                    id,
                    result: tool_answer(outcome),
                },
                plan => McpStepView::Run { id, name, plan },
            },
            _ => McpStepView::Reply { id, result: Err(missing_parameters()) },
        },
        None => McpStepView::Reply { id, result: Err(missing_parameters()) },
    }
}

/// What a request takes. Each request maps to one step, by its method
/// alone; the server keeps nothing from one request to the next.
pub open spec fn dispatch(request: JsonRpcRequestView, settings: SettingsView) -> McpStepView {
    match method_of(request.method) {
        Method::Initialize => McpStepView::Reply { id: request.id, result: Ok(initialize_result()) },
        Method::Initialized => McpStepView::Reply {
            id: None,
            result: Ok(JsonView::empty_object()),
        },
        Method::ToolsList => McpStepView::Reply {
            id: request.id,
            result: Ok(tools_list_result(settings.lazy)),
        },
        Method::ToolsCall => tool_call(request.id, request.params, settings),
        Method::Ping => McpStepView::Reply { id: request.id, result: Ok(JsonView::empty_object()) },
        Method::Unknown => McpStepView::Reply { id: request.id, result: Err(method_not_found()) },
    }
}

/// Makes the answer to a call of a tool of the outcome of the tool.
pub fn finish_tool_call(id: Option<Json>, outcome: Result<Json, AppError>) -> (r: (
    Option<Json>,
    Result<Json, Json>,
))
    ensures
        opt_json(r.0) == opt_json(id),
        answer_view(r.1) == tool_answer(result_view(outcome)),
{
    match outcome {
        Ok(value) => (id, Ok(value)),
        Err(e) => (id, Err(e.to_json_rpc_error())),
    }
}

fn initialize_payload() -> (r: Json)
    ensures
        r@ == initialize_result(),
{
    Json::object().with("protocolVersion", Json::string("2024-11-05")).with(
        "capabilities",
        Json::object().with("tools", Json::object()),
    ).with(
        "serverInfo",
        Json::object().with("name", Json::string("rescue-groups-mcp")).with(
            "version",
            Json::string("0.1.0"),
        ),
    )
}

/// Says what a request takes: its answer, or the plan of the tool that it
/// calls.
pub fn process_mcp_request(request: JsonRpcRequest, settings: &Settings) -> (r: McpStep)
    ensures
        r@ == dispatch(request@, settings@),
{
    let JsonRpcRequest { _jsonrpc, id, method, params } = request;
    match parse_method(method.as_str()) {
        Method::Initialize => McpStep::Reply { id, result: Ok(initialize_payload()) },
        Method::Initialized => McpStep::Reply { id: None, result: Ok(Json::object()) },
        Method::ToolsList => {
            let tools = list_tools(settings.lazy);
            McpStep::Reply { id, result: Ok(Json::object().with("tools", Json::array(tools))) }
        },
        Method::ToolsCall => {
            let params = match params {
                Some(params) => params,
                None => {
                    return McpStep::Reply {
                        id,
                        result: Err(
                            make_error_object(crate::error::INVALID_PARAMS, "Missing parameters"),
                        ),
                    };
                },
            };
            let name = match params.get("name") {
                Some(found) => match found.as_str() {
                    Some(text) => Some(String::from_str(text)),
                    None => None,
                },
                None => None,
            };
            match name {
                Some(name) => match handle_tool_call(name.as_str(), Some(&params), settings) {
                    ToolPlan::Done(outcome) => {
                        let (id, result) = finish_tool_call(id, outcome);
                        McpStep::Reply { id, result }
                    },
                    plan => McpStep::Run { id, name, plan },
                },
                None => McpStep::Reply {
                    id,
                    result: Err(
                        make_error_object(crate::error::INVALID_PARAMS, "Missing parameters"),
                    ),
                },
            }
        },
        Method::Ping => McpStep::Reply { id, result: Ok(Json::object()) },
        Method::Unknown => McpStep::Reply {
            id,
            result: Err(make_error_object(crate::error::METHOD_NOT_FOUND, "Method not found")),
        },
    }
}

/// The JSON-RPC response to the request with the given id: the version tag,
/// the id as it came, and either the result or the error.
pub open spec fn response(id: JsonView, result: Result<JsonView, JsonView>) -> JsonView {
    let head = JsonView::empty_object().with("jsonrpc"@, JsonView::Str("2.0"@)).with("id"@, id);
    match result {
        Ok(value) => head.with("result"@, value),
        Err(error) => head.with("error"@, error),
    }
}

/// Builds the JSON-RPC response to the request with the given id.
pub fn format_json_rpc_response(id: Json, result: Result<Json, Json>) -> (r: Json)
    ensures
        r@ == response(id@, answer_view(result)),
{
    let head = Json::object().with("jsonrpc", Json::string("2.0")).with("id", id);
    match result {
        Ok(value) => head.with("result", value),
        Err(error) => head.with("error", error),
    }
}

} // verus!
