//! The registry of tools: the descriptor of each tool, the full set and the
//! core set.

use vstd::prelude::*;
use vstd::string::*;
use crate::json::{items_view, lemma_items_push, lemma_items_view, text_or, Json, JsonView};
use crate::text::{join, join_strings, texts};

verus! {

/// How many tools there are.
pub const TOOL_COUNT: usize = 16;

/// The schema of one parameter: its JSON type and what it is for.
pub open spec fn prop(kind: Seq<char>, description: Seq<char>) -> JsonView {
    JsonView::empty_object().with("type"@, JsonView::Str(kind)).with(
        "description"@,
        JsonView::Str(description),
    )
}

/// The schema of the arguments of a tool: an object with the given
/// properties, of which `required` has to be there, if it names one.
pub open spec fn schema(properties: JsonView, required: Option<Seq<char>>) -> JsonView {
    let base = JsonView::empty_object().with("type"@, JsonView::Str("object"@)).with(
        "properties"@,
        properties,
    );
    match required {
        Some(name) => base.with("required"@, JsonView::Array(seq![JsonView::Str(name)])),
        None => base,
    }
}

/// The descriptor of a tool: its name, what it does, and the schema of its
/// arguments.
pub open spec fn descriptor(name: Seq<char>, description: Seq<char>, input_schema: JsonView) -> JsonView {
    JsonView::empty_object().with("name"@, JsonView::Str(name)).with(
        "description"@,
        JsonView::Str(description),
    ).with("inputSchema"@, input_schema)
}

/// The schema of a list of texts.
pub open spec fn text_list_prop(description: Seq<char>) -> JsonView {
    JsonView::empty_object().with("type"@, JsonView::Str("array"@)).with(
        "items"@,
        JsonView::empty_object().with("type"@, JsonView::Str("string"@)),
    ).with("description"@, JsonView::Str(description))
}

/// The schema of the order of the results of a search.
pub open spec fn sort_prop() -> JsonView {
    JsonView::empty_object().with("type"@, JsonView::Str("string"@)).with(
        "enum"@,
        JsonView::Array(
            seq![JsonView::Str("Newest"@), JsonView::Str("Distance"@), JsonView::Str("Random"@)],
        ),
    ).with("description"@, JsonView::Str("Sort order for results."@))
}

/// The properties of a search by place: postal code, species and radius.
pub open spec fn place_props() -> JsonView {
    JsonView::empty_object().with(
        "postal_code"@,
        prop("string"@, "Zip code (e.g. 90210)"@),
    ).with("species"@, prop("string"@, "Type of animal (dogs, cats, rabbits)"@)).with(
        "miles"@,
        prop("integer"@, "Search radius (default 50)"@),
    )
}

/// The properties of a search for adoptable pets.
pub open spec fn pet_search_props() -> JsonView {
    place_props().with(
        "breeds"@,
        prop("string"@, "Specific breed name (e.g. Golden Retriever)"@),
    ).with("sex"@, prop("string"@, "Sex of the animal (Male, Female)"@)).with(
        "age"@,
        prop("string"@, "Age group (Baby, Young, Adult, Senior)"@),
    ).with("size"@, prop("string"@, "Size group (Small, Medium, Large, X-Large)"@)).with(
        "good_with_children"@,
        prop("boolean"@, "Whether the pet is good with children."@),
    ).with("good_with_dogs"@, prop("boolean"@, "Whether the pet is good with other dogs."@)).with(
        "good_with_cats"@,
        prop("boolean"@, "Whether the pet is good with cats."@),
    ).with("house_trained"@, prop("boolean"@, "Whether the pet is house trained."@)).with(
        "special_needs"@,
        prop("boolean"@, "Whether the pet has special needs."@),
    ).with("needs_foster"@, prop("boolean"@, "Whether the pet needs a foster home."@)).with(
        "color"@,
        prop("string"@, "Filter by color (partial match)."@),
    ).with("pattern"@, prop("string"@, "Filter by pattern (partial match)."@)).with(
        "sort_by"@,
        sort_prop(),
    )
}

/// The object with one property.
pub open spec fn one_prop(name: Seq<char>, kind: Seq<char>, description: Seq<char>) -> JsonView {
    JsonView::empty_object().with(name, prop(kind, description))
}

/// The descriptor of the tool at a place of the full set.
pub open spec fn tool_at(index: int) -> JsonView {
    if index == 0 {
        descriptor(
            "list_animals"@,
            "List the most recent adoptable animals available globally."@,
            schema(JsonView::empty_object(), None),
        )
    } else if index == 1 {
        descriptor(
            "list_species"@,
            "List all animal species supported by the RescueGroups API."@,
            schema(JsonView::empty_object(), None),
        )
    } else if index == 2 {
        descriptor(
            "list_metadata"@,
            "List valid metadata values for animal attributes (colors, patterns, qualities)."@,
            schema(
                one_prop(
                    "metadata_type"@,
                    "string"@,
                    "The type of metadata to list (e.g., colors, patterns, qualities)"@,
                ).with(
                    "species"@,
                    prop(
                        "string"@,
                        "Optional: Type of animal (e.g., dogs, cats) to filter results."@,
                    ),
                ),
                Some("metadata_type"@),
            ),
        )
    } else if index == 3 {
        descriptor(
            "list_metadata_types"@,
            "List all valid metadata types that can be used with list_metadata."@,
            schema(JsonView::empty_object(), None),
        )
    } else if index == 4 {
        descriptor(
            "list_breeds"@,
            "List available breeds for a specific species."@,
            schema(
                one_prop("species"@, "string"@, "Type of animal (e.g., dogs, cats, rabbits)"@),
                Some("species"@),
            ),
        )
    } else if index == 5 {
        descriptor(
            "get_breed"@,
            "Get detailed information about a specific breed by its ID."@,
            schema(
                one_prop("breed_id"@, "string"@, "The unique ID of the breed."@),
                Some("breed_id"@),
            ),
        )
    } else if index == 6 {
        descriptor(
            "get_animal_details"@,
            "Get detailed information about a specific animal by its ID."@,
            schema(
                one_prop("animal_id"@, "string"@, "The unique ID of the animal."@),
                Some("animal_id"@),
            ),
        )
    } else if index == 7 {
        descriptor(
            "get_contact_info"@,
            "Get the primary contact method (email, phone, organization) for a specific animal."@,
            schema(
                one_prop("animal_id"@, "string"@, "The unique ID of the animal."@),
                Some("animal_id"@),
            ),
        )
    } else if index == 8 {
        descriptor(
            "compare_animals"@,
            "Compare up to 5 animals side-by-side by their IDs."@,
            schema(
                JsonView::empty_object().with(
                    "animal_ids"@,
                    text_list_prop("List of animal IDs to compare (max 5)."@),
                ),
                Some("animal_ids"@),
            ),
        )
    } else if index == 9 {
        descriptor(
            "get_organization_details"@,
            "Get detailed information about a specific rescue organization by its ID."@,
            schema(
                one_prop("org_id"@, "string"@, "The unique ID of the organization."@),
                Some("org_id"@),
            ),
        )
    } else if index == 10 {
        descriptor(
            "list_org_animals"@,
            "List all animals available for adoption at a specific organization."@,
            schema(
                one_prop("org_id"@, "string"@, "The unique ID of the organization."@),
                Some("org_id"@),
            ),
        )
    } else if index == 11 {
        descriptor(
            "search_organizations"@,
            "Search for animal rescue organizations and shelters by location."@,
            schema(
                one_prop("postal_code"@, "string"@, "Zip code (e.g. 90210)"@).with(
                    "miles"@,
                    prop("integer"@, "Search radius (default 50)"@),
                ).with(
                    "query"@,
                    prop(
                        "string"@,
                        "Name of the organization to search for (partial match)"@,
                    ),
                ),
                None,
            ),
        )
    } else if index == 12 {
        descriptor(
            "search_adoptable_pets"@,
            "Search for adoptable pets (dogs, cats, etc) by location and various traits."@,
            schema(pet_search_props(), None),
        )
    } else if index == 13 {
        descriptor(
            "get_random_pet"@,
            "Get a random adoptable pet (surpise me!)."@,
            schema(
                one_prop("species"@, "string"@, "Optional: Type of animal (e.g. dogs, cats)"@),
                None,
            ),
        )
    } else if index == 14 {
        descriptor(
            "list_adopted_animals"@,
            "List recently adopted animals (Success Stories) to see happy endings near you."@,
            schema(place_props(), None),
        )
    } else {
        descriptor(
            "inspect_tool"@,
            "Discover available tools or get detailed schema for a specific tool."@,
            schema(
                one_prop(
                    "tool_name"@,
                    "string"@,
                    "The name of the tool to inspect. If omitted, lists all available tools."@,
                ),
                None,
            ),
        )
    }
}

/// The descriptors of all tools, in the order in which they are listed.
pub open spec fn all_tools() -> Seq<JsonView> {
    Seq::new(TOOL_COUNT as nat, |i: int| tool_at(i))
}

/// Whether a tool belongs to the core set by its name.
pub open spec fn is_core_name(name: Seq<char>) -> bool {
    name == "search_adoptable_pets"@ || name == "get_animal_details"@ || name == "inspect_tool"@
}

/// The name that a descriptor gives its tool, and the empty name where it
/// gives none.
pub open spec fn name_of(tool: JsonView) -> Seq<char> {
    tool.at("name"@).str_or(""@)
}

/// The descriptors of a list that belong to the core set, in their order.
pub open spec fn core_only(tools: Seq<JsonView>) -> Seq<JsonView>
    decreases tools.len(),
{
    if tools.len() == 0 {
        Seq::empty()
    } else if is_core_name(name_of(tools.last())) {
        core_only(tools.drop_last()).push(tools.last())
    } else {
        core_only(tools.drop_last())
    }
}

/// The descriptors of the core tools: those of the full set whose names are
/// core names.
pub open spec fn core_tools() -> Seq<JsonView> {
    core_only(all_tools())
}

/// The descriptors that `tools/list` shows.
pub open spec fn listed_tools(lazy: bool) -> Seq<JsonView> {
    if lazy {
        core_tools()
    } else {
        all_tools()
    }
}

/// The first descriptor of a list whose tool has the given name.
pub open spec fn first_named(tools: Seq<JsonView>, name: Seq<char>) -> Option<JsonView>
    decreases tools.len(),
{
    if tools.len() == 0 {
        None
    } else if tools[0].at("name"@) == JsonView::Str(name) {
        Some(tools[0])
    } else {
        first_named(tools.drop_first(), name)
    }
}

/// The line of a tool in the summary of all tools.
pub open spec fn summary_line(tool: JsonView) -> Seq<char> {
    "- "@ + name_of(tool) + ": "@ + tool.at("description"@).str_or(""@)
}

/// The summary of all tools: a line for each, with its name and what it
/// does.
pub open spec fn summary() -> Seq<char> {
    join(Seq::new(TOOL_COUNT as nat, |i: int| summary_line(tool_at(i))), "\n"@)
}

fn prop_json(kind: &str, description: &str) -> (r: Json)
    ensures
        r@ == prop(kind@, description@),
{
    Json::object().with("type", Json::string(kind)).with("description", Json::string(description))
}

fn one_prop_json(name: &str, kind: &str, description: &str) -> (r: Json)
    ensures
        r@ == one_prop(name@, kind@, description@),
{
    Json::object().with(name, prop_json(kind, description))
}

fn schema_json(properties: Json, required: Option<&str>) -> (r: Json)
    ensures
        r@ == schema(
            properties@,
            match required {
                Some(name) => Some(name@),
                None => None,
            },
        ),
{
    let base = Json::object().with("type", Json::string("object")).with("properties", properties);
    match required {
        Some(name) => {
            let mut names: Vec<Json> = Vec::new();
            let item = Json::string(name);
            proof {
                lemma_items_view(names@);
                lemma_items_push(names@, item);
            }
            names.push(item);
            assert(items_view(names@) =~= seq![JsonView::Str(name@)]);
            base.with("required", Json::array(names))
        },
        None => base,
    }
}

fn descriptor_json(name: &str, description: &str, input_schema: Json) -> (r: Json)
    ensures
        r@ == descriptor(name@, description@, input_schema@),
{
    Json::object().with("name", Json::string(name)).with(
        "description",
        Json::string(description),
    ).with("inputSchema", input_schema)
}

fn text_list_prop_json(description: &str) -> (r: Json)
    ensures
        r@ == text_list_prop(description@),
{
    Json::object().with("type", Json::string("array")).with(
        "items",
        Json::object().with("type", Json::string("string")),
    ).with("description", Json::string(description))
}

fn sort_prop_json() -> (r: Json)
    ensures
        r@ == sort_prop(),
{
    let mut orders: Vec<Json> = Vec::new();
    proof {
        lemma_items_view(orders@);
    }
    let newest = Json::string("Newest");
    proof {
        lemma_items_push(orders@, newest);
    }
    orders.push(newest);
    let distance = Json::string("Distance");
    proof {
        lemma_items_push(orders@, distance);
    }
    orders.push(distance);
    let random = Json::string("Random");
    proof {
        lemma_items_push(orders@, random);
    }
    orders.push(random);
    assert(items_view(orders@) =~= seq![
        JsonView::Str("Newest"@),
        JsonView::Str("Distance"@),
        JsonView::Str("Random"@),
    ]);
    Json::object().with("type", Json::string("string")).with("enum", Json::array(orders)).with(
        "description",
        Json::string("Sort order for results."),
    )
}

fn place_props_json() -> (r: Json)
    ensures
        r@ == place_props(),
{
    Json::object().with("postal_code", prop_json("string", "Zip code (e.g. 90210)")).with(
        "species",
        prop_json("string", "Type of animal (dogs, cats, rabbits)"),
    ).with("miles", prop_json("integer", "Search radius (default 50)"))
}

fn pet_search_props_json() -> (r: Json)
    ensures
        r@ == pet_search_props(),
{
    place_props_json().with(
        "breeds",
        prop_json("string", "Specific breed name (e.g. Golden Retriever)"),
    ).with("sex", prop_json("string", "Sex of the animal (Male, Female)")).with(
        "age",
        prop_json("string", "Age group (Baby, Young, Adult, Senior)"),
    ).with("size", prop_json("string", "Size group (Small, Medium, Large, X-Large)")).with(
        "good_with_children",
        prop_json("boolean", "Whether the pet is good with children."),
    ).with("good_with_dogs", prop_json("boolean", "Whether the pet is good with other dogs.")).with(
        "good_with_cats",
        prop_json("boolean", "Whether the pet is good with cats."),
    ).with("house_trained", prop_json("boolean", "Whether the pet is house trained.")).with(
        "special_needs",
        prop_json("boolean", "Whether the pet has special needs."),
    ).with("needs_foster", prop_json("boolean", "Whether the pet needs a foster home.")).with(
        "color",
        prop_json("string", "Filter by color (partial match)."),
    ).with("pattern", prop_json("string", "Filter by pattern (partial match).")).with(
        "sort_by",
        sort_prop_json(),
    )
}

/// The descriptor of the tool at a place of the full set.
pub fn tool_definition(index: usize) -> (r: Json)
    requires
        index < TOOL_COUNT,
    ensures
        r@ == tool_at(index as int),
{
    if index == 0 {
        descriptor_json(
            "list_animals",
            "List the most recent adoptable animals available globally.",
            schema_json(Json::object(), None),
        )
    } else if index == 1 {
        descriptor_json(
            "list_species",
            "List all animal species supported by the RescueGroups API.",
            schema_json(Json::object(), None),
        )
    } else if index == 2 {
        descriptor_json(
            "list_metadata",
            "List valid metadata values for animal attributes (colors, patterns, qualities).",
            schema_json(
                one_prop_json(
                    "metadata_type",
                    "string",
                    "The type of metadata to list (e.g., colors, patterns, qualities)",
                ).with(
                    "species",
                    prop_json(
                        "string",
                        "Optional: Type of animal (e.g., dogs, cats) to filter results.",
                    ),
                ),
                Some("metadata_type"),
            ),
        )
    } else if index == 3 {
        descriptor_json(
            "list_metadata_types",
            "List all valid metadata types that can be used with list_metadata.",
            schema_json(Json::object(), None),
        )
    } else if index == 4 {
        descriptor_json(
            "list_breeds",
            "List available breeds for a specific species.",
            schema_json(
                one_prop_json("species", "string", "Type of animal (e.g., dogs, cats, rabbits)"),
                Some("species"),
            ),
        )
    } else if index == 5 {
        descriptor_json(
            "get_breed",
            "Get detailed information about a specific breed by its ID.",
            schema_json(
                one_prop_json("breed_id", "string", "The unique ID of the breed."),
                Some("breed_id"),
            ),
        )
    } else if index == 6 {
        descriptor_json(
            "get_animal_details",
            "Get detailed information about a specific animal by its ID.",
            schema_json(
                one_prop_json("animal_id", "string", "The unique ID of the animal."),
                Some("animal_id"),
            ),
        )
    } else if index == 7 {
        descriptor_json(
            "get_contact_info",
            "Get the primary contact method (email, phone, organization) for a specific animal.",
            schema_json(
                one_prop_json("animal_id", "string", "The unique ID of the animal."),
                Some("animal_id"),
            ),
        )
    } else if index == 8 {
        descriptor_json(
            "compare_animals",
            "Compare up to 5 animals side-by-side by their IDs.",
            schema_json(
                Json::object().with(
                    "animal_ids",
                    text_list_prop_json("List of animal IDs to compare (max 5)."),
                ),
                Some("animal_ids"),
            ),
        )
    } else if index == 9 {
        descriptor_json(
            "get_organization_details",
            "Get detailed information about a specific rescue organization by its ID.",
            schema_json(
                one_prop_json("org_id", "string", "The unique ID of the organization."),
                Some("org_id"),
            ),
        )
    } else if index == 10 {
        descriptor_json(
            "list_org_animals",
            "List all animals available for adoption at a specific organization.",
            schema_json(
                one_prop_json("org_id", "string", "The unique ID of the organization."),
                Some("org_id"),
            ),
        )
    } else if index == 11 {
        descriptor_json(
            "search_organizations",
            "Search for animal rescue organizations and shelters by location.",
            schema_json(
                one_prop_json("postal_code", "string", "Zip code (e.g. 90210)").with(
                    "miles",
                    prop_json("integer", "Search radius (default 50)"),
                ).with(
                    "query",
                    prop_json("string", "Name of the organization to search for (partial match)"),
                ),
                None,
            ),
        )
    } else if index == 12 {
        descriptor_json(
            "search_adoptable_pets",
            "Search for adoptable pets (dogs, cats, etc) by location and various traits.",
            schema_json(pet_search_props_json(), None),
        )
    } else if index == 13 {
        descriptor_json(
            "get_random_pet",
            "Get a random adoptable pet (surpise me!).",
            schema_json(
                one_prop_json("species", "string", "Optional: Type of animal (e.g. dogs, cats)"),
                None,
            ),
        )
    } else if index == 14 {
        descriptor_json(
            "list_adopted_animals",
            "List recently adopted animals (Success Stories) to see happy endings near you.",
            schema_json(place_props_json(), None),
        )
    } else {
        descriptor_json(
            "inspect_tool",
            "Discover available tools or get detailed schema for a specific tool.",
            schema_json(
                one_prop_json(
                    "tool_name",
                    "string",
                    "The name of the tool to inspect. If omitted, lists all available tools.",
                ),
                None,
            ),
        )
    }
}

/// The descriptors of all tools.
pub fn get_all_tool_definitions() -> (r: Vec<Json>)
    ensures
        items_view(r@) == all_tools(),
{
    let mut tools: Vec<Json> = Vec::new();
    let mut i: usize = 0;
    while i < TOOL_COUNT
        invariant
            i <= TOOL_COUNT,
            tools@.len() == i,
            forall|j: int| 0 <= j < i ==> (#[trigger] tools@[j])@ == tool_at(j),
        decreases TOOL_COUNT - i,
    {
        let tool = tool_definition(i);
        tools.push(tool);
        i = i + 1;
    }
    proof {
        lemma_items_view(tools@);
        assert(items_view(tools@) =~= all_tools());
    }
    tools
}

/// Whether a tool of the given name belongs to the core set.
pub fn is_core_tool(name: &str) -> (r: bool)
    ensures
        r == is_core_name(name@),
{
    name.eq("search_adoptable_pets") || name.eq("get_animal_details") || name.eq("inspect_tool")
}

/// The descriptors of the core tools.
pub fn get_core_tool_definitions() -> (r: Vec<Json>)
    ensures
        items_view(r@) == core_tools(),
{
    let all = get_all_tool_definitions();
    proof {
        lemma_items_view(all@);
    }
    let ghost views = items_view(all@);
    let mut core: Vec<Json> = Vec::new();
    let mut i: usize = 0;
    assert(views.take(0) == Seq::<JsonView>::empty());
    assert(items_view(core@) =~= Seq::<JsonView>::empty());
    while i < all.len()
        invariant
            i <= all.len(),
            views == items_view(all@),
            views == all_tools(),
            views.len() == all@.len(),
            forall|j: int| 0 <= j < all@.len() ==> views[j] == all@[j]@,
            items_view(core@) == core_only(views.take(i as int)),
        decreases all.len() - i,
    {
        let ghost next = views.take(i + 1);
        assert(next.drop_last() == views.take(i as int));
        assert(next.last() == all@[i as int]@);
        if is_core_tool(text_or(&all[i], "name", "")) {
            let copy = all[i].clone();
            proof {
                lemma_items_push(core@, copy);
            }
            core.push(copy);
        }
        i = i + 1;
    }
    assert(views.take(all.len() as int) == views);
    core
}

/// The descriptors that `tools/list` shows: the core tools in lazy mode,
/// and else all tools.
pub fn list_tools(lazy: bool) -> (r: Vec<Json>)
    ensures
        items_view(r@) == listed_tools(lazy),
{
    if lazy {
        get_core_tool_definitions()
    } else {
        get_all_tool_definitions()
    }
}

/// The descriptor of the tool of the given name.
pub fn find_tool(name: &str) -> (r: Option<Json>)
    ensures
        match r {
            Some(tool) => first_named(all_tools(), name@) == Some(tool@),
            None => first_named(all_tools(), name@) is None,
        },
{
    let all = get_all_tool_definitions();
    proof {
        lemma_items_view(all@);
    }
    let ghost views = items_view(all@);
    let mut i: usize = 0;
    assert(views.skip(0) == views);
    while i < all.len()
        invariant
            i <= all.len(),
            views == items_view(all@),
            views == all_tools(),
            views.len() == all@.len(),
            forall|j: int| 0 <= j < all@.len() ==> views[j] == all@[j]@,
            first_named(views, name@) == first_named(views.skip(i as int), name@),
        decreases all.len() - i,
    {
        let ghost rest = views.skip(i as int);
        assert(rest[0] == all@[i as int]@);
        assert(rest.drop_first() == views.skip(i + 1));
        let found = match all[i].get("name") {
            Some(value) => match value.as_str() {
                Some(text) => text.eq(name),
                None => false,
            },
            None => false,
        };
        if found {
            return Some(all[i].clone());
        }
        i = i + 1;
    }
    assert(views.skip(all.len() as int).len() == 0);
    None
}

/// The summary of all tools.
pub fn tool_summary() -> (r: String)
    ensures
        r@ == summary(),
{
    let all = get_all_tool_definitions();
    proof {
        lemma_items_view(all@);
    }
    let ghost wanted = Seq::new(TOOL_COUNT as nat, |i: int| summary_line(tool_at(i)));
    let mut lines: Vec<String> = Vec::new();
    let mut i: usize = 0;
    while i < all.len()
        invariant
            i <= all.len(),
            all@.len() == TOOL_COUNT,
            items_view(all@) == all_tools(),
            forall|j: int| 0 <= j < all@.len() ==> items_view(all@)[j] == all@[j]@,
            lines@.len() == i,
            forall|j: int| 0 <= j < i ==> (#[trigger] lines@[j])@ == summary_line(tool_at(j)),
        decreases all.len() - i,
    {
        assert(all@[i as int]@ == tool_at(i as int)) by {
            assert(items_view(all@)[i as int] == all@[i as int]@);
            assert(all_tools()[i as int] == tool_at(i as int));
        }
        let mut line = String::from_str("- ");
        line.append(text_or(&all[i], "name", ""));
        line.append(": ");
        line.append(text_or(&all[i], "description", ""));
        lines.push(line);
        i = i + 1;
    }
    assert(texts(lines@) =~= wanted);
    join_strings(&lines, "\n")
}

} // verus!
