//! Markdown texts for the answers of the upstream API.

use vstd::prelude::*;
use vstd::string::*;
use crate::error::AppError;
use crate::json::{items_view, lemma_items_view, text_or, Json, JsonView};
use crate::text::{join, join_strings, sort, sort_strings, texts};

verus! {

/// The item that an answer is about: the first of a list, or the answer
/// itself where it is an object.
pub open spec fn single_item(data: JsonView) -> Option<JsonView> {
    match data {
        JsonView::Array(items) => if items.len() > 0 {
            Some(items[0])
        } else {
            None
        },
        JsonView::Object(_) => Some(data),
        _ => None,
    }
}

/// The text of an item's attribute, and `default` where it has none.
pub open spec fn attr(item: JsonView, key: Seq<char>, default: Seq<char>) -> Seq<char> {
    item.at("attributes"@).at(key).str_or(default)
}

/// The Markdown image of an animal's first picture, and nothing where it
/// has no picture with an address.
pub open spec fn picture(animal: JsonView, name: Seq<char>) -> Seq<char> {
    match animal.at("attributes"@).at("orgsAnimalsPictures"@) {
        JsonView::Array(pictures) => if pictures.len() > 0 {
            match pictures[0].at("urlSecureFullsize"@) {
                JsonView::Str(address) => "!["@ + name + "]("@ + address + ")"@,
                _ => Seq::empty(),
            }
        } else {
            Seq::empty()
        },
        _ => Seq::empty(),
    }
}

/// The page of one animal.
pub open spec fn single_animal_text(animal: JsonView) -> Seq<char> {
    let name = attr(animal, "name"@, "Unknown"@);
    "# "@ + name + "\n**Breed:** "@ + attr(animal, "breedString"@, "Mix"@) + "\n**Sex:** "@ + attr(
        animal,
        "sex"@,
        "Unknown"@,
    ) + "\n**Age:** "@ + attr(animal, "ageGroup"@, "Unknown"@) + "\n**Size:** "@ + attr(
        animal,
        "sizeGroup"@,
        "Unknown"@,
    ) + "\n\n"@ + picture(animal, name) + "\n\n"@ + attr(
        animal,
        "descriptionText"@,
        "No description available."@,
    ) + "\n\n[View on RescueGroups]("@ + attr(animal, "url"@, ""@) + ")"@
}

/// The entry of one animal in a list of results.
pub open spec fn animal_entry(animal: JsonView) -> Seq<char> {
    let name = attr(animal, "name"@, "Unknown"@);
    "### ["@ + name + "]("@ + attr(animal, "url"@, ""@) + ")\n**Breed:** "@ + attr(
        animal,
        "breedString"@,
        "Mix"@,
    ) + "\n\n"@ + picture(animal, name)
}

/// The entry of one organization in a list of results.
pub open spec fn org_entry(org: JsonView) -> Seq<char> {
    "### "@ + attr(org, "name"@, "Unknown"@) + "\n**ID:** "@ + org.at("id"@).str_or(
        "Unknown ID"@,
    ) + "\n**Location:** "@ + attr(org, "city"@, "Unknown City"@) + ", "@ + attr(
        org,
        "state"@,
        ""@,
    ) + "\n**Email:** "@ + attr(org, "email"@, "No email provided"@) + "\n**Website:** "@ + attr(
        org,
        "url"@,
        ""@,
    )
}

/// The page of one organization.
pub open spec fn single_org_text(org: JsonView) -> Seq<char> {
    "# "@ + attr(org, "name"@, "Unknown"@) + "\n\n"@ + attr(
        org,
        "about"@,
        "No description available."@,
    ) + "\n\n**Address:** "@ + attr(org, "street"@, ""@) + " "@ + attr(
        org,
        "city"@,
        "Unknown City"@,
    ) + " "@ + attr(org, "state"@, ""@) + " "@ + attr(org, "postalcode"@, ""@) + "\n**Phone:** "@
        + attr(org, "phone"@, "No phone provided"@) + "\n**Email:** "@ + attr(
        org,
        "email"@,
        "No email provided"@,
    ) + "\n**Website:** "@ + attr(org, "url"@, ""@) + "\n**Facebook:** "@ + attr(
        org,
        "facebookUrl"@,
        ""@,
    )
}

/// The heading of one breed.
pub open spec fn breed_details_text(breed: JsonView) -> Seq<char> {
    "# Breed: "@ + attr(breed, "name"@, "Unknown"@)
}

/// The entries of the first `limit` items of a list.
pub open spec fn entries(
    items: Seq<JsonView>,
    limit: int,
    entry: spec_fn(JsonView) -> Seq<char>,
) -> Seq<Seq<char>> {
    Seq::new(
        if items.len() < limit {
            items.len()
        } else {
            limit as nat
        },
        |i: int| entry(items[i]),
    )
}

/// The most items that a list of results shows.
pub const SHOWN: usize = 5;

/// The list of results for animals: `None` where the answer holds no list.
pub open spec fn animal_results_text(data: JsonView) -> Option<Seq<char>> {
    match data.at("data"@) {
        JsonView::Array(animals) => Some(
            if animals.len() == 0 {
                "No adoptable animals found."@
            } else {
                join(entries(animals, SHOWN as int, |a: JsonView| animal_entry(a)), "\n\n---\n\n"@)
            },
        ),
        _ => None,
    }
}

/// The list of results for organizations: `None` where the answer holds no
/// list.
pub open spec fn org_results_text(data: JsonView) -> Option<Seq<char>> {
    match data.at("data"@) {
        JsonView::Array(orgs) => Some(
            if orgs.len() == 0 {
                "No organizations found."@
            } else {
                join(entries(orgs, SHOWN as int, |o: JsonView| org_entry(o)), "\n\n---\n\n"@)
            },
        ),
        _ => None,
    }
}

/// The texts that the items of a list hold under an attribute, in the order
/// of the list. An item without such a text gives none.
pub open spec fn attribute_texts(items: Seq<JsonView>, key: Seq<char>) -> Seq<Seq<char>>
    decreases items.len(),
{
    if items.len() == 0 {
        Seq::empty()
    } else {
        let rest = attribute_texts(items.drop_last(), key);
        match items.last().at("attributes"@).at(key) {
            JsonView::Str(s) => rest.push(s),
            _ => rest,
        }
    }
}

/// A heading, then the sorted texts of an attribute, one on a line.
pub open spec fn sorted_list(heading: Seq<char>, items: Seq<JsonView>, key: Seq<char>) -> Seq<
    char,
> {
    heading + join(sort(attribute_texts(items, key)), "\n"@)
}

/// The list of species: `None` where the answer holds no list.
pub open spec fn species_results_text(data: JsonView) -> Option<Seq<char>> {
    match data.at("data"@) {
        JsonView::Array(species) => Some(
            if species.len() == 0 {
                "No species found."@
            } else {
                sorted_list("### Supported Species\n\n"@, species, "singular"@)
            },
        ),
        _ => None,
    }
}

/// The list of the values of a kind of metadata: `None` where the answer
/// holds no list.
pub open spec fn metadata_results_text(data: JsonView, metadata_type: Seq<char>) -> Option<
    Seq<char>,
> {
    match data.at("data"@) {
        JsonView::Array(items) => Some(
            if items.len() == 0 {
                "No "@ + metadata_type + " found."@
            } else {
                sorted_list("### Supported "@ + metadata_type + "\n\n"@, items, "name"@)
            },
        ),
        _ => None,
    }
}

/// The list of the breeds of a species: `None` where the answer holds no
/// list.
pub open spec fn breed_results_text(data: JsonView, species: Seq<char>) -> Option<Seq<char>> {
    match data.at("data"@) {
        JsonView::Array(breeds) => Some(
            if breeds.len() == 0 {
                "No breeds found for species '"@ + species + "'."@
            } else {
                sorted_list("### Breeds for "@ + species + "\n\n"@, breeds, "name"@)
            },
        ),
        _ => None,
    }
}

/// The first item of a list that says it is an organization.
pub open spec fn first_org(items: Seq<JsonView>) -> Option<JsonView>
    decreases items.len(),
{
    if items.len() == 0 {
        None
    } else if items[0].at("type"@) == JsonView::Str("orgs"@) {
        Some(items[0])
    } else {
        first_org(items.drop_first())
    }
}

/// The organization that an answer includes, if it includes one.
pub open spec fn included_org(data: JsonView) -> Option<JsonView> {
    match data.at("included"@) {
        JsonView::Array(items) => first_org(items),
        _ => None,
    }
}

/// The lines that say how to reach an organization.
pub open spec fn org_contact(org: JsonView) -> Seq<char> {
    let url = attr(org, "url"@, ""@);
    "**Organization:** "@ + attr(org, "name"@, "Unknown Organization"@) + "\n**Email:** "@ + attr(
        org,
        "email"@,
        "No email provided"@,
    ) + "\n**Phone:** "@ + attr(org, "phone"@, "No phone provided"@) + "\n**Location:** "@ + attr(
        org,
        "city"@,
        "Unknown City"@,
    ) + ", "@ + attr(org, "state"@, ""@) + "\n"@ + (if url.len() == 0 {
        Seq::empty()
    } else {
        "**Website:** ["@ + url + "]("@ + url + ")\n"@
    })
}

/// The link to an animal's own page, and nothing where it has none.
pub open spec fn adoption_link(animal: JsonView) -> Seq<char> {
    let url = attr(animal, "url"@, ""@);
    if url.len() == 0 {
        Seq::empty()
    } else {
        "\n[View adoption application or more info on RescueGroups]("@ + url + ")"@
    }
}

/// How to reach those who care for an animal: `None` where the answer holds
/// no animal.
pub open spec fn contact_info_text(data: JsonView) -> Option<Seq<char>> {
    match data.get("data"@) {
        Some(found) => match single_item(found) {
            Some(animal) => Some(
                "## Contact Information for "@ + attr(animal, "name"@, "this pet"@) + "\n\n"@
                    + (match included_org(data) {
                    Some(org) => org_contact(org),
                    None =>
                        "Detailed organization contact information is not available for this animal.\n"@,
                }) + adoption_link(animal),
            ),
            None => None,
        },
        None => None,
    }
}

/// One cell for each animal: its name, linked to its page.
pub open spec fn heading_cells(animals: Seq<JsonView>) -> Seq<char>
    decreases animals.len(),
{
    if animals.len() == 0 {
        Seq::empty()
    } else {
        heading_cells(animals.drop_last()) + (" ["@ + attr(animals.last(), "name"@, "Unknown"@)
            + "]("@ + attr(animals.last(), "url"@, ""@) + ") |"@)
    }
}

/// One cell for each animal, with the rule under the headings.
pub open spec fn rule_cells(count: nat) -> Seq<char>
    decreases count,
{
    if count == 0 {
        Seq::empty()
    } else {
        rule_cells((count - 1) as nat) + " :--- |"@
    }
}

/// One cell for each animal: what it holds under an attribute, or a dash.
pub open spec fn value_cells(animals: Seq<JsonView>, key: Seq<char>) -> Seq<char>
    decreases animals.len(),
{
    if animals.len() == 0 {
        Seq::empty()
    } else {
        value_cells(animals.drop_last(), key) + (" "@ + attr(animals.last(), key, "-"@) + " |"@)
    }
}

/// The row of a feature: its label, then the cells of the animals.
pub open spec fn feature_row(label: Seq<char>, key: Seq<char>, animals: Seq<JsonView>) -> Seq<
    char,
> {
    "| **"@ + label + "** |"@ + value_cells(animals, key) + "\n"@
}

/// The table that puts animals side by side, a column for each.
pub open spec fn comparison_table(animals: Seq<JsonView>) -> Seq<char> {
    "| Feature |"@ + heading_cells(animals) + "\n"@ + "| :--- |"@ + rule_cells(animals.len())
        + "\n"@ + feature_row("Breed"@, "breedString"@, animals) + feature_row(
        "Age"@,
        "ageGroup"@,
        animals,
    ) + feature_row("Sex"@, "sex"@, animals) + feature_row("Size"@, "sizeGroup"@, animals)
        + feature_row("Kids?"@, "isGoodWithChildren"@, animals) + feature_row(
        "Dogs?"@,
        "isGoodWithDogs"@,
        animals,
    ) + feature_row("Cats?"@, "isGoodWithCats"@, animals) + feature_row(
        "Trained?"@,
        "isHouseTrained"@,
        animals,
    ) + feature_row("Special?"@, "isSpecialNeeds"@, animals)
}

/// The comparison of the animals of an answer: `None` where it holds no
/// list.
pub open spec fn comparison_table_text(data: JsonView) -> Option<Seq<char>> {
    match data.at("data"@) {
        JsonView::Array(animals) => Some(
            if animals.len() == 0 {
                "No animals to compare."@
            } else {
                comparison_table(animals)
            },
        ),
        _ => None,
    }
}

/// The item that an answer is about.
pub fn extract_single_item(data: &Json) -> (r: Option<&Json>)
    ensures
        match r {
            Some(item) => single_item(data@) == Some(item@),
            None => single_item(data@) is None,
        },
{
    match data {
        Json::Array(items) => {
            proof {
                lemma_items_view(items@);
            }
            if items.len() > 0 {
                Some(&items[0])
            } else {
                None
            }
        },
        Json::Object(_) => Some(data),
        _ => None,
    }
}

/// The text of an item's attribute, and `default` where it has none.
fn attribute<'a>(item: &'a Json, key: &str, default: &'a str) -> (r: &'a str)
    ensures
        r@ == attr(item@, key@, default@),
{
    match item.get("attributes") {
        Some(attrs) => text_or(attrs, key, default),
        None => default,
    }
}

/// The Markdown image of an animal's first picture.
fn picture_of(animal: &Json, name: &str) -> (r: String)
    ensures
        r@ == picture(animal@, name@),
{
    let pictures = match animal.get("attributes") {
        Some(attrs) => match attrs.get("orgsAnimalsPictures") {
            Some(found) => found.as_array(),
            None => None,
        },
        None => None,
    };
    match pictures {
        Some(pictures) => {
            proof {
                lemma_items_view(pictures@);
            }
            if pictures.len() > 0 {
                let address = match pictures[0].get("urlSecureFullsize") {
                    Some(found) => found.as_str(),
                    None => None,
                };
                match address {
                    Some(address) => {
                        let mut out = String::from_str("![");
                        out.append(name);
                        out.append("](");
                        out.append(address);
                        out.append(")");
                        out
                    },
                    None => String::new(),
                }
            } else {
                String::new()
            }
        },
        None => String::new(),
    }
}

/// The page of one animal.
pub fn format_single_animal(animal: &Json) -> (r: String)
    ensures
        r@ == single_animal_text(animal@),
{
    let name = attribute(animal, "name", "Unknown");
    let image = picture_of(animal, name);
    let mut out = String::from_str("# ");
    out.append(name);
    out.append("\n**Breed:** ");
    out.append(attribute(animal, "breedString", "Mix"));
    out.append("\n**Sex:** ");
    out.append(attribute(animal, "sex", "Unknown"));
    out.append("\n**Age:** ");
    out.append(attribute(animal, "ageGroup", "Unknown"));
    out.append("\n**Size:** ");
    out.append(attribute(animal, "sizeGroup", "Unknown"));
    out.append("\n\n");
    out.append(image.as_str());
    out.append("\n\n");
    out.append(attribute(animal, "descriptionText", "No description available."));
    out.append("\n\n[View on RescueGroups](");
    out.append(attribute(animal, "url", ""));
    out.append(")");
    out
}

/// The entry of one animal in a list of results.
fn format_animal_entry(animal: &Json) -> (r: String)
    ensures
        r@ == animal_entry(animal@),
{
    let name = attribute(animal, "name", "Unknown");
    let image = picture_of(animal, name);
    let mut out = String::from_str("### [");
    out.append(name);
    out.append("](");
    out.append(attribute(animal, "url", ""));
    out.append(")\n**Breed:** ");
    out.append(attribute(animal, "breedString", "Mix"));
    out.append("\n\n");
    out.append(image.as_str());
    out
}

/// The entry of one organization in a list of results.
fn format_org_entry(org: &Json) -> (r: String)
    ensures
        r@ == org_entry(org@),
{
    let mut out = String::from_str("### ");
    out.append(attribute(org, "name", "Unknown"));
    out.append("\n**ID:** ");
    out.append(text_or(org, "id", "Unknown ID"));
    out.append("\n**Location:** ");
    out.append(attribute(org, "city", "Unknown City"));
    out.append(", ");
    out.append(attribute(org, "state", ""));
    out.append("\n**Email:** ");
    out.append(attribute(org, "email", "No email provided"));
    out.append("\n**Website:** ");
    out.append(attribute(org, "url", ""));
    out
}

/// The page of one organization.
pub fn format_single_org(org: &Json) -> (r: String)
    ensures
        r@ == single_org_text(org@),
{
    let mut out = String::from_str("# ");
    out.append(attribute(org, "name", "Unknown"));
    out.append("\n\n");
    out.append(attribute(org, "about", "No description available."));
    out.append("\n\n**Address:** ");
    out.append(attribute(org, "street", ""));
    out.append(" ");
    out.append(attribute(org, "city", "Unknown City"));
    out.append(" ");
    out.append(attribute(org, "state", ""));
    out.append(" ");
    out.append(attribute(org, "postalcode", ""));
    out.append("\n**Phone:** ");
    out.append(attribute(org, "phone", "No phone provided"));
    out.append("\n**Email:** ");
    out.append(attribute(org, "email", "No email provided"));
    out.append("\n**Website:** ");
    out.append(attribute(org, "url", ""));
    out.append("\n**Facebook:** ");
    out.append(attribute(org, "facebookUrl", ""));
    out
}

/// The heading of one breed.
pub fn format_breed_details(breed: &Json) -> (r: String)
    ensures
        r@ == breed_details_text(breed@),
{
    let mut out = String::from_str("# Breed: ");
    out.append(attribute(breed, "name", "Unknown"));
    out
}

/// The list under `data` in an answer.
fn data_list(data: &Json) -> (r: Option<&Vec<Json>>)
    ensures
        match r {
            Some(items) => data@.at("data"@) == JsonView::Array(items_view(items@)),
            None => !(data@.at("data"@) is Array),
        },
{
    match data.get("data") {
        Some(found) => found.as_array(),
        None => None,
    }
}

/// The list of results for animals. An answer without a list is
/// `NotFound`.
pub fn format_animal_results(data: &Json) -> (r: Result<String, AppError>)
    ensures
        match r {
            Ok(text) => animal_results_text(data@) == Some(text@),
            Err(e) => animal_results_text(data@) is None && e is NotFound,
        },
{
    let animals = match data_list(data) {
        Some(animals) => animals,
        None => {
            return Err(AppError::NotFound);
        },
    };
    proof {
        lemma_items_view(animals@);
    }
    if animals.len() == 0 {
        return Ok(String::from_str("No adoptable animals found."));
    }
    let shown = if animals.len() < SHOWN {
        animals.len()
    } else {
        SHOWN
    };
    let ghost views = items_view(animals@);
    let ghost wanted = entries(views, SHOWN as int, |a: JsonView| animal_entry(a));
    let mut parts: Vec<String> = Vec::new();
    let mut i: usize = 0;
    while i < shown
        invariant
            i <= shown,
            shown <= animals.len(),
            shown == wanted.len(),
            views == items_view(animals@),
            views.len() == animals@.len(),
            forall|j: int| 0 <= j < animals@.len() ==> views[j] == animals@[j]@,
            wanted == entries(views, SHOWN as int, |a: JsonView| animal_entry(a)),
            parts@.len() == i,
            forall|j: int| 0 <= j < i ==> parts@[j]@ == wanted[j],
        decreases shown - i,
    {
        let entry = format_animal_entry(&animals[i]);
        parts.push(entry);
        i = i + 1;
    }
    assert(texts(parts@) =~= wanted);
    Ok(join_strings(&parts, "\n\n---\n\n"))
}

/// The list of results for organizations. An answer without a list is
/// `NotFound`.
pub fn format_org_results(data: &Json) -> (r: Result<String, AppError>)
    ensures
        match r {
            Ok(text) => org_results_text(data@) == Some(text@),
            Err(e) => org_results_text(data@) is None && e is NotFound,
        },
{
    let orgs = match data_list(data) {
        Some(orgs) => orgs,
        None => {
            return Err(AppError::NotFound);
        },
    };
    proof {
        lemma_items_view(orgs@);
    }
    if orgs.len() == 0 {
        return Ok(String::from_str("No organizations found."));
    }
    let shown = if orgs.len() < SHOWN {
        orgs.len()
    } else {
        SHOWN
    };
    let ghost views = items_view(orgs@);
    let ghost wanted = entries(views, SHOWN as int, |o: JsonView| org_entry(o));
    let mut parts: Vec<String> = Vec::new();
    let mut i: usize = 0;
    while i < shown
        invariant
            i <= shown,
            shown <= orgs.len(),
            shown == wanted.len(),
            views == items_view(orgs@),
            views.len() == orgs@.len(),
            forall|j: int| 0 <= j < orgs@.len() ==> views[j] == orgs@[j]@,
            wanted == entries(views, SHOWN as int, |o: JsonView| org_entry(o)),
            parts@.len() == i,
            forall|j: int| 0 <= j < i ==> parts@[j]@ == wanted[j],
        decreases shown - i,
    {
        let entry = format_org_entry(&orgs[i]);
        parts.push(entry);
        i = i + 1;
    }
    assert(texts(parts@) =~= wanted);
    Ok(join_strings(&parts, "\n\n---\n\n"))
}

/// `heading`, then the sorted texts that the items hold under an
/// attribute, one on a line.
fn format_sorted_list(heading: &str, items: &Vec<Json>, key: &str) -> (r: String)
    ensures
        r@ == sorted_list(heading@, items_view(items@), key@),
{
    proof {
        lemma_items_view(items@);
    }
    let ghost views = items_view(items@);
    let mut names: Vec<String> = Vec::new();
    let mut i: usize = 0;
    assert(views.take(0) == Seq::<JsonView>::empty());
    while i < items.len()
        invariant
            i <= items.len(),
            views == items_view(items@),
            views.len() == items@.len(),
            forall|j: int| 0 <= j < items@.len() ==> views[j] == items@[j]@,
            texts(names@) == attribute_texts(views.take(i as int), key@),
        decreases items.len() - i,
    {
        let ghost before = texts(names@);
        let ghost next = views.take(i + 1);
        assert(next.drop_last() == views.take(i as int));
        assert(next.last() == items@[i as int]@);
        let found = match items[i].get("attributes") {
            Some(attrs) => match attrs.get(key) {
                Some(value) => value.as_str(),
                None => None,
            },
            None => None,
        };
        match found {
            Some(name) => {
                let owned = String::from_str(name);
                names.push(owned);
                assert(texts(names@) =~= before.push(name@));
            },
            None => {},
        }
        i = i + 1;
    }
    assert(views.take(items.len() as int) == views);
    let sorted = sort_strings(names);
    let lines = join_strings(&sorted, "\n");
    let mut out = String::from_str(heading);
    out.append(lines.as_str());
    out
}

/// The list of species. An answer without a list is `NotFound`.
pub fn format_species_results(data: &Json) -> (r: Result<String, AppError>)
    ensures
        match r {
            Ok(text) => species_results_text(data@) == Some(text@),
            Err(e) => species_results_text(data@) is None && e is NotFound,
        },
{
    let species = match data_list(data) {
        Some(species) => species,
        None => {
            return Err(AppError::NotFound);
        },
    };
    proof {
        lemma_items_view(species@);
    }
    if species.len() == 0 {
        return Ok(String::from_str("No species found."));
    }
    Ok(format_sorted_list("### Supported Species\n\n", species, "singular"))
}

/// The list of the values of a kind of metadata. An answer without a list
/// is `NotFound`.
pub fn format_metadata_results(data: &Json, metadata_type: &str) -> (r: Result<String, AppError>)
    ensures
        match r {
            Ok(text) => metadata_results_text(data@, metadata_type@) == Some(text@),
            Err(e) => metadata_results_text(data@, metadata_type@) is None && e is NotFound,
        },
{
    let items = match data_list(data) {
        Some(items) => items,
        None => {
            return Err(AppError::NotFound);
        },
    };
    proof {
        lemma_items_view(items@);
    }
    if items.len() == 0 {
        let mut out = String::from_str("No ");
        out.append(metadata_type);
        out.append(" found.");
        return Ok(out);
    }
    let mut heading = String::from_str("### Supported ");
    heading.append(metadata_type);
    heading.append("\n\n");
    Ok(format_sorted_list(heading.as_str(), items, "name"))
}

/// The list of the breeds of a species. An answer without a list is
/// `NotFound`.
pub fn format_breed_results(data: &Json, species: &str) -> (r: Result<String, AppError>)
    ensures
        match r {
            Ok(text) => breed_results_text(data@, species@) == Some(text@),
            Err(e) => breed_results_text(data@, species@) is None && e is NotFound,
        },
{
    let breeds = match data_list(data) {
        Some(breeds) => breeds,
        None => {
            return Err(AppError::NotFound);
        },
    };
    proof {
        lemma_items_view(breeds@);
    }
    if breeds.len() == 0 {
        let mut out = String::from_str("No breeds found for species '");
        out.append(species);
        out.append("'.");
        return Ok(out);
    }
    let mut heading = String::from_str("### Breeds for ");
    heading.append(species);
    heading.append("\n\n");
    Ok(format_sorted_list(heading.as_str(), breeds, "name"))
}

/// The organization that an answer includes.
fn find_included_org(data: &Json) -> (r: Option<&Json>)
    ensures
        match r {
            Some(org) => included_org(data@) == Some(org@),
            None => included_org(data@) is None,
        },
{
    let items = match data.get("included") {
        Some(found) => match found.as_array() {
            Some(items) => items,
            None => {
                return None;
            },
        },
        None => {
            return None;
        },
    };
    proof {
        lemma_items_view(items@);
    }
    let ghost views = items_view(items@);
    let mut i: usize = 0;
    assert(views.skip(0) == views);
    while i < items.len()
        invariant
            i <= items.len(),
            views == items_view(items@),
            views.len() == items@.len(),
            forall|j: int| 0 <= j < items@.len() ==> views[j] == items@[j]@,
            included_org(data@) == first_org(views.skip(i as int)),
        decreases items.len() - i,
    {
        let ghost rest = views.skip(i as int);
        assert(rest[0] == items@[i as int]@);
        assert(rest.drop_first() == views.skip(i + 1));
        let kind = match items[i].get("type") {
            Some(found) => found.as_str(),
            None => None,
        };
        let is_org = match kind {
            Some(kind) => kind.eq("orgs"),
            None => false,
        };
        if is_org {
            return Some(&items[i]);
        }
        i = i + 1;
    }
    assert(views.skip(items.len() as int).len() == 0);
    None
}

/// The lines that say how to reach an organization.
fn format_org_contact(org: &Json) -> (r: String)
    ensures
        r@ == org_contact(org@),
{
    let url = attribute(org, "url", "");
    let mut website = String::new();
    if url.unicode_len() > 0 {
        website.append("**Website:** [");
        website.append(url);
        website.append("](");
        website.append(url);
        website.append(")\n");
        assert(website@ == "**Website:** ["@ + url@ + "]("@ + url@ + ")\n"@) by {
            assert(Seq::<char>::empty() + "**Website:** ["@ == "**Website:** ["@);
        }
    }
    let mut out = String::from_str("**Organization:** ");
    out.append(attribute(org, "name", "Unknown Organization"));
    out.append("\n**Email:** ");
    out.append(attribute(org, "email", "No email provided"));
    out.append("\n**Phone:** ");
    out.append(attribute(org, "phone", "No phone provided"));
    out.append("\n**Location:** ");
    out.append(attribute(org, "city", "Unknown City"));
    out.append(", ");
    out.append(attribute(org, "state", ""));
    out.append("\n");
    out.append(website.as_str());
    out
}

/// How to reach those who care for an animal. An answer without an animal
/// is `NotFound`.
pub fn format_contact_info(data: &Json) -> (r: Result<String, AppError>)
    ensures
        match r {
            Ok(text) => contact_info_text(data@) == Some(text@),
            Err(e) => contact_info_text(data@) is None && e is NotFound,
        },
{
    let found = match data.get("data") {
        Some(found) => found,
        None => {
            return Err(AppError::NotFound);
        },
    };
    let animal = match extract_single_item(found) {
        Some(animal) => animal,
        None => {
            return Err(AppError::NotFound);
        },
    };
    let contact = match find_included_org(data) {
        Some(org) => format_org_contact(org),
        None => String::from_str(
            "Detailed organization contact information is not available for this animal.\n",
        ),
    };
    let url = attribute(animal, "url", "");
    let mut link = String::new();
    if url.unicode_len() > 0 {
        link.append("\n[View adoption application or more info on RescueGroups](");
        link.append(url);
        link.append(")");
        assert(link@ == "\n[View adoption application or more info on RescueGroups]("@ + url@
            + ")"@) by {
            assert(Seq::<char>::empty()
                + "\n[View adoption application or more info on RescueGroups]("@
                == "\n[View adoption application or more info on RescueGroups]("@);
        }
    }
    let mut out = String::from_str("## Contact Information for ");
    out.append(attribute(animal, "name", "this pet"));
    out.append("\n\n");
    out.append(contact.as_str());
    out.append(link.as_str());
    Ok(out)
}

/// Appends one cell for each animal: what it holds under an attribute.
fn append_value_cells(out: &mut String, animals: &Vec<Json>, key: &str)
    ensures
        final(out)@ == old(out)@ + value_cells(items_view(animals@), key@),
{
    proof {
        lemma_items_view(animals@);
    }
    let ghost views = items_view(animals@);
    let ghost start = out@;
    let mut i: usize = 0;
    assert(views.take(0) == Seq::<JsonView>::empty());
    assert(start + Seq::<char>::empty() == start);
    while i < animals.len()
        invariant
            i <= animals.len(),
            views == items_view(animals@),
            views.len() == animals@.len(),
            forall|j: int| 0 <= j < animals@.len() ==> views[j] == animals@[j]@,
            out@ == start + value_cells(views.take(i as int), key@),
        decreases animals.len() - i,
    {
        let ghost done = value_cells(views.take(i as int), key@);
        let ghost next = views.take(i + 1);
        assert(next.drop_last() == views.take(i as int));
        assert(next.last() == animals@[i as int]@);
        let mut cell = String::from_str(" ");
        cell.append(attribute(&animals[i], key, "-"));
        cell.append(" |");
        out.append(cell.as_str());
        assert(start + done + cell@ == start + (done + cell@));
        i = i + 1;
    }
    assert(views.take(animals.len() as int) == views);
}

/// Appends the row of a feature.
fn append_feature_row(out: &mut String, label: &str, key: &str, animals: &Vec<Json>)
    ensures
        final(out)@ == old(out)@ + feature_row(label@, key@, items_view(animals@)),
{
    let mut row = String::from_str("| **");
    row.append(label);
    row.append("** |");
    append_value_cells(&mut row, animals, key);
    row.append("\n");
    out.append(row.as_str());
}

/// Appends one cell for each animal: its name, linked to its page.
fn append_heading_cells(out: &mut String, animals: &Vec<Json>)
    ensures
        final(out)@ == old(out)@ + heading_cells(items_view(animals@)),
{
    proof {
        lemma_items_view(animals@);
    }
    let ghost views = items_view(animals@);
    let ghost start = out@;
    let mut i: usize = 0;
    assert(views.take(0) == Seq::<JsonView>::empty());
    assert(start + Seq::<char>::empty() == start);
    while i < animals.len()
        invariant
            i <= animals.len(),
            views == items_view(animals@),
            views.len() == animals@.len(),
            forall|j: int| 0 <= j < animals@.len() ==> views[j] == animals@[j]@,
            out@ == start + heading_cells(views.take(i as int)),
        decreases animals.len() - i,
    {
        let ghost done = heading_cells(views.take(i as int));
        let ghost next = views.take(i + 1);
        assert(next.drop_last() == views.take(i as int));
        assert(next.last() == animals@[i as int]@);
        let mut cell = String::from_str(" [");
        cell.append(attribute(&animals[i], "name", "Unknown"));
        cell.append("](");
        cell.append(attribute(&animals[i], "url", ""));
        cell.append(") |");
        out.append(cell.as_str());
        assert(start + done + cell@ == start + (done + cell@));
        i = i + 1;
    }
    assert(views.take(animals.len() as int) == views);
}

/// Appends `count` cells of the rule under the headings.
fn append_rule_cells(out: &mut String, count: usize)
    ensures
        final(out)@ == old(out)@ + rule_cells(count as nat),
{
    let ghost start = out@;
    let mut i: usize = 0;
    assert(start + Seq::<char>::empty() == start);
    while i < count
        invariant
            i <= count,
            out@ == start + rule_cells(i as nat),
        decreases count - i,
    {
        let ghost done = rule_cells(i as nat);
        out.append(" :--- |");
        assert(start + done + " :--- |"@ == start + (done + " :--- |"@));
        i = i + 1;
    }
}

/// The table that puts the animals of an answer side by side. An answer
/// without a list is `NotFound`.
pub fn format_comparison_table(data: &Json) -> (r: Result<String, AppError>)
    ensures
        match r {
            Ok(text) => comparison_table_text(data@) == Some(text@),
            Err(e) => comparison_table_text(data@) is None && e is NotFound,
        },
{
    let animals = match data_list(data) {
        Some(animals) => animals,
        None => {
            return Err(AppError::NotFound);
        },
    };
    proof {
        lemma_items_view(animals@);
    }
    if animals.len() == 0 {
        return Ok(String::from_str("No animals to compare."));
    }
    let mut out = String::from_str("| Feature |");
    append_heading_cells(&mut out, animals);
    out.append("\n");
    out.append("| :--- |");
    append_rule_cells(&mut out, animals.len());
    out.append("\n");
    append_feature_row(&mut out, "Breed", "breedString", animals);
    append_feature_row(&mut out, "Age", "ageGroup", animals);
    append_feature_row(&mut out, "Sex", "sex", animals);
    append_feature_row(&mut out, "Size", "sizeGroup", animals);
    append_feature_row(&mut out, "Kids?", "isGoodWithChildren", animals);
    append_feature_row(&mut out, "Dogs?", "isGoodWithDogs", animals);
    append_feature_row(&mut out, "Cats?", "isGoodWithCats", animals);
    append_feature_row(&mut out, "Trained?", "isHouseTrained", animals);
    append_feature_row(&mut out, "Special?", "isSpecialNeeds", animals);
    Ok(out)
}

} // verus!
