//! The argument records of the tools, and how each is read from the
//! `arguments` of a call.
//!
//! A record is read from a JSON object by the names of its fields, or from a
//! JSON array of exactly as many items as it has fields, by their places. A
//! field that may be absent is absent when the object lacks it or holds
//! `null` there. Any value of the wrong kind makes the whole record unreadable.

use vstd::prelude::*;
use vstd::string::*;
use crate::json::{Json, JsonView, lemma_items_view};

verus! {

/// Where the value of a field stands in `args`: `None` where `args` has not
/// the shape of a record with `count` fields, `Some(None)` where it is an
/// object without the field, and else the value found.
pub open spec fn field(args: JsonView, index: int, name: Seq<char>, count: int) -> Option<
    Option<JsonView>,
> {
    match args {
        JsonView::Object(m) => Some(
            if m.contains_key(name) {
                Some(m[name])
            } else {
                None
            },
        ),
        JsonView::Array(items) => if items.len() == count && 0 <= index < count {
            Some(Some(items[index]))
        } else {
            None
        },
        _ => None,
    }
}

/// A text that has to be there.
pub open spec fn required_text(slot: Option<Option<JsonView>>) -> Option<Seq<char>> {
    match slot {
        Some(Some(JsonView::Str(s))) => Some(s),
        _ => None,
    }
}

/// A text that may be absent.
pub open spec fn optional_text(slot: Option<Option<JsonView>>) -> Option<Option<Seq<char>>> {
    match slot {
        Some(None) | Some(Some(JsonView::Null)) => Some(None),
        Some(Some(JsonView::Str(s))) => Some(Some(s)),
        _ => None,
    }
}

/// A whole number from 0 to 4294967295 that may be absent.
pub open spec fn optional_u32(slot: Option<Option<JsonView>>) -> Option<Option<u32>> {
    match slot {
        Some(None) | Some(Some(JsonView::Null)) => Some(None),
        Some(Some(v)) => match v.as_i64() {
            Some(n) => if 0 <= n <= u32::MAX {
                Some(Some(n as u32))
            } else {
                None
            },
            None => None,
        },
        None => None,
    }
}

/// A truth value that may be absent.
pub open spec fn optional_bool(slot: Option<Option<JsonView>>) -> Option<Option<bool>> {
    match slot {
        Some(None) | Some(Some(JsonView::Null)) => Some(None),
        Some(Some(JsonView::Bool(b))) => Some(Some(b)),
        _ => None,
    }
}

/// A list of texts that has to be there.
pub open spec fn required_texts(slot: Option<Option<JsonView>>) -> Option<Seq<Seq<char>>> {
    match slot {
        Some(Some(JsonView::Array(items))) => if forall|i: int|
            0 <= i < items.len() ==> items[i] is Str {
            Some(Seq::new(items.len(), |i: int| items[i]->Str_0))
        } else {
            None
        },
        _ => None,
    }
}

/// The view of a string that may be absent.
pub open spec fn opt_text(value: Option<String>) -> Option<Seq<char>> {
    match value {
        Some(s) => Some(s@),
        None => None,
    }
}

/// The place of a field's value in `args`.
fn find<'a>(args: &'a Json, index: usize, name: &str, count: usize) -> (r: Option<
    Option<&'a Json>,
>)
    requires
        index < count,
    ensures
        match r {
            Some(Some(j)) => field(args@, index as int, name@, count as int) == Some(Some(j@)),
            Some(None) => field(args@, index as int, name@, count as int) == Some(
                None::<JsonView>,
            ),
            None => field(args@, index as int, name@, count as int) is None,
        },
{
    match args {
        Json::Object(_) => Some(args.get(name)),
        Json::Array(items) => {
            proof {
                lemma_items_view(items@);
            }
            if items.len() == count {
                Some(Some(&items[index]))
            } else {
                None
            }
        },
        _ => None,
    }
}

fn read_required_text(args: &Json, index: usize, name: &str, count: usize) -> (r: Option<String>)
    requires
        index < count,
    ensures
        opt_text(r) == required_text(field(args@, index as int, name@, count as int)),
{
    match find(args, index, name, count) {
        Some(Some(Json::Str(s))) => Some(s.clone()),
        _ => None,
    }
}

fn read_optional_text(args: &Json, index: usize, name: &str, count: usize) -> (r: Option<
    Option<String>,
>)
    requires
        index < count,
    ensures
        match r {
            Some(v) => optional_text(field(args@, index as int, name@, count as int)) == Some(
                opt_text(v),
            ),
            None => optional_text(field(args@, index as int, name@, count as int)) is None,
        },
{
    match find(args, index, name, count) {
        Some(None) => Some(None),
        Some(Some(Json::Null)) => Some(None),
        Some(Some(Json::Str(s))) => Some(Some(s.clone())),
        _ => None,
    }
}

fn read_optional_u32(args: &Json, index: usize, name: &str, count: usize) -> (r: Option<
    Option<u32>,
>)
    requires
        index < count,
    ensures
        r == optional_u32(field(args@, index as int, name@, count as int)),
{
    match find(args, index, name, count) {
        Some(None) => Some(None),
        Some(Some(Json::Null)) => Some(None),
        Some(Some(value)) => match value.as_i64() {
            Some(n) => if 0 <= n && n <= 4294967295 {
                Some(Some(n as u32))
            } else {
                None
            },
            None => None,
        },
        None => None,
    }
}

fn read_optional_bool(args: &Json, index: usize, name: &str, count: usize) -> (r: Option<
    Option<bool>,
>)
    requires
        index < count,
    ensures
        r == optional_bool(field(args@, index as int, name@, count as int)),
{
    match find(args, index, name, count) {
        Some(None) => Some(None),
        Some(Some(Json::Null)) => Some(None),
        Some(Some(Json::Bool(b))) => Some(Some(*b)),
        _ => None,
    }
}

fn read_required_texts(args: &Json, index: usize, name: &str, count: usize) -> (r: Option<
    Vec<String>,
>)
    requires
        index < count,
    ensures
        match r {
            Some(v) => required_texts(field(args@, index as int, name@, count as int)) == Some(
                crate::text::texts(v@),
            ),
            None => required_texts(field(args@, index as int, name@, count as int)) is None,
        },
{
    match find(args, index, name, count) {
        Some(Some(Json::Array(items))) => {
            proof {
                lemma_items_view(items@);
            }
            let ghost views = crate::json::items_view(items@);
            assert(field(args@, index as int, name@, count as int) == Some(
                Some(JsonView::Array(views)),
            ));
            let mut out: Vec<String> = Vec::new();
            let mut i: usize = 0;
            while i < items.len()
                invariant
                    i <= items.len(),
                    field(args@, index as int, name@, count as int) == Some(
                        Some(JsonView::Array(views)),
                    ),
                    views == crate::json::items_view(items@),
                    views.len() == items@.len(),
                    forall|j: int| 0 <= j < items@.len() ==> views[j] == items@[j]@,
                    out@.len() == i,
                    forall|j: int| 0 <= j < i ==> views[j] == JsonView::Str(out@[j]@),
                decreases items.len() - i,
            {
                match &items[i] {
                    Json::Str(s) => {
                        out.push(s.clone());
                    },
                    _ => {
                        assert(!(views[i as int] is Str));
                        return None;
                    },
                }
                i = i + 1;
            }
            assert(crate::text::texts(out@) =~= Seq::new(views.len(), |i: int| views[i]->Str_0));
            Some(out)
        },
        _ => None,
    }
}

/// How the HTTP transport listens.
#[derive(Clone, Debug)]
pub struct HttpArgs {
    /// Host to bind to.
    pub host: String,
    /// Port to bind to.
    pub port: u16,
    /// The bearer token that callers must present, if any.
    pub auth_token: Option<String>,
}

/// What a search for adoptable pets may ask for.
#[derive(Clone, Debug)]
pub struct ToolArgs {
    pub postal_code: Option<String>,
    pub miles: Option<u32>,
    pub species: Option<String>,
    pub breeds: Option<String>,
    pub sex: Option<String>,
    pub age: Option<String>,
    pub size: Option<String>,
    pub good_with_children: Option<bool>,
    pub good_with_dogs: Option<bool>,
    pub good_with_cats: Option<bool>,
    pub house_trained: Option<bool>,
    pub special_needs: Option<bool>,
    pub needs_foster: Option<bool>,
    pub color: Option<String>,
    pub pattern: Option<String>,
    pub sort_by: Option<String>,
}

/// What a `ToolArgs` stands for in contracts: its texts are sequences of
/// characters, its JSON documents their values.
pub struct ToolArgsView {
    pub postal_code: Option<Seq<char>>,
    pub miles: Option<u32>,
    pub species: Option<Seq<char>>,
    pub breeds: Option<Seq<char>>,
    pub sex: Option<Seq<char>>,
    pub age: Option<Seq<char>>,
    pub size: Option<Seq<char>>,
    pub good_with_children: Option<bool>,
    pub good_with_dogs: Option<bool>,
    pub good_with_cats: Option<bool>,
    pub house_trained: Option<bool>,
    pub special_needs: Option<bool>,
    pub needs_foster: Option<bool>,
    pub color: Option<Seq<char>>,
    pub pattern: Option<Seq<char>>,
    pub sort_by: Option<Seq<char>>,
}

impl View for ToolArgs {
    type V = ToolArgsView;

    open spec fn view(&self) -> ToolArgsView {
        ToolArgsView {
            postal_code: opt_text(self.postal_code),
            miles: self.miles,
            species: opt_text(self.species),
            breeds: opt_text(self.breeds),
            sex: opt_text(self.sex),
            age: opt_text(self.age),
            size: opt_text(self.size),
            good_with_children: self.good_with_children,
            good_with_dogs: self.good_with_dogs,
            good_with_cats: self.good_with_cats,
            house_trained: self.house_trained,
            special_needs: self.special_needs,
            needs_foster: self.needs_foster,
            color: opt_text(self.color),
            pattern: opt_text(self.pattern),
            sort_by: opt_text(self.sort_by),
        }
    }
}

impl ToolArgsView {
    /// The search that asks for nothing.
    pub open spec fn empty() -> ToolArgsView {
        ToolArgsView {
            postal_code: None,
            miles: None,
            species: None,
            breeds: None,
            sex: None,
            age: None,
            size: None,
            good_with_children: None,
            good_with_dogs: None,
            good_with_cats: None,
            house_trained: None,
            special_needs: None,
            needs_foster: None,
            color: None,
            pattern: None,
            sort_by: None,
        }
    }

    /// The record that `args` holds, if it holds one.
    pub open spec fn decode(args: JsonView) -> Option<ToolArgsView> {
        let postal_code = optional_text(field(args, 0, "postal_code"@, 16));
        let miles = optional_u32(field(args, 1, "miles"@, 16));
        let species = optional_text(field(args, 2, "species"@, 16));
        let breeds = optional_text(field(args, 3, "breeds"@, 16));
        let sex = optional_text(field(args, 4, "sex"@, 16));
        let age = optional_text(field(args, 5, "age"@, 16));
        let size = optional_text(field(args, 6, "size"@, 16));
        let good_with_children = optional_bool(field(args, 7, "good_with_children"@, 16));
        let good_with_dogs = optional_bool(field(args, 8, "good_with_dogs"@, 16));
        let good_with_cats = optional_bool(field(args, 9, "good_with_cats"@, 16));
        let house_trained = optional_bool(field(args, 10, "house_trained"@, 16));
        let special_needs = optional_bool(field(args, 11, "special_needs"@, 16));
        let needs_foster = optional_bool(field(args, 12, "needs_foster"@, 16));
        let color = optional_text(field(args, 13, "color"@, 16));
        let pattern = optional_text(field(args, 14, "pattern"@, 16));
        let sort_by = optional_text(field(args, 15, "sort_by"@, 16));
        if postal_code is Some && miles is Some && species is Some && breeds is Some && sex is Some
            && age is Some && size is Some && good_with_children is Some && good_with_dogs is Some
            && good_with_cats is Some && house_trained is Some && special_needs is Some
            && needs_foster is Some && color is Some && pattern is Some && sort_by is Some {
            Some(
                ToolArgsView {
                    postal_code: postal_code->0,
                    miles: miles->0,
                    species: species->0,
                    breeds: breeds->0,
                    sex: sex->0,
                    age: age->0,
                    size: size->0,
                    good_with_children: good_with_children->0,
                    good_with_dogs: good_with_dogs->0,
                    good_with_cats: good_with_cats->0,
                    house_trained: house_trained->0,
                    special_needs: special_needs->0,
                    needs_foster: needs_foster->0,
                    color: color->0,
                    pattern: pattern->0,
                    sort_by: sort_by->0,
                },
            )
        } else {
            None
        }
    }
}

impl ToolArgs {
    /// The search that asks for nothing.
    pub fn empty() -> (r: ToolArgs)
        ensures
            r@ == ToolArgsView::empty(),
    {
        ToolArgs {
            postal_code: None,
            miles: None,
            species: None,
            breeds: None,
            sex: None,
            age: None,
            size: None,
            good_with_children: None,
            good_with_dogs: None,
            good_with_cats: None,
            house_trained: None,
            special_needs: None,
            needs_foster: None,
            color: None,
            pattern: None,
            sort_by: None,
        }
    }

    /// Reads the record from the `arguments` of a call.
    pub fn from_json(args: &Json) -> (r: Option<ToolArgs>)
        ensures
            match r {
                Some(a) => ToolArgsView::decode(args@) == Some(a@),
                None => ToolArgsView::decode(args@) is None,
            },
    {
        let postal_code = read_optional_text(args, 0, "postal_code", 16)?;
        let miles = read_optional_u32(args, 1, "miles", 16)?;
        let species = read_optional_text(args, 2, "species", 16)?;
        let breeds = read_optional_text(args, 3, "breeds", 16)?;
        let sex = read_optional_text(args, 4, "sex", 16)?;
        let age = read_optional_text(args, 5, "age", 16)?;
        let size = read_optional_text(args, 6, "size", 16)?;
        let good_with_children = read_optional_bool(args, 7, "good_with_children", 16)?;
        let good_with_dogs = read_optional_bool(args, 8, "good_with_dogs", 16)?;
        let good_with_cats = read_optional_bool(args, 9, "good_with_cats", 16)?;
        let house_trained = read_optional_bool(args, 10, "house_trained", 16)?;
        let special_needs = read_optional_bool(args, 11, "special_needs", 16)?;
        let needs_foster = read_optional_bool(args, 12, "needs_foster", 16)?;
        let color = read_optional_text(args, 13, "color", 16)?;
        let pattern = read_optional_text(args, 14, "pattern", 16)?;
        let sort_by = read_optional_text(args, 15, "sort_by", 16)?;
        Some(
            ToolArgs {
                postal_code,
                miles,
                species,
                breeds,
                sex,
                age,
                size,
                good_with_children,
                good_with_dogs,
                good_with_cats,
                house_trained,
                special_needs,
                needs_foster,
                color,
                pattern,
                sort_by,
            },
        )
    }
}

/// The animal that a call is about.
#[derive(Clone, Debug)]
pub struct AnimalIdArgs {
    pub animal_id: String,
}

impl AnimalIdArgs {
    /// The animal id that `args` holds, if it holds one.
    pub open spec fn decode(args: JsonView) -> Option<Seq<char>> {
        required_text(field(args, 0, "animal_id"@, 1))
    }

    /// Reads the record from the `arguments` of a call.
    pub fn from_json(args: &Json) -> (r: Option<AnimalIdArgs>)
        ensures
            match r {
                Some(a) => Self::decode(args@) == Some(a.animal_id@),
                None => Self::decode(args@) is None,
            },
    {
        match read_required_text(args, 0, "animal_id", 1) {
            Some(animal_id) => Some(AnimalIdArgs { animal_id }),
            None => None,
        }
    }
}

/// The breed that a call is about.
#[derive(Clone, Debug)]
pub struct BreedIdArgs {
    pub breed_id: String,
}

impl BreedIdArgs {
    /// The breed id that `args` holds, if it holds one.
    pub open spec fn decode(args: JsonView) -> Option<Seq<char>> {
        required_text(field(args, 0, "breed_id"@, 1))
    }

    /// Reads the record from the `arguments` of a call.
    pub fn from_json(args: &Json) -> (r: Option<BreedIdArgs>)
        ensures
            match r {
                Some(a) => Self::decode(args@) == Some(a.breed_id@),
                None => Self::decode(args@) is None,
            },
    {
        match read_required_text(args, 0, "breed_id", 1) {
            Some(breed_id) => Some(BreedIdArgs { breed_id }),
            None => None,
        }
    }
}

/// The animals to put side by side.
#[derive(Clone, Debug)]
pub struct CompareArgs {
    pub animal_ids: Vec<String>,
}

impl CompareArgs {
    /// The animal ids that `args` holds, if it holds a list of them.
    pub open spec fn decode(args: JsonView) -> Option<Seq<Seq<char>>> {
        required_texts(field(args, 0, "animal_ids"@, 1))
    }

    /// Reads the record from the `arguments` of a call.
    pub fn from_json(args: &Json) -> (r: Option<CompareArgs>)
        ensures
            match r {
                Some(a) => Self::decode(args@) == Some(crate::text::texts(a.animal_ids@)),
                None => Self::decode(args@) is None,
            },
    {
        match read_required_texts(args, 0, "animal_ids", 1) {
            Some(animal_ids) => Some(CompareArgs { animal_ids }),
            None => None,
        }
    }
}

/// The species that a call is about, by name or by id.
#[derive(Clone, Debug)]
pub struct SpeciesArgs {
    pub species: String,
}

impl SpeciesArgs {
    /// The species that `args` holds, if it holds one.
    pub open spec fn decode(args: JsonView) -> Option<Seq<char>> {
        required_text(field(args, 0, "species"@, 1))
    }

    /// Reads the record from the `arguments` of a call.
    pub fn from_json(args: &Json) -> (r: Option<SpeciesArgs>)
        ensures
            match r {
                Some(a) => Self::decode(args@) == Some(a.species@),
                None => Self::decode(args@) is None,
            },
    {
        match read_required_text(args, 0, "species", 1) {
            Some(species) => Some(SpeciesArgs { species }),
            None => None,
        }
    }
}

/// Where, and by what name, to look for organizations.
#[derive(Clone, Debug)]
pub struct OrgSearchArgs {
    pub postal_code: Option<String>,
    pub miles: Option<u32>,
    pub query: Option<String>,
}

/// What an `OrgSearchArgs` stands for in contracts: its texts are sequences of
/// characters, its JSON documents their values.
pub struct OrgSearchArgsView {
    pub postal_code: Option<Seq<char>>,
    pub miles: Option<u32>,
    pub query: Option<Seq<char>>,
}

impl View for OrgSearchArgs {
    type V = OrgSearchArgsView;

    open spec fn view(&self) -> OrgSearchArgsView {
        OrgSearchArgsView {
            postal_code: opt_text(self.postal_code),
            miles: self.miles,
            query: opt_text(self.query),
        }
    }
}

impl OrgSearchArgsView {
    /// The search that asks for nothing.
    pub open spec fn empty() -> OrgSearchArgsView {
        OrgSearchArgsView { postal_code: None, miles: None, query: None }
    }

    /// The record that `args` holds, if it holds one.
    pub open spec fn decode(args: JsonView) -> Option<OrgSearchArgsView> {
        let postal_code = optional_text(field(args, 0, "postal_code"@, 3));
        let miles = optional_u32(field(args, 1, "miles"@, 3));
        let query = optional_text(field(args, 2, "query"@, 3));
        if postal_code is Some && miles is Some && query is Some {
            Some(
                OrgSearchArgsView { postal_code: postal_code->0, miles: miles->0, query: query->0 },
            )
        } else {
            None
        }
    }
}

impl OrgSearchArgs {
    /// The search that asks for nothing.
    pub fn empty() -> (r: OrgSearchArgs)
        ensures
            r@ == OrgSearchArgsView::empty(),
    {
        OrgSearchArgs { postal_code: None, miles: None, query: None }
    }

    /// Reads the record from the `arguments` of a call.
    pub fn from_json(args: &Json) -> (r: Option<OrgSearchArgs>)
        ensures
            match r {
                Some(a) => OrgSearchArgsView::decode(args@) == Some(a@),
                None => OrgSearchArgsView::decode(args@) is None,
            },
    {
        let postal_code = read_optional_text(args, 0, "postal_code", 3)?;
        let miles = read_optional_u32(args, 1, "miles", 3)?;
        let query = read_optional_text(args, 2, "query", 3)?;
        Some(OrgSearchArgs { postal_code, miles, query })
    }
}

/// The organization that a call is about.
#[derive(Clone, Debug)]
pub struct OrgIdArgs {
    pub org_id: String,
}

impl OrgIdArgs {
    /// The organization id that `args` holds, if it holds one.
    pub open spec fn decode(args: JsonView) -> Option<Seq<char>> {
        required_text(field(args, 0, "org_id"@, 1))
    }

    /// Reads the record from the `arguments` of a call.
    pub fn from_json(args: &Json) -> (r: Option<OrgIdArgs>)
        ensures
            match r {
                Some(a) => Self::decode(args@) == Some(a.org_id@),
                None => Self::decode(args@) is None,
            },
    {
        match read_required_text(args, 0, "org_id", 1) {
            Some(org_id) => Some(OrgIdArgs { org_id }),
            None => None,
        }
    }
}

/// Where to look for adopted animals, and of which species.
#[derive(Clone, Debug)]
pub struct AdoptedAnimalsArgs {
    pub postal_code: Option<String>,
    pub miles: Option<u32>,
    pub species: Option<String>,
}

/// What an `AdoptedAnimalsArgs` stands for in contracts: its texts are sequences of
/// characters, its JSON documents their values.
pub struct AdoptedAnimalsArgsView {
    pub postal_code: Option<Seq<char>>,
    pub miles: Option<u32>,
    pub species: Option<Seq<char>>,
}

impl View for AdoptedAnimalsArgs {
    type V = AdoptedAnimalsArgsView;

    open spec fn view(&self) -> AdoptedAnimalsArgsView {
        AdoptedAnimalsArgsView {
            postal_code: opt_text(self.postal_code),
            miles: self.miles,
            species: opt_text(self.species),
        }
    }
}

impl AdoptedAnimalsArgsView {
    /// The search that asks for nothing.
    pub open spec fn empty() -> AdoptedAnimalsArgsView {
        AdoptedAnimalsArgsView { postal_code: None, miles: None, species: None }
    }

    /// The record that `args` holds, if it holds one.
    pub open spec fn decode(args: JsonView) -> Option<AdoptedAnimalsArgsView> {
        let postal_code = optional_text(field(args, 0, "postal_code"@, 3));
        let miles = optional_u32(field(args, 1, "miles"@, 3));
        let species = optional_text(field(args, 2, "species"@, 3));
        if postal_code is Some && miles is Some && species is Some {
            Some(
                AdoptedAnimalsArgsView {
                    postal_code: postal_code->0,
                    miles: miles->0,
                    species: species->0,
                },
            )
        } else {
            None
        }
    }
}

impl AdoptedAnimalsArgs {
    /// The search that asks for nothing.
    pub fn empty() -> (r: AdoptedAnimalsArgs)
        ensures
            r@ == AdoptedAnimalsArgsView::empty(),
    {
        AdoptedAnimalsArgs { postal_code: None, miles: None, species: None }
    }

    /// Reads the record from the `arguments` of a call.
    pub fn from_json(args: &Json) -> (r: Option<AdoptedAnimalsArgs>)
        ensures
            match r {
                Some(a) => AdoptedAnimalsArgsView::decode(args@) == Some(a@),
                None => AdoptedAnimalsArgsView::decode(args@) is None,
            },
    {
        let postal_code = read_optional_text(args, 0, "postal_code", 3)?;
        let miles = read_optional_u32(args, 1, "miles", 3)?;
        let species = read_optional_text(args, 2, "species", 3)?;
        Some(AdoptedAnimalsArgs { postal_code, miles, species })
    }
}

/// The kind of metadata to list, for all animals or for one species.
#[derive(Clone, Debug)]
pub struct MetadataArgs {
    pub metadata_type: String,
    pub species: Option<String>,
}

/// What a `MetadataArgs` stands for in contracts: its texts are sequences of
/// characters, its JSON documents their values.
pub struct MetadataArgsView {
    pub metadata_type: Seq<char>,
    pub species: Option<Seq<char>>,
}

impl View for MetadataArgs {
    type V = MetadataArgsView;

    open spec fn view(&self) -> MetadataArgsView {
        MetadataArgsView { metadata_type: self.metadata_type@, species: opt_text(self.species) }
    }
}

impl MetadataArgsView {
    /// The record that `args` holds, if it holds one.
    pub open spec fn decode(args: JsonView) -> Option<MetadataArgsView> {
        let metadata_type = required_text(field(args, 0, "metadata_type"@, 2));
        let species = optional_text(field(args, 1, "species"@, 2));
        if metadata_type is Some && species is Some {
            Some(MetadataArgsView { metadata_type: metadata_type->0, species: species->0 })
        } else {
            None
        }
    }
}

impl MetadataArgs {
    /// Reads the record from the `arguments` of a call.
    pub fn from_json(args: &Json) -> (r: Option<MetadataArgs>)
        ensures
            match r {
                Some(a) => MetadataArgsView::decode(args@) == Some(a@),
                None => MetadataArgsView::decode(args@) is None,
            },
    {
        let metadata_type = read_required_text(args, 0, "metadata_type", 2)?;
        let species = read_optional_text(args, 1, "species", 2)?;
        Some(MetadataArgs { metadata_type, species })
    }
}

} // verus!
