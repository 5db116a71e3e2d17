//! Extraction of hazards and categories from the nodes of an ontology.

pub mod index;
pub mod model;
pub mod node;
pub mod rust;
pub mod rust_templates;

use vstd::prelude::*;

use crate::text::same_text;
use node::{NodeData, NodeView};

verus! {

/// Type identifier of the nodes that describe a hazard.
pub const HAZARD_TYPE: &'static str = "https://purl.org/sifis/hazards#Hazard";

/// Type identifier of the nodes that describe a category.
pub const CATEGORY_TYPE: &'static str = "https://purl.org/sifis/hazards#Category";

/// A hazard as the templates see it.
#[derive(Debug, Clone, Copy)]
pub struct HazardData<'a> {
    /// Name.
    pub name: &'a str,
    /// Description.
    pub description: &'a str,
    /// Name of the category that the hazard belongs to.
    pub category: &'a str,
    /// Risk score, where one was asked for and the ontology holds a valid one.
    pub risk_score: Option<u8>,
}

/// The contents of a [`HazardData`].
pub struct HazardView {
    pub name: Seq<char>,
    pub description: Seq<char>,
    pub category: Seq<char>,
    pub risk_score: Option<u8>,
}

impl<'a> View for HazardData<'a> {
    type V = HazardView;

    open spec fn view(&self) -> HazardView {
        HazardView {
            name: self.name@,
            description: self.description@,
            category: self.category@,
            risk_score: self.risk_score,
        }
    }
}

impl<'a> HazardData<'a> {
    /// Creates a hazard from its parts.
    pub fn new(
        name: &'a str,
        description: &'a str,
        category: &'a str,
        risk_score: Option<u8>,
    ) -> (hazard: Self)
        ensures
            hazard@ == (HazardView {
                name: name@,
                description: description@,
                category: category@,
                risk_score,
            }),
    {
        Self { name, description, category, risk_score }
    }
}

/// The texts that a sequence of string slices holds.
pub open spec fn texts(names: Seq<&str>) -> Seq<Seq<char>> {
    names.map_values(|name: &str| name@)
}

/// A category as the templates see it.
#[derive(Debug)]
pub struct CategoryData<'a> {
    /// Name.
    pub name: &'a str,
    /// Description.
    pub description: &'a str,
    /// Names of the hazards that belong to the category, in the order of
    /// the ontology.
    pub hazards: Vec<&'a str>,
}

/// The contents of a [`CategoryData`].
pub struct CategoryView {
    pub name: Seq<char>,
    pub description: Seq<char>,
    pub hazards: Seq<Seq<char>>,
}

impl<'a> View for CategoryData<'a> {
    type V = CategoryView;

    open spec fn view(&self) -> CategoryView {
        CategoryView {
            name: self.name@,
            description: self.description@,
            hazards: texts(self.hazards@),
        }
    }
}

impl<'a> CategoryData<'a> {
    /// Creates a category from its parts.
    pub fn new(name: &'a str, description: &'a str, hazards: Vec<&'a str>) -> (category: Self)
        ensures
            category@ == (CategoryView {
                name: name@,
                description: description@,
                hazards: texts(hazards@),
            }),
    {
        Self { name, description, hazards }
    }
}

/// The file that a run writes.
#[derive(Debug, Clone, Copy)]
pub struct OutputFile {
    /// Name of the file, within the output directory.
    pub file_name: &'static str,
    /// Name of the template that fills the file.
    pub template_name: &'static str,
}

impl View for OutputFile {
    type V = (Seq<char>, Seq<char>);

    open spec fn view(&self) -> (Seq<char>, Seq<char>) {
        (self.file_name@, self.template_name@)
    }
}

impl OutputFile {
    /// Creates the description of a file from its name and the name of its template.
    pub fn new(file_name: &'static str, template_name: &'static str) -> (file: Self)
        ensures
            file@ == (file_name@, template_name@),
    {
        OutputFile { file_name, template_name }
    }
}

/// The name and the source of each template.
pub open spec fn template_texts(templates: Seq<(&'static str, &'static str)>) -> Seq<
    (Seq<char>, Seq<char>),
> {
    templates.map_values(|template: (&'static str, &'static str)| (template.0@, template.1@))
}

/// Checks whether an ontology object is a hazard.
pub fn is_hazard(object_type: &str) -> (hazard: bool)
    ensures
        hazard == (object_type@ == HAZARD_TYPE@),
{
    same_text(object_type, HAZARD_TYPE)
}

/// Checks whether an ontology object is a category.
pub fn is_category(object_type: &str) -> (category: bool)
    ensures
        category == (object_type@ == CATEGORY_TYPE@),
{
    same_text(object_type, CATEGORY_TYPE)
}

/// No type identifier names both a hazard and a category.
pub proof fn lemma_types_differ()
    ensures
        HAZARD_TYPE@ != CATEGORY_TYPE@,
{
    reveal_strlit("https://purl.org/sifis/hazards#Hazard");
    reveal_strlit("https://purl.org/sifis/hazards#Category");
    assert(HAZARD_TYPE@.len() == 37);
    assert(CATEGORY_TYPE@.len() == 39);
}

/// Creates a new hazard from a node and the name and description read from it.
pub fn create_hazard<'a>(
    object_value: &NodeData<'a>,
    name: &'a str,
    description: &'a str,
    with_risk: bool,
) -> (hazard: HazardData<'a>)
    ensures
        hazard@ == (HazardView {
            name: name@,
            description: description@,
            category: object_value@.category(),
            risk_score: object_value@.risk_score_if(with_risk),
        }),
{
    // Retrieve hazard category.
    let category = node::category(object_value);

    // Retrieve hazard risk score.
    let risk_score = match with_risk {
        true => node::risk_score(object_value),
        false => None,
    };

    HazardData::new(name, description, category, risk_score)
}

} // verus!
