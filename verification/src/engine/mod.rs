//! Rendering of a model through the templates of a target.

pub mod bindings;

use vstd::prelude::*;

use minijinja::Error as TemplateError;
use minijinja::{Environment, Value};

use crate::error::{said_by, Error, ErrorKind, ErrorView};
use crate::toolchain::model::{category_views, hazard_views, ModelView};
use crate::toolchain::{
    template_texts, texts, CategoryData, CategoryView, HazardData, HazardView, OutputFile,
};
use bindings::{
    add_filter, fields_data, items_data, list_value, new_environment, record_of, record_value,
    registry_of, render_template, rendered, score_value, template_parses, text_value, value_data, Data,
    Registry,
};

verus! {

/// Name of the filter that writes a camelcase name as words.
pub const CAMELCASE_TO_WHITESPACES: &'static str = "camelcase_to_whitespaces";

/// Each text as data.
pub open spec fn text_items(texts: Seq<Seq<char>>) -> Seq<Data> {
    texts.map_values(|text: Seq<char>| Data::Text(text))
}

/// A risk score as data: the number, or nothing.
pub open spec fn score_data(score: Option<u8>) -> Data {
    match score {
        Some(number) => Data::Number(number as int),
        None => Data::Nothing,
    }
}

/// A hazard as the templates get it: a record of its four fields.
pub open spec fn hazard_data(hazard: HazardView) -> Data {
    Data::Record(
        record_of(
            seq![
                ("name"@, Data::Text(hazard.name)),
                ("description"@, Data::Text(hazard.description)),
                ("category"@, Data::Text(hazard.category)),
                ("risk_score"@, score_data(hazard.risk_score)),
            ],
        ),
    )
}

/// A category as the templates get it: a record of its three fields.
pub open spec fn category_data(category: CategoryView) -> Data {
    Data::Record(
        record_of(
            seq![
                ("name"@, Data::Text(category.name)),
                ("description"@, Data::Text(category.description)),
                ("hazards"@, Data::List(text_items(category.hazards))),
            ],
        ),
    )
}

/// The context that the templates get: the hazards under `hazards` and the
/// categories under `categories`.
pub open spec fn context_data(model: ModelView) -> Data {
    Data::Record(
        record_of(
            seq![
                ("hazards"@, Data::List(model.hazards.map_values(|hazard: HazardView| hazard_data(hazard)))),
                (
                    "categories"@,
                    Data::List(
                        model.categories.map_values(|category: CategoryView| category_data(category)),
                    ),
                ),
            ],
        ),
    )
}

/// Makes the value of a hazard.
fn hazard_value(hazard: &HazardData) -> (value: Value)
    ensures
        value_data(value) == Some(hazard_data(hazard@)),
{
    let mut fields: Vec<(&'static str, Value)> = Vec::new();
    fields.push(("name", text_value(hazard.name)));
    fields.push(("description", text_value(hazard.description)));
    fields.push(("category", text_value(hazard.category)));
    fields.push(("risk_score", score_value(hazard.risk_score)));
    assert(fields_data(fields@) =~= seq![
        ("name"@, Data::Text(hazard@.name)),
        ("description"@, Data::Text(hazard@.description)),
        ("category"@, Data::Text(hazard@.category)),
        ("risk_score"@, score_data(hazard@.risk_score)),
    ]);
    record_value(fields)
}

/// Makes the value of a list of names.
fn names_value(names: &Vec<&str>) -> (value: Value)
    ensures
        value_data(value) == Some(Data::List(text_items(texts(names@)))),
{
    let mut items: Vec<Value> = Vec::new();
    let mut i: usize = 0;
    while i < names.len()
        invariant
            i <= names.len(),
            items.len() == i,
            forall|j: int| 0 <= j < i ==> value_data(#[trigger] items[j]) == Some(Data::Text(names[j]@)),
        decreases names.len() - i,
    {
        items.push(text_value(names[i]));
        i = i + 1;
    }
    assert(items_data(items@) =~= text_items(texts(names@)));
    list_value(items)
}

/// Makes the value of a category.
fn category_value(category: &CategoryData) -> (value: Value)
    ensures
        value_data(value) == Some(category_data(category@)),
{
    let mut fields: Vec<(&'static str, Value)> = Vec::new();
    fields.push(("name", text_value(category.name)));
    fields.push(("description", text_value(category.description)));
    fields.push(("hazards", names_value(&category.hazards)));
    assert(fields_data(fields@) =~= seq![
        ("name"@, Data::Text(category@.name)),
        ("description"@, Data::Text(category@.description)),
        ("hazards"@, Data::List(text_items(category@.hazards))),
    ]);
    record_value(fields)
}

/// Creates the template context.
pub fn context(hazards: &Vec<HazardData>, categories: &Vec<CategoryData>) -> (context: Value)
    ensures
        value_data(context) == Some(
            context_data(
                ModelView {
                    hazards: hazard_views(hazards@),
                    categories: category_views(categories@),
                },
            ),
        ),
{
    let mut hazard_items: Vec<Value> = Vec::new();
    let mut i: usize = 0;
    while i < hazards.len()
        invariant
            i <= hazards.len(),
            hazard_items.len() == i,
            forall|j: int|
                0 <= j < i ==> value_data(#[trigger] hazard_items[j]) == Some(hazard_data(hazards[j]@)),
        decreases hazards.len() - i,
    {
        hazard_items.push(hazard_value(&hazards[i]));
        i = i + 1;
    }
    let mut category_items: Vec<Value> = Vec::new();
    let mut k: usize = 0;
    while k < categories.len()
        invariant
            k <= categories.len(),
            category_items.len() == k,
            forall|j: int|
                0 <= j < k ==> value_data(#[trigger] category_items[j]) == Some(
                    category_data(categories[j]@),
                ),
        decreases categories.len() - k,
    {
        category_items.push(category_value(&categories[k]));
        k = k + 1;
    }
    assert(items_data(hazard_items@) =~= hazard_views(hazards@).map_values(
        |hazard: HazardView| hazard_data(hazard),
    ));
    assert(items_data(category_items@) =~= category_views(categories@).map_values(
        |category: CategoryView| category_data(category),
    ));

    // Create context.
    let mut fields: Vec<(&'static str, Value)> = Vec::new();
    fields.push(("hazards", list_value(hazard_items)));
    fields.push(("categories", list_value(category_items)));
    assert(fields_data(fields@) =~= seq![
        (
            "hazards"@,
            Data::List(hazard_views(hazards@).map_values(|hazard: HazardView| hazard_data(hazard))),
        ),
        (
            "categories"@,
            Data::List(
                category_views(categories@).map_values(
                    |category: CategoryView| category_data(category),
                ),
            ),
        ),
    ]);
    record_value(fields)
}

/// The templates that an environment holds: the first of the target's
/// templates and, with risk scores, the second as well.
pub open spec fn loaded(templates: Seq<(Seq<char>, Seq<char>)>, with_risk: bool) -> Map<
    Seq<char>,
    Seq<char>,
> {
    let base = Map::<Seq<char>, Seq<char>>::empty().insert(templates[0].0, templates[0].1);
    if with_risk {
        base.insert(templates[1].0, templates[1].1)
    } else {
        base
    }
}

/// The environment of a run holds the first template always, and the second
/// one if and only if the run is one with risk scores.
pub proof fn lemma_loaded(templates: Seq<(Seq<char>, Seq<char>)>, with_risk: bool)
    requires
        templates[0].0 != templates[1].0,
    ensures
        loaded(templates, with_risk).dom().contains(templates[0].0),
        loaded(templates, with_risk)[templates[0].0] == templates[0].1,
        loaded(templates, with_risk).dom().contains(templates[1].0) <==> with_risk,
        with_risk ==> loaded(templates, with_risk)[templates[1].0] == templates[1].1,
{
}

/// Whether the templates of a run are taken: the first one and, with risk
/// scores, the second.
pub open spec fn templates_parse(templates: Seq<(Seq<char>, Seq<char>)>, with_risk: bool) -> bool {
    &&& template_parses(templates[0].0, templates[0].1)
    &&& with_risk ==> template_parses(templates[1].0, templates[1].1)
}

/// Whether the error is one of the templates: a template error whose
/// details are what minijinja said.
pub open spec fn template_error(error: ErrorView) -> bool {
    &&& error.kind == ErrorKind::Template
    &&& exists|cause: TemplateError| #[trigger] said_by(&cause, error.info)
}

/// Adds a built-in template to the environment.
fn add_template(environment: &mut Environment<'static>, template: (&'static str, &'static str)) -> (added:
    Result<(), Error>)
    requires
        registry_of(*old(environment)) is Some,
    ensures
        registry_of(*final(environment)) is Some,
        added is Ok <==> template_parses(template.0@, template.1@),
        match added {
            Ok(_) => registry_of(*final(environment)).unwrap() == (Registry {
                templates: registry_of(*old(environment)).unwrap().templates.insert(
                    template.0@,
                    template.1@,
                ),
                filters: registry_of(*old(environment)).unwrap().filters,
            }),
            Err(error) => template_error(error@),
        },
{
    let (name, src) = template;
    match bindings::add_template(environment, name, src) {
        Ok(_) => Ok(()),
        Err(error) => Err(Error::of(ErrorKind::Template, &error)),
    }
}

/// Builds the environment of a run: the first template always, the second
/// one only with risk scores.
pub fn build_environment(templates: &[(&'static str, &'static str); 2], with_risk: bool) -> (built:
    Result<Environment<'static>, Error>)
    ensures
        built is Ok <==> templates_parse(template_texts(templates@), with_risk),
        match built {
            Ok(environment) => registry_of(environment) == Some(
                Registry {
                    templates: loaded(template_texts(templates@), with_risk),
                    filters: Set::empty(),
                },
            ),
            Err(error) => template_error(error@),
        },
{
    let mut environment = new_environment();

    // Add base ontology template to the `Environment`.
    match add_template(&mut environment, templates[0]) {
        Ok(_) => {},
        Err(error) => {
            return Err(error);
        },
    }

    // Add risk template to the `Environment`.
    if with_risk {
        match add_template(&mut environment, templates[1]) {
            Ok(_) => {},
            Err(error) => {
                return Err(error);
            },
        }
    }
    Ok(environment)
}

/// A model bound to the templates that render it.
pub struct Template {
    context: Value,
    output_file: OutputFile,
    env: Environment<'static>,
}

impl Template {
    /// The environment and the context are of the plain kind that the
    /// rendering is stated for.
    pub closed spec fn wf(&self) -> bool {
        &&& registry_of(self.env) is Some
        &&& value_data(self.context) is Some
    }

    /// What the environment of the template holds.
    pub closed spec fn registry(&self) -> Registry {
        registry_of(self.env).unwrap()
    }

    /// The data that the template is filled in from.
    pub closed spec fn context(&self) -> Data {
        value_data(self.context).unwrap()
    }

    /// The file that the template fills, and the name of the template that
    /// does so.
    pub closed spec fn file(&self) -> (Seq<char>, Seq<char>) {
        self.output_file@
    }

    /// The text that rendering gives: that of the file's template, in the
    /// environment with the filter for names added, on the context; `None`
    /// where the rendering fails.
    pub open spec fn text(&self) -> Option<Seq<char>> {
        rendered(
            Registry {
                templates: self.registry().templates,
                filters: self.registry().filters.insert(CAMELCASE_TO_WHITESPACES@),
            },
            self.file().1,
            self.context(),
        )
    }

    /// Binds a context and a file to an environment.
    pub fn new(context: Value, output_file: OutputFile, env: Environment<'static>) -> (template: Self)
        requires
            registry_of(env) is Some,
            value_data(context) is Some,
        ensures
            template.wf(),
            template.registry() == registry_of(env).unwrap(),
            template.context() == value_data(context).unwrap(),
            template.file() == output_file@,
    {
        Self { context, output_file, env }
    }

    /// Returns the file that the template fills.
    pub fn output_file(&self) -> (file: OutputFile)
        ensures
            file@ == self.file(),
    {
        self.output_file
    }

    /// Fills in the template and returns the text.
    pub fn render(self) -> (text: Result<String, Error>)
        requires
            self.wf(),
        ensures
            match text {
                Ok(text) => self.text() == Some(text@),
                Err(error) => template_error(error@) && self.text() is None,
            },
    {
        let Template { context, output_file, mut env } = self;

        add_filter(&mut env, CAMELCASE_TO_WHITESPACES);

        // Fill in the templates.
        match render_template(&env, output_file.template_name, &context) {
            Ok(text) => Ok(text),
            Err(error) => Err(Error::of(ErrorKind::Template, &error)),
        }
    }
}

} // verus!
