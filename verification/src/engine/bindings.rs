//! The items of minijinja that the rendering rests on.

use vstd::prelude::*;

use minijinja::Error as TemplateError;

use crate::filters::camelcase_to_whitespaces;

verus! {

/// `Environment` of minijinja: the templates and filters of a rendering.
/// What it holds is known through [`registry_of`] only.
#[verifier::external_type_specification]
#[verifier::external_body]
pub struct ExEnvironment<'source>(minijinja::Environment<'source>);

/// `Value` of minijinja: a value that a template can read. What it holds
/// is known through [`value_data`] only.
#[verifier::external_type_specification]
#[verifier::external_body]
pub struct ExValue(minijinja::Value);

/// `Error` of minijinja, imported under a name that sets it apart from the
/// error of this library: why a template does not parse or render. Only
/// its message is read.
#[verifier::external_type_specification]
#[verifier::external_body]
pub struct ExTemplateError(TemplateError);

/// Plain data as a template sees it.
pub enum Data {
    /// No value.
    Nothing,
    /// A whole number.
    Number(int),
    /// A string.
    Text(Seq<char>),
    /// A sequence of values.
    List(Seq<Data>),
    /// Values under names.
    Record(Map<Seq<char>, Data>),
}

/// The record that holds each value of `fields` under its name; of two
/// values under one name, the later.
pub open spec fn record_of(fields: Seq<(Seq<char>, Data)>) -> Map<Seq<char>, Data>
    decreases fields.len(),
{
    if fields.len() == 0 {
        Map::empty()
    } else {
        record_of(fields.drop_last()).insert(fields.last().0, fields.last().1)
    }
}

/// What an environment has been given.
pub struct Registry {
    /// The source of each template, under the template's name.
    pub templates: Map<Seq<char>, Seq<char>>,
    /// The names under which `camelcase_to_whitespaces` is a filter.
    pub filters: Set<Seq<char>>,
}

/// The data that a value of minijinja holds, where it was made of none,
/// whole numbers, strings not marked as safe, sequences and maps with
/// strings for keys; `None` of any other value.
pub uninterp spec fn value_data(value: minijinja::Value) -> Option<Data>;

/// What an environment of minijinja has been given, where it is the one of
/// `Environment::new` but for templates added from string slices and for
/// names bound to `camelcase_to_whitespaces`; `None` of any other
/// environment.
pub uninterp spec fn registry_of(environment: minijinja::Environment<'static>) -> Option<Registry>;

/// The text that `Template::render` of minijinja gives for the template
/// `root` of such an environment and a context of plain data; `None` where
/// the environment has no such template or the rendering fails.
pub uninterp spec fn rendered(registry: Registry, root: Seq<char>, context: Data) -> Option<
    Seq<char>,
>;

/// Whether minijinja takes `source` for a template: whether
/// `Environment::add_template` succeeds on it in such an environment.
pub uninterp spec fn template_parses(name: Seq<char>, source: Seq<char>) -> bool;

/// The data of each value.
pub open spec fn items_data(items: Seq<minijinja::Value>) -> Seq<Data> {
    items.map_values(|item: minijinja::Value| value_data(item).unwrap())
}

/// The data of each value, under its name.
pub open spec fn fields_data(fields: Seq<(&'static str, minijinja::Value)>) -> Seq<
    (Seq<char>, Data),
> {
    fields.map_values(|field: (&'static str, minijinja::Value)| (field.0@, value_data(field.1).unwrap()))
}

/// `Value::from` of minijinja on a string slice: a string value.
#[verifier::external_body]
pub(crate) fn text_value(text: &str) -> (value: minijinja::Value)
    ensures
        value_data(value) == Some(Data::Text(text@)),
{
    minijinja::Value::from(text)
}

/// `Value::from` of minijinja on an `Option<u8>`: the number, or none.
#[verifier::external_body]
pub(crate) fn score_value(score: Option<u8>) -> (value: minijinja::Value)
    ensures
        value_data(value) == Some(
            match score {
                Some(number) => Data::Number(number as int),
                None => Data::Nothing,
            },
        ),
{
    minijinja::Value::from(score)
}

/// `Value::from` of minijinja on a `Vec` of values: the sequence of them.
#[verifier::external_body]
pub(crate) fn list_value(items: Vec<minijinja::Value>) -> (value: minijinja::Value)
    requires
        forall|i: int| 0 <= i < items.len() ==> value_data(#[trigger] items[i]) is Some,
    ensures
        value_data(value) == Some(Data::List(items_data(items@))),
{
    minijinja::Value::from(items)
}

/// `Value::from_iter` of minijinja on pairs of a name and a value: the map
/// that holds each value under its name.
#[verifier::external_body]
pub(crate) fn record_value(fields: Vec<(&'static str, minijinja::Value)>) -> (value:
    minijinja::Value)
    requires
        forall|i: int| 0 <= i < fields.len() ==> value_data((#[trigger] fields[i]).1) is Some,
    ensures
        value_data(value) == Some(Data::Record(record_of(fields_data(fields@)))),
{
    minijinja::Value::from_iter(fields)
}

/// `Environment::new` of minijinja: an environment without templates.
#[verifier::external_body]
pub(crate) fn new_environment() -> (environment: minijinja::Environment<'static>)
    ensures
        registry_of(environment) == Some(
            Registry { templates: Map::empty(), filters: Set::empty() },
        ),
{
    minijinja::Environment::new()
}

/// `Environment::add_template` of minijinja: parses the source and, where
/// that succeeds, stores it under the name in place of what stood there. It
/// touches no other name and no filter.
#[verifier::external_body]
pub(crate) fn add_template(
    environment: &mut minijinja::Environment<'static>,
    name: &'static str,
    source: &'static str,
) -> (added: Result<(), TemplateError>)
    requires
        registry_of(*old(environment)) is Some,
    ensures
        registry_of(*final(environment)) is Some,
        registry_of(*final(environment)).unwrap().filters == registry_of(
            *old(environment),
        ).unwrap().filters,
        added is Ok <==> template_parses(name@, source@),
        added is Ok ==> registry_of(*final(environment)).unwrap().templates == registry_of(
            *old(environment),
        ).unwrap().templates.insert(name@, source@),
        added is Err ==> registry_of(*final(environment)).unwrap().templates.remove(name@)
            == registry_of(*old(environment)).unwrap().templates.remove(name@),
{
    environment.add_template(name, source)
}

/// `Environment::add_filter` of minijinja, with `camelcase_to_whitespaces`
/// for the filter: binds the name to it. It touches no template.
#[verifier::external_body]
pub(crate) fn add_filter(environment: &mut minijinja::Environment<'static>, name: &'static str)
    requires
        registry_of(*old(environment)) is Some,
    ensures
        registry_of(*final(environment)) == Some(
            Registry {
                templates: registry_of(*old(environment)).unwrap().templates,
                filters: registry_of(*old(environment)).unwrap().filters.insert(name@),
            },
        ),
{
    environment.add_filter(name, |value: String| camelcase_to_whitespaces(&value))
}

/// `Environment::get_template` and `Template::render` of minijinja: the
/// text of the template `root`, filled in from the context.
#[verifier::external_body]
pub(crate) fn render_template(
    environment: &minijinja::Environment<'static>,
    root: &str,
    context: &minijinja::Value,
) -> (text: Result<String, TemplateError>)
    requires
        registry_of(*environment) is Some,
        value_data(*context) is Some,
    ensures
        match text {
            Ok(text) => rendered(
                registry_of(*environment).unwrap(),
                root@,
                value_data(*context).unwrap(),
            ) == Some(text@),
            Err(_) => rendered(
                registry_of(*environment).unwrap(),
                root@,
                value_data(*context).unwrap(),
            ) is None,
        },
{
    environment.get_template(root)?.render(context)
}

} // verus!
