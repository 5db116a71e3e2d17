//! The producer of hazard APIs: from the text of an ontology to the text of
//! the file that holds its API.

use vstd::prelude::*;
use vstd::string::StringExecFns;

use crate::engine::bindings::{rendered, Registry};
use crate::engine::{
    build_environment, context, context_data, lemma_loaded, loaded, template_error,
    templates_parse, Template, CAMELCASE_TO_WHITESPACES,
};
use crate::error::{Error, ErrorKind, ErrorView};
use crate::ontology::jsonld::Ontology;
use crate::ontology::{nodes_of, ontology_contents, open_ontology, read_nodes, reading_error};
use crate::text::same_text;
use crate::toolchain::model::{build, model_of, Model};
use crate::toolchain::node::NodeView;
use crate::toolchain::rust::{lemma_template_names_differ, Rust};
use crate::toolchain::rust_templates::{ONTOLOGY_TEMPLATE, RISK_TEMPLATE};
use crate::toolchain::OutputFile;

verus! {

/// Supported templates.
#[derive(Debug, Clone, Copy, PartialEq, Eq, Structural)]
pub enum TemplateType {
    /// Generate hazards APIs for Rust.
    Rust,
}

/// The text as `Debug` writes a string slice: between double quotes, with
/// the characters that need it escaped.
pub uninterp spec fn debug_text(text: Seq<char>) -> Seq<char>;

/// `Debug` of std on a string slice, through `format!`: the text between
/// double quotes, with the characters that need it escaped.
#[verifier::external_body]
fn quoted(text: &str) -> (quoted: String)
    ensures
        quoted@ == debug_text(text@),
{
    format!("{text:?}")
}

impl TemplateType {
    /// All `TemplateType` options.
    pub fn all() -> (names: &'static [&'static str])
        ensures
            names@.len() == 1,
            names[0]@ == "rust"@,
    {
        &["rust"]
    }

    /// The templates of the target, each with its name.
    pub open spec fn templates(self) -> Seq<(Seq<char>, Seq<char>)> {
        match self {
            TemplateType::Rust => Rust::templates(),
        }
    }

    /// The file that the target writes and the template that fills it.
    pub open spec fn file(self, with_risk: bool) -> (Seq<char>, Seq<char>) {
        match self {
            TemplateType::Rust => Rust::file(with_risk),
        }
    }

    /// What a run on the given nodes renders: the template of the file, in
    /// an environment with the target's templates and the filter for names,
    /// on the model of the nodes. `None` where the rendering fails.
    pub open spec fn text(self, nodes: Seq<NodeView>, with_risk: bool) -> Option<Seq<char>> {
        rendered(
            Registry {
                templates: loaded(self.templates(), with_risk),
                filters: Set::<Seq<char>>::empty().insert(CAMELCASE_TO_WHITESPACES@),
            },
            self.file(with_risk).1,
            context_data(model_of(nodes, with_risk)),
        )
    }

    /// The file that a run on the given nodes gives, as its name and its
    /// text: none where a template of the run is not taken or the rendering
    /// fails.
    pub open spec fn outcome(self, nodes: Seq<NodeView>, with_risk: bool) -> Option<
        (Seq<char>, Seq<char>),
    > {
        if templates_parse(self.templates(), with_risk) {
            match self.text(nodes, with_risk) {
                Some(text) => Some((self.file(with_risk).0, text)),
                None => None,
            }
        } else {
            None
        }
    }

    /// Whether `parsed` is what the name `template` reads as: the Rust
    /// target for `rust`, and for any other name the error that says that
    /// the name, written as `Debug` writes it, is not a supported template.
    pub open spec fn reads_as(template: Seq<char>, parsed: Result<Self, Error>) -> bool {
        match parsed {
            Ok(template_type) => template == "rust"@ && template_type == TemplateType::Rust,
            Err(error) => template != "rust"@ && error@ == (ErrorView {
                kind: ErrorKind::Template,
                info: debug_text(template) + " is not a supported template."@,
            }),
        }
    }

    /// Reads the name of a template: `rust` names [`TemplateType::Rust`],
    /// and any other name is an error.
    pub fn from_str(template: &str) -> (parsed: Result<Self, Error>)
        ensures
            Self::reads_as(template@, parsed),
    {
        if same_text(template, "rust") {
            Ok(Self::Rust)
        } else {
            let info = quoted(template).concat(" is not a supported template.");
            Err(Error::new(ErrorKind::Template, info.as_str()))
        }
    }

    /// Defines the output of a run: the model of the ontology and the file
    /// that it goes to.
    pub fn define<'a>(self, ontology: &'a Ontology, with_risk: bool) -> (output: Output<'a>)
        ensures
            output.model@ == model_of(ontology_contents(ontology@), with_risk),
            output.file@ == self.file(with_risk),
    {
        let nodes = read_nodes(ontology);
        let model = build(&nodes, with_risk);

        // Define output file of the API.
        let file = match self {
            TemplateType::Rust => Rust::output_file(with_risk),
        };

        Output::new(model, file)
    }

    /// Builds the template of a run: the output bound to the environment
    /// that holds the templates of the run.
    pub fn build(self, ontology: &Ontology, with_risk: bool) -> (template: Result<Template, Error>)
        ensures
            template is Ok <==> templates_parse(self.templates(), with_risk),
            match template {
                Ok(template) => template.wf() && template.text() == self.text(
                    ontology_contents(ontology@),
                    with_risk,
                ) && template.file() == self.file(with_risk),
                Err(error) => template_error(error@),
            },
    {
        let output = self.define(ontology, with_risk);
        let templates = match self {
            TemplateType::Rust => Rust::get_templates(),
        };
        let env = match build_environment(&templates, with_risk) {
            Ok(env) => env,
            Err(error) => {
                return Err(error);
            },
        };
        let context = context(&output.model.hazards, &output.model.categories);
        Ok(Template::new(context, output.file, env))
    }
}

impl std::str::FromStr for TemplateType {
    type Err = Error;

    /// Reads the name of a template, as [`TemplateType::from_str`] does.
    fn from_str(template: &str) -> (parsed: Result<Self, Self::Err>)
        ensures
            TemplateType::reads_as(template@, parsed),
    {
        TemplateType::from_str(template)
    }
}

/// The output of a run before it is rendered.
#[derive(Debug)]
pub struct Output<'a> {
    /// The model of the ontology.
    pub model: Model<'a>,
    /// The file that the model goes to.
    pub file: OutputFile,
}

impl<'a> Output<'a> {
    /// Puts a model and its file together.
    pub fn new(model: Model<'a>, file: OutputFile) -> (output: Self)
        ensures
            output.model == model,
            output.file == file,
    {
        Output { model, file }
    }
}

/// Two runs on the same nodes, with the same flag and for the same target,
/// end alike: both fail, or both give a file of the same name and the same
/// text.
pub proof fn lemma_generate_twice(
    producer: HazardsProducer,
    nodes: Seq<NodeView>,
    template_type: TemplateType,
    first: Result<Generated, Error>,
    second: Result<Generated, Error>,
)
    requires
        producer.generates(nodes, template_type, first),
        producer.generates(nodes, template_type, second),
    ensures
        first is Ok <==> second is Ok,
        first is Ok ==> first->Ok_0@ == second->Ok_0@,
{
}

/// Two runs on the same text, with the same flag and for the same target,
/// end alike: both fail, with an error of the same kind, or both give a
/// file of the same name and the same text.
pub proof fn lemma_run_twice(
    producer: HazardsProducer,
    ontology: Seq<char>,
    template_type: TemplateType,
    first: Result<Generated, Error>,
    second: Result<Generated, Error>,
)
    requires
        producer.runs(ontology, template_type, first),
        producer.runs(ontology, template_type, second),
    ensures
        first is Ok <==> second is Ok,
        first is Ok ==> first->Ok_0@ == second->Ok_0@,
        first is Err ==> first->Err_0@.kind == second->Err_0@.kind,
{
}

/// A Rust run without risk scores renders the template of the API in an
/// environment that holds no other template; one with risk scores renders
/// the template that extends it, in an environment that holds both.
pub proof fn lemma_rust_templates(with_risk: bool)
    ensures
        loaded(TemplateType::Rust.templates(), with_risk).dom().contains(ONTOLOGY_TEMPLATE@),
        loaded(TemplateType::Rust.templates(), with_risk).dom().contains(RISK_TEMPLATE@)
            <==> with_risk,
        TemplateType::Rust.file(with_risk).1 == if with_risk {
            RISK_TEMPLATE@
        } else {
            ONTOLOGY_TEMPLATE@
        },
{
    lemma_template_names_differ();
    lemma_loaded(TemplateType::Rust.templates(), with_risk);
}

/// A generated file.
#[derive(Debug)]
pub struct Generated {
    /// Name of the file, within the output directory.
    pub file_name: &'static str,
    /// The text of the file.
    pub contents: String,
}

impl View for Generated {
    type V = (Seq<char>, Seq<char>);

    open spec fn view(&self) -> (Seq<char>, Seq<char>) {
        (self.file_name@, self.contents@)
    }
}

/// Produce hazards.
#[derive(Debug, Clone, Copy)]
pub struct HazardsProducer {
    with_risk: bool,
}

impl Default for HazardsProducer {
    fn default() -> (producer: Self)
        ensures
            !producer.parses_risk(),
    {
        HazardsProducer { with_risk: false }
    }
}

impl HazardsProducer {
    /// Whether the producer parses the risk score associated to the hazards.
    pub closed spec fn parses_risk(&self) -> bool {
        self.with_risk
    }

    /// Creates a new `HazardsProducer` instance, which parses no risk scores.
    pub fn new() -> (producer: Self)
        ensures
            !producer.parses_risk(),
    {
        HazardsProducer { with_risk: false }
    }

    /// Sets whether to parse the risk score associated to the hazards.
    pub fn with_risk(self, with_risk: bool) -> (producer: Self)
        ensures
            producer.parses_risk() == with_risk,
    {
        let mut producer = self;
        producer.with_risk = with_risk;
        producer
    }

    /// Whether `generated` is what a run on the given nodes ends in: the
    /// file that the nodes give, or a template error where they give none.
    pub open spec fn generates(
        self,
        nodes: Seq<NodeView>,
        template_type: TemplateType,
        generated: Result<Generated, Error>,
    ) -> bool {
        match generated {
            Ok(generated) => template_type.outcome(nodes, self.parses_risk()) == Some(generated@),
            Err(error) => template_error(error@) && template_type.outcome(
                nodes,
                self.parses_risk(),
            ) is None,
        }
    }

    /// Generates the file of an ontology that was read already.
    pub fn generate(self, ontology: &Ontology, template_type: TemplateType) -> (generated: Result<
        Generated,
        Error,
    >)
        ensures
            self.generates(ontology_contents(ontology@), template_type, generated),
    {
        // Build the template.
        let template = match template_type.build(ontology, self.with_risk) {
            Ok(template) => template,
            Err(error) => {
                return Err(error);
            },
        };
        let file_name = template.output_file().file_name;

        // Render the template.
        match template.render() {
            Ok(contents) => Ok(Generated { file_name, contents }),
            Err(error) => Err(error),
        }
    }

    /// Whether `generated` is what a run on the text of an ontology ends
    /// in: what the nodes of the text give, or a JSON-LD error where the
    /// text gives no nodes.
    pub open spec fn runs(
        self,
        ontology: Seq<char>,
        template_type: TemplateType,
        generated: Result<Generated, Error>,
    ) -> bool {
        match nodes_of(ontology) {
            Some(nodes) => self.generates(ontology_contents(nodes), template_type, generated),
            None => generated is Err && reading_error(generated->Err_0@),
        }
    }

    /// Runs hazards producer on the text of an ontology.
    pub fn run(self, ontology: &str, template_type: TemplateType) -> (generated: Result<
        Generated,
        Error,
    >)
        ensures
            self.runs(ontology@, template_type, generated),
    {
        // Obtain the ontology.
        let ontology = match self.open_ontology(ontology) {
            Ok(ontology) => ontology,
            Err(error) => {
                return Err(error);
            },
        };
        self.generate(&ontology, template_type)
    }

    /// Reads the ontology from the text of its file.
    pub fn open_ontology(&self, ontology: &str) -> (opened: Result<Ontology, Error>)
        ensures
            match opened {
                Ok(nodes) => nodes_of(ontology@) == Some(nodes@),
                Err(error) => nodes_of(ontology@) is None && reading_error(error@),
            },
    {
        open_ontology(ontology)
    }

    /// Checks the two paths of a run before anything is read, the output
    /// path first: given whether a directory stands at the output path and
    /// whether a file stands at the path of the ontology.
    pub fn check_paths(&self, output_is_dir: bool, ontology_is_file: bool) -> (checked: Result<
        (),
        Error,
    >)
        ensures
            checked is Ok <==> output_is_dir && ontology_is_file,
            checked matches Err(error) ==> error@ == (ErrorView {
                kind: ErrorKind::PathFormat,
                info: if !output_is_dir {
                    "Output path MUST be a directory path"@
                } else {
                    "Ontology path MUST be a file path"@
                },
            }),
    {
        // Check output path.
        match self.check_output_path(output_is_dir) {
            Ok(_) => {},
            Err(error) => {
                return Err(error);
            },
        }
        self.check_ontology_path(ontology_is_file)
    }

    /// Checks the path of the ontology, given whether a file stands there:
    /// an error if none does.
    pub fn check_ontology_path(&self, is_file: bool) -> (checked: Result<(), Error>)
        ensures
            checked is Ok <==> is_file,
            checked matches Err(error) ==> error@ == (ErrorView {
                kind: ErrorKind::PathFormat,
                info: "Ontology path MUST be a file path"@,
            }),
    {
        // Return an error if ontology path is not a file.
        if !is_file {
            return Err(Error::new(ErrorKind::PathFormat, "Ontology path MUST be a file path"));
        }
        Ok(())
    }

    /// Checks the output path, given whether a directory stands there: an
    /// error if none does.
    pub fn check_output_path(&self, is_dir: bool) -> (checked: Result<(), Error>)
        ensures
            checked is Ok <==> is_dir,
            checked matches Err(error) ==> error@ == (ErrorView {
                kind: ErrorKind::PathFormat,
                info: "Output path MUST be a directory path"@,
            }),
    {
        // Return an error if output path is not a directory.
        if !is_dir {
            return Err(Error::new(ErrorKind::PathFormat, "Output path MUST be a directory path"));
        }
        Ok(())
    }
}

} // verus!
