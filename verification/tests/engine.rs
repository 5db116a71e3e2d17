use hazard_generator::engine::{build_environment, context, Template};
use hazard_generator::toolchain::model::build;
use hazard_generator::toolchain::node::NodeData;
use hazard_generator::toolchain::rust::{Rust, OUTPUT_FILE, OUTPUT_WITH_RISK_FILE};
use hazard_generator::toolchain::rust_templates::{
    ONTOLOGY_SOURCE, ONTOLOGY_TEMPLATE, RISK_SOURCE, RISK_TEMPLATE,
};
use hazard_generator::toolchain::{
    CategoryData, HazardData, OutputFile, CATEGORY_TYPE, HAZARD_TYPE,
};
use hazard_generator::producer::Output;
use hazard_generator::{ErrorKind, HazardsProducer, TemplateType};

fn hazards() -> Vec<HazardData<'static>> {
    vec![
        HazardData::new("FireHazard", "May burn", "Safety", Some(7)),
        HazardData::new("PowerOutage", "May go dark", "Safety", None),
    ]
}

fn categories() -> Vec<CategoryData<'static>> {
    vec![CategoryData::new(
        "Safety",
        "Of people",
        vec!["FireHazard", "PowerOutage"],
    )]
}

#[test]
fn rust_has_two_templates() {
    let templates = Rust::get_templates();

    assert_eq!(templates[0], ("rs.ontology", ONTOLOGY_SOURCE));
    assert_eq!(templates[1], ("rs.risk", RISK_SOURCE));
    assert_eq!(ONTOLOGY_TEMPLATE, "rs.ontology");
    assert_eq!(RISK_TEMPLATE, "rs.risk");
    assert!(RISK_SOURCE.starts_with("{% extends \"rs.ontology\" %}"));
    assert!(ONTOLOGY_SOURCE.contains("{%- block fn_risk %}{% endblock %}"));
}

#[test]
fn rust_names_its_file_by_the_flag() {
    let _ = Rust::new();

    let plain = Rust::output_file(false);
    assert_eq!(plain.file_name, "ontology.rs");
    assert_eq!(plain.template_name, "rs.ontology");
    assert_eq!(OUTPUT_FILE, "ontology.rs");

    let with_risk = Rust::output_file(true);
    assert_eq!(with_risk.file_name, "ontology_with_risk.rs");
    assert_eq!(with_risk.template_name, "rs.risk");
    assert_eq!(OUTPUT_WITH_RISK_FILE, "ontology_with_risk.rs");
}

#[test]
fn base_template_renders_without_the_risk_template() {
    let env = build_environment(&Rust::get_templates(), false).unwrap();
    let template = Template::new(
        context(&hazards(), &categories()),
        Rust::output_file(false),
        env,
    );
    assert_eq!(template.output_file().file_name, "ontology.rs");

    let text = template.render().unwrap();

    assert!(text.contains("            Self::FireHazard => \"Fire Hazard\",\n"));
    assert!(text.contains("            Self::PowerOutage => \"May go dark.\",\n"));
    assert!(text.contains("            1 => Some(Self::PowerOutage),\n"));
    assert!(text.contains(
        "            Self::Safety => &[\n                Hazard::FireHazard,\n                Hazard::PowerOutage,\n            ],\n"
    ));
    assert!(!text.contains("risk_score"));
}

#[test]
fn risk_template_fills_the_blocks_of_the_base() {
    let env = build_environment(&Rust::get_templates(), true).unwrap();
    let template = Template::new(
        context(&hazards(), &categories()),
        Rust::output_file(true),
        env,
    );

    let text = template.render().unwrap();

    assert!(text.contains("    pub risk_score: Option<u8>,\n}"));
    assert!(text.contains("category: CategoryData<'a>, risk_score: Option<u8>) -> Self {"));
    assert!(text.contains("            category,\n            risk_score,\n        }"));
    assert!(text.contains("            Self::FireHazard => Some(7),\n"));
    assert!(text.contains("            Self::PowerOutage => None,\n"));
    // What the base template has no block for is left out.
    assert!(!text.contains("risk_score: self.risk_score(),"));
}

#[test]
fn base_template_renders_with_both_loaded() {
    let env = build_environment(&Rust::get_templates(), true).unwrap();
    let template = Template::new(
        context(&hazards(), &categories()),
        Rust::output_file(false),
        env,
    );

    let text = template.render().unwrap();

    assert!(!text.contains("risk_score"));
}

#[test]
fn risk_template_needs_to_be_loaded() {
    let env = build_environment(&Rust::get_templates(), false).unwrap();
    let template = Template::new(
        context(&hazards(), &categories()),
        Rust::output_file(true),
        env,
    );

    let error = template.render().unwrap_err();

    assert_eq!(error.kind(), ErrorKind::Template);
    assert!(error.error().starts_with("Template error: "));
}

#[test]
fn unknown_template_is_an_error() {
    let env = build_environment(&Rust::get_templates(), true).unwrap();
    let template = Template::new(
        context(&hazards(), &categories()),
        OutputFile::new("missing.rs", "rs.missing"),
        env,
    );

    assert_eq!(template.render().unwrap_err().kind(), ErrorKind::Template);
}

#[test]
fn template_that_does_not_parse_is_an_error() {
    let templates = [("broken", "{% for %}"), ("rs.risk", RISK_SOURCE)];

    let error = build_environment(&templates, false).err().unwrap();
    assert_eq!(error.kind(), ErrorKind::Template);

    let templates = [("rs.ontology", ONTOLOGY_SOURCE), ("broken", "{{ unclosed")];
    assert!(build_environment(&templates, false).is_ok());
    let error = build_environment(&templates, true).err().unwrap();
    assert_eq!(error.kind(), ErrorKind::Template);
}

#[test]
fn template_with_an_unknown_filter_is_an_error() {
    let templates = [("plain", "{{ hazards|no_such_filter }}"), ("other", "")];
    let env = build_environment(&templates, false).unwrap();
    let template = Template::new(
        context(&hazards(), &categories()),
        OutputFile::new("plain.txt", "plain"),
        env,
    );

    assert_eq!(template.render().unwrap_err().kind(), ErrorKind::Template);
}

#[test]
fn context_holds_hazards_and_categories() {
    let templates = [
        (
            "plain",
            "{% for h in hazards %}{{ h.name }}/{{ h.description }}/{{ h.category }}/{{ h.risk_score }};{% endfor %}|{% for c in categories %}{{ c.name|camelcase_to_whitespaces }}/{{ c.description }}/{{ c.hazards|length }}:{% for n in c.hazards %}{{ n }},{% endfor %};{% endfor %}",
        ),
        ("other", ""),
    ];
    let env = build_environment(&templates, false).unwrap();
    let hazards = vec![
        HazardData::new("FireHazard", "May burn", "SafetyFirst", Some(255)),
        HazardData::new("PowerOutage", "", "", None),
        HazardData::new("", "None", "x", Some(0)),
    ];
    let categories = vec![
        CategoryData::new("SafetyFirst", "Of people", vec!["FireHazard", "PowerOutage"]),
        CategoryData::new("Empty", "", Vec::new()),
    ];
    let template = Template::new(
        context(&hazards, &categories),
        OutputFile::new("plain.txt", "plain"),
        env,
    );

    assert_eq!(
        template.render().unwrap(),
        "FireHazard/May burn/SafetyFirst/255;PowerOutage///None;/None/x/0;|Safety First/Of people/2:FireHazard,PowerOutage,;Empty//0:;"
    );
}

#[test]
fn empty_context_renders_empty_enumerations() {
    let env = build_environment(&Rust::get_templates(), true).unwrap();
    let template = Template::new(
        context(&Vec::new(), &Vec::new()),
        Rust::output_file(true),
        env,
    );

    let text = template.render().unwrap();

    assert!(text.contains("pub enum Hazard {\n}"));
    assert!(text.contains("pub enum Category {\n}"));
    assert!(text.contains(
        "    pub const fn risk_score(&self) -> Option<u8> {\n        match self {\n        }\n    }"
    ));
}

#[test]
fn output_is_the_model_and_its_file() {
    let nodes = vec![
        NodeData {
            object_type: Some(HAZARD_TYPE),
            label: Some("Fire"),
            description: None,
            category: Some("x#Safety"),
            risk_score: None,
        },
        NodeData {
            object_type: Some(CATEGORY_TYPE),
            label: Some("Safety"),
            description: None,
            category: None,
            risk_score: None,
        },
    ];

    let output = Output::new(build(&nodes, false), OutputFile::new("a.rs", "a"));

    assert_eq!(output.file.file_name, "a.rs");
    assert_eq!(output.file.template_name, "a");
    assert_eq!(output.model.hazards.len(), 1);
    assert_eq!(output.model.categories[0].hazards, vec!["Fire"]);
}

#[test]
fn build_binds_the_model_to_the_templates() {
    let ontology = hazard_generator::ontology::open_ontology("{}").unwrap();

    let template = TemplateType::Rust.build(&ontology, true).unwrap();
    assert_eq!(template.output_file().file_name, "ontology_with_risk.rs");
    assert_eq!(template.output_file().template_name, "rs.risk");
    assert!(template.render().unwrap().contains("pub enum Hazard {\n}"));

    let generated = HazardsProducer::new()
        .generate(&ontology, TemplateType::Rust)
        .unwrap();
    assert_eq!(generated.file_name, "ontology.rs");
    assert!(generated.contents.contains("pub enum Category {\n}"));
}

#[test]
fn template_error_keeps_the_message_of_the_engine() {
    let mut engine = minijinja::Environment::new();
    let expected = engine
        .add_template("broken", "{% for %}")
        .unwrap_err()
        .to_string();
    let templates = [("broken", "{% for %}"), ("other", "")];

    let error = build_environment(&templates, false).err().unwrap();

    assert_eq!(error.kind(), ErrorKind::Template);
    assert!(!expected.is_empty());
    assert_eq!(error.info(), expected);
    assert_eq!(error.error(), format!("Template error: {expected}"));
}

#[test]
fn rendering_error_keeps_the_message_of_the_engine() {
    let engine = minijinja::Environment::new();
    let expected = engine.get_template("rs.missing").unwrap_err().to_string();
    let env = build_environment(&Rust::get_templates(), false).unwrap();
    let template = Template::new(
        context(&hazards(), &categories()),
        OutputFile::new("missing.rs", "rs.missing"),
        env,
    );

    let error = template.render().unwrap_err();

    assert_eq!(error.info(), expected);
    assert_eq!(error.error(), format!("Template error: {expected}"));
}
