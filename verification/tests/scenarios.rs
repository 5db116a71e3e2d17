use hazard_generator::api::{Category, Hazard};
use hazard_generator::ontology::open_ontology;
use hazard_generator::{HazardsProducer, TemplateType};

const ONE_OF_EACH: &str = r#"{
  "@context": {
    "rdf": "http://www.w3.org/1999/02/22-rdf-syntax-ns#",
    "rdfs": "http://www.w3.org/2000/01/rdf-schema#",
    "sho": "https://purl.org/sifis/hazards#"
  },
  "@graph": [
    {
      "@id": "sho:Safety",
      "rdf:type": { "@id": "sho:Category" },
      "rdfs:label": "Safety",
      "sho:description": "Hazards to people and things."
    },
    {
      "@id": "sho:Fire",
      "rdf:type": { "@id": "sho:Hazard" },
      "rdfs:label": "Fire",
      "sho:description": "The execution may cause fire",
      "sho:hasCategory": { "@id": "sho:Safety" }
    }
  ]
}"#;

const ONE_OF_EACH_WITH_SCORE: &str = r#"{
  "@context": {
    "rdf": "http://www.w3.org/1999/02/22-rdf-syntax-ns#",
    "rdfs": "http://www.w3.org/2000/01/rdf-schema#",
    "sho": "https://purl.org/sifis/hazards#"
  },
  "@graph": [
    {
      "@id": "sho:Safety",
      "rdf:type": { "@id": "sho:Category" },
      "rdfs:label": "Safety",
      "sho:description": "Hazards to people and things."
    },
    {
      "@id": "sho:Fire",
      "rdf:type": { "@id": "sho:Hazard" },
      "rdfs:label": "Fire",
      "sho:description": "The execution may cause fire",
      "sho:hasCategory": { "@id": "sho:Safety" },
      "sho:riskScore": 7
    }
  ]
}"#;

const HAZARD_ALONE: &str = r#"{
  "@context": {
    "rdf": "http://www.w3.org/1999/02/22-rdf-syntax-ns#",
    "rdfs": "http://www.w3.org/2000/01/rdf-schema#",
    "sho": "https://purl.org/sifis/hazards#"
  },
  "@graph": [
    {
      "@id": "sho:Fire",
      "rdf:type": { "@id": "sho:Hazard" },
      "rdfs:label": "Fire",
      "sho:description": "The execution may cause fire",
      "sho:hasCategory": { "@id": "sho:Safety" }
    }
  ]
}"#;

#[test]
fn one_category_one_hazard() {
    let generated = HazardsProducer::new()
        .run(ONE_OF_EACH, TemplateType::Rust)
        .unwrap();

    assert_eq!(generated.file_name, "ontology.rs");
    assert!(generated.contents.contains(
        "pub enum Category {\n    /// Hazards to people and things.\n    Safety,\n}"
    ));
    assert!(generated.contents.contains(
        "pub enum Hazard {\n    /// The execution may cause fire.\n    Fire,\n}"
    ));
    assert!(generated
        .contents
        .contains("            Self::Fire => Category::Safety,\n"));
    assert!(generated
        .contents
        .contains("            Self::Safety => &[\n                Hazard::Fire,\n            ],\n"));
    assert!(!generated.contents.contains("fn risk_score"));
    assert!(!generated.contents.contains("risk_score"));
}

#[test]
fn one_category_one_hazard_in_the_model() {
    let ontology = open_ontology(ONE_OF_EACH).unwrap();
    let output = TemplateType::Rust.define(&ontology, false);
    let model = &output.model;

    assert_eq!(model.hazards.len(), 1);
    assert_eq!(model.categories.len(), 1);

    let fire = Hazard::from_id(model, 0).unwrap();
    let safety = Category::at(model, 0).unwrap();
    assert_eq!(fire.name(), "Fire");
    assert_eq!(safety.name(), "Safety");
    assert_eq!(fire.category().unwrap().name(), safety.name());
    assert_eq!(fire.risk_score(), None);
    assert!(Hazard::from_id(model, 1).is_none());
    assert!(Category::at(model, 1).is_none());
}

#[test]
fn risk_score_of_seven() {
    let generated = HazardsProducer::new()
        .with_risk(true)
        .run(ONE_OF_EACH_WITH_SCORE, TemplateType::Rust)
        .unwrap();

    assert_eq!(generated.file_name, "ontology_with_risk.rs");
    assert!(generated.contents.contains(
        "    pub const fn risk_score(&self) -> Option<u8> {\n        match self {\n            Self::Fire => Some(7),\n        }\n    }"
    ));

    let ontology = open_ontology(ONE_OF_EACH_WITH_SCORE).unwrap();
    let output = TemplateType::Rust.define(&ontology, true);
    let fire = Hazard::from_id(&output.model, 0).unwrap();
    assert_eq!(fire.risk_score(), Some(7));
}

#[test]
fn risk_score_left_unread() {
    let generated = HazardsProducer::new()
        .with_risk(false)
        .run(ONE_OF_EACH_WITH_SCORE, TemplateType::Rust)
        .unwrap();
    assert!(!generated.contents.contains("risk_score"));

    let ontology = open_ontology(ONE_OF_EACH_WITH_SCORE).unwrap();
    let output = TemplateType::Rust.define(&ontology, false);
    assert_eq!(output.model.hazards[0].risk_score, None);
}

#[test]
fn hazard_without_any_category() {
    let generated = HazardsProducer::new()
        .run(HAZARD_ALONE, TemplateType::Rust)
        .unwrap();

    assert!(generated.contents.contains(
        "pub enum Hazard {\n    /// The execution may cause fire.\n    Fire,\n}"
    ));
    assert!(generated.contents.contains("pub enum Category {\n}"));

    let ontology = open_ontology(HAZARD_ALONE).unwrap();
    let output = TemplateType::Rust.define(&ontology, false);
    assert_eq!(output.model.hazards.len(), 1);
    assert_eq!(output.model.hazards[0].name, "Fire");
    assert_eq!(output.model.hazards[0].category, "Safety");
    assert!(output.model.categories.is_empty());

    let fire = Hazard::from_id(&output.model, 0).unwrap();
    assert!(fire.category().is_none());
}
