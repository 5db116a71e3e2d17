use json_ld::syntax::Parse;

use hazard_generator::ontology::{open_ontology, read_node, read_nodes};
use hazard_generator::{ErrorKind, HazardsProducer, TemplateType};

const CONTEXT: &str = r#""@context": {
    "rdf": "http://www.w3.org/1999/02/22-rdf-syntax-ns#",
    "rdfs": "http://www.w3.org/2000/01/rdf-schema#",
    "sho": "https://purl.org/sifis/hazards#"
  }"#;

fn document(nodes: &str) -> String {
    format!("{{\n  {CONTEXT},\n  \"@graph\": [{nodes}]\n}}")
}

#[test]
fn node_of_a_hazard_is_read() {
    let text = document(
        r#"{
      "@id": "sho:FireHazard",
      "rdf:type": { "@id": "sho:Hazard" },
      "rdfs:label": "FireHazard",
      "sho:description": "The execution may cause fire",
      "sho:hasCategory": { "@id": "sho:Safety" },
      "sho:riskScore": 7
    }"#,
    );
    let ontology = open_ontology(&text).unwrap();
    assert_eq!(ontology.len(), 1);

    let node = read_node(&ontology[0]);

    assert_eq!(node.object_type, Some("https://purl.org/sifis/hazards#Hazard"));
    assert_eq!(node.label, Some("FireHazard"));
    assert_eq!(node.description, Some("The execution may cause fire"));
    assert_eq!(node.category, Some("https://purl.org/sifis/hazards#Safety"));
    assert_eq!(node.risk_score, Some(7));
}

#[test]
fn node_without_the_properties_is_read_as_empty() {
    let text = document(
        r#"{
      "@id": "sho:Thing",
      "sho:other": "value"
    }"#,
    );
    let ontology = open_ontology(&text).unwrap();
    assert_eq!(ontology.len(), 1);

    let node = read_node(&ontology[0]);

    assert_eq!(node.object_type, None);
    assert_eq!(node.label, None);
    assert_eq!(node.description, None);
    assert_eq!(node.category, None);
    assert_eq!(node.risk_score, None);
}

#[test]
fn type_is_read_from_the_property_only() {
    let text = document(
        r#"{
      "@id": "sho:Keyword",
      "@type": "sho:Hazard",
      "rdfs:label": "Keyword"
    },
    {
      "@id": "sho:Literal",
      "rdf:type": "https://purl.org/sifis/hazards#Hazard",
      "rdfs:label": "Literal"
    }"#,
    );
    let ontology = open_ontology(&text).unwrap();
    let nodes = read_nodes(&ontology);

    assert_eq!(nodes.len(), 2);
    assert_eq!(nodes[0].label, Some("Keyword"));
    assert_eq!(nodes[0].object_type, None);
    assert_eq!(nodes[1].label, Some("Literal"));
    assert_eq!(nodes[1].object_type, None);
}

#[test]
fn label_is_a_string_and_description_any_text() {
    let text = document(
        r#"{
      "@id": "sho:A",
      "rdfs:label": { "@value": "Feu", "@language": "fr" },
      "sho:description": { "@id": "sho:Elsewhere" },
      "sho:hasCategory": "plain#Text"
    },
    {
      "@id": "sho:B",
      "rdfs:label": { "@id": "sho:NotAString" },
      "sho:description": 12,
      "sho:hasCategory": true
    }"#,
    );
    let ontology = open_ontology(&text).unwrap();
    let nodes = read_nodes(&ontology);

    assert_eq!(nodes.len(), 2);
    assert_eq!(nodes[0].label, Some("Feu"));
    assert_eq!(nodes[0].description, Some("https://purl.org/sifis/hazards#Elsewhere"));
    assert_eq!(nodes[0].category, Some("plain#Text"));
    assert_eq!(nodes[1].label, None);
    assert_eq!(nodes[1].description, None);
    assert_eq!(nodes[1].category, None);
}

#[test]
fn risk_score_is_a_number_that_reads_as_u32() {
    let text = document(
        r#"{ "@id": "sho:A", "sho:riskScore": 0 },
    { "@id": "sho:B", "sho:riskScore": 300 },
    { "@id": "sho:C", "sho:riskScore": 4294967295 },
    { "@id": "sho:D", "sho:riskScore": 4294967296 },
    { "@id": "sho:E", "sho:riskScore": -1 },
    { "@id": "sho:F", "sho:riskScore": 7.5 },
    { "@id": "sho:G", "sho:riskScore": "7" },
    { "@id": "sho:H", "sho:riskScore": "" },
    { "@id": "sho:I", "sho:riskScore": { "@id": "sho:Seven" } }"#,
    );
    let ontology = open_ontology(&text).unwrap();
    let nodes = read_nodes(&ontology);

    let scores: Vec<Option<u32>> = nodes.iter().map(|node| node.risk_score).collect();
    assert_eq!(
        scores,
        vec![Some(0), Some(300), Some(4294967295), None, None, None, None, None, None]
    );
}

#[test]
fn nodes_come_ordered_by_identifier() {
    let text = document(
        r#"{ "@id": "sho:C", "rdfs:label": "C" },
    { "@id": "sho:A", "rdfs:label": "A" },
    { "@id": "sho:B", "rdfs:label": "B" }"#,
    );
    let ontology = open_ontology(&text).unwrap();
    let nodes = read_nodes(&ontology);

    let labels: Vec<Option<&str>> = nodes.iter().map(|node| node.label).collect();
    assert_eq!(labels, vec![Some("A"), Some("B"), Some("C")]);
}

#[test]
fn nested_node_becomes_a_node_of_its_own() {
    let text = document(
        r#"{
      "@id": "sho:Fire",
      "rdf:type": { "@id": "sho:Hazard" },
      "rdfs:label": "Fire",
      "sho:hasCategory": {
        "@id": "sho:Safety",
        "rdf:type": { "@id": "sho:Category" },
        "rdfs:label": "Safety"
      }
    }"#,
    );
    let ontology = open_ontology(&text).unwrap();
    let output = TemplateType::Rust.define(&ontology, false);

    assert_eq!(output.model.hazards.len(), 1);
    assert_eq!(output.model.hazards[0].category, "Safety");
    assert_eq!(output.model.categories.len(), 1);
    assert_eq!(output.model.categories[0].name, "Safety");
    assert_eq!(output.model.categories[0].hazards, vec!["Fire"]);
}

#[test]
fn empty_document_is_an_empty_ontology() {
    let ontology = open_ontology("{}").unwrap();
    assert!(ontology.is_empty());

    let ontology = open_ontology("[]").unwrap();
    assert!(ontology.is_empty());
}

#[test]
fn text_that_is_no_json_is_refused() {
    for text in ["", "{", "not json", "{\"a\": }", "[1, 2"] {
        let error = open_ontology(text).unwrap_err();
        assert_eq!(error.kind(), ErrorKind::JsonLd);
        assert!(error.error().starts_with("JSON-LD error: "));
    }
}

#[test]
fn document_that_does_not_expand_is_refused() {
    // A context that would have to be loaded.
    let error = open_ontology(r#"{ "@context": "https://example.org/context.jsonld", "a": 1 }"#)
        .unwrap_err();
    assert_eq!(error.kind(), ErrorKind::JsonLd);

    // A keyword with a value that it cannot have.
    let error = open_ontology(r#"{ "@id": 12 }"#).unwrap_err();
    assert_eq!(error.kind(), ErrorKind::JsonLd);
}

#[test]
fn node_with_two_indexes_is_refused() {
    let text = r#"{
  "@graph": [
    { "@id": "https://example.org/a", "@index": "one", "https://example.org/p": 1 },
    { "@id": "https://example.org/a", "@index": "two", "https://example.org/q": 2 }
  ]
}"#;

    let error = open_ontology(text).unwrap_err();

    assert_eq!(error.kind(), ErrorKind::JsonLd);
    assert_eq!(
        error.error(),
        "JSON-LD error: Index `one` conflicts with index `two`"
    );
}

#[test]
fn run_reports_the_error_of_the_reading() {
    let error = HazardsProducer::new()
        .run("{", TemplateType::Rust)
        .unwrap_err();
    assert_eq!(error.kind(), ErrorKind::JsonLd);

    let producer = HazardsProducer::new();
    assert_eq!(producer.open_ontology("[").unwrap_err().kind(), ErrorKind::JsonLd);
    assert!(producer.open_ontology("{}").unwrap().is_empty());
}

#[test]
fn reading_error_keeps_the_message_of_the_parser() {
    let expected = json_ld::syntax::Value::parse_str("{\"a\": }")
        .unwrap_err()
        .to_string();

    let error = open_ontology("{\"a\": }").unwrap_err();

    assert!(!expected.is_empty());
    assert_eq!(error.info(), expected);
    assert_eq!(error.error(), format!("JSON-LD error: {expected}"));
}

#[test]
fn same_text_gives_the_same_nodes() {
    let text = document(
        r#"{ "@id": "sho:B", "rdfs:label": "B", "sho:riskScore": 3 },
    { "rdfs:label": "anonymous" },
    { "@id": "sho:A", "rdfs:label": "A", "sho:hasCategory": { "@id": "sho:B" } }"#,
    );

    let first = open_ontology(&text).unwrap();
    let second = open_ontology(&text).unwrap();

    assert_eq!(first, second);
    let labels: Vec<Option<&str>> = read_nodes(&first).iter().map(|node| node.label).collect();
    assert_eq!(labels, vec![Some("anonymous"), Some("A"), Some("B")]);
}
