//! Reading of an ontology: a JSON-LD document, expanded and flattened into
//! a list of nodes.

pub mod jsonld;

use vstd::prelude::*;

use json_ld::syntax::parse::Error as ParseError;

use crate::error::{said_by, Error, ErrorKind, ErrorView};
use crate::toolchain::node::{NodeData, NodeView};
use jsonld::{
    expand_document, expanded_as, flatten_document, flattened_as, literal_held, literal_under,
    number_held, number_under, parse_document, parsed_as, reference_held, reference_under,
    text_held, text_under, Ontology, OntologyNode,
};

verus! {

/// The property that gives a node its type.
pub const TYPE: &'static str = "http://www.w3.org/1999/02/22-rdf-syntax-ns#type";

/// The property that gives a node its name.
pub const LABEL: &'static str = "http://www.w3.org/2000/01/rdf-schema#label";

/// The property that gives a node its description.
pub const DESCRIPTION: &'static str = "https://purl.org/sifis/hazards#description";

/// The property that refers a hazard to its category.
pub const HAS_CATEGORY: &'static str = "https://purl.org/sifis/hazards#hasCategory";

/// The property that gives a hazard its risk score.
pub const RISK_SCORE: &'static str = "https://purl.org/sifis/hazards#riskScore";

/// What the generator reads off a node: what the node holds under each of
/// the five properties.
pub open spec fn node_contents(node: OntologyNode) -> NodeView {
    NodeView {
        object_type: reference_held(node, TYPE@),
        label: literal_held(node, LABEL@),
        description: text_held(node, DESCRIPTION@),
        category: text_held(node, HAS_CATEGORY@),
        risk_score: number_held(node, RISK_SCORE@),
    }
}

/// The contents of the nodes of an ontology.
pub open spec fn ontology_contents(ontology: Seq<OntologyNode>) -> Seq<NodeView> {
    ontology.map_values(|node: OntologyNode| node_contents(node))
}

/// Reads off a node what the generator needs of it.
pub fn read_node<'a>(node: &'a OntologyNode) -> (data: NodeData<'a>)
    ensures
        data@ == node_contents(*node),
{
    NodeData {
        object_type: reference_under(node, TYPE),
        label: literal_under(node, LABEL),
        description: text_under(node, DESCRIPTION),
        category: text_under(node, HAS_CATEGORY),
        risk_score: number_under(node, RISK_SCORE),
    }
}

/// Reads off every node of an ontology what the generator needs of it.
pub fn read_nodes<'a>(ontology: &'a Ontology) -> (nodes: Vec<NodeData<'a>>)
    ensures
        crate::toolchain::model::node_views(nodes@) == ontology_contents(ontology@),
{
    let mut nodes: Vec<NodeData<'a>> = Vec::new();
    let mut i: usize = 0;
    while i < ontology.len()
        invariant
            i <= ontology.len(),
            nodes.len() == i,
            forall|j: int| 0 <= j < i ==> (#[trigger] nodes[j])@ == node_contents(ontology[j]),
        decreases ontology.len() - i,
    {
        nodes.push(read_node(&ontology[i]));
        i = i + 1;
    }
    assert(crate::toolchain::model::node_views(nodes@) =~= ontology_contents(ontology@));
    nodes
}

/// The nodes of the ontology that a text holds: the text parsed, the
/// document expanded and flattened. `None` where one of the three fails.
pub open spec fn nodes_of(text: Seq<char>) -> Option<Seq<OntologyNode>> {
    match parsed_as(text) {
        Some(document) => match expanded_as(document) {
            Some(expanded) => flattened_as(expanded),
            None => None,
        },
        None => None,
    }
}

/// Whether the error is one of the reading of an ontology: a JSON-LD error
/// whose details are what the parsing, the expansion or the flattening
/// said.
pub open spec fn reading_error(error: ErrorView) -> bool {
    &&& error.kind == ErrorKind::JsonLd
    &&& {
        ||| exists|cause: ParseError<core::convert::Infallible>| #[trigger] said_by(&cause, error.info)
        ||| exists|cause: json_ld::ExpandError<json_ld::none::CannotLoad<iref::IriBuf>>| #[trigger]
            said_by(&cause, error.info)
        ||| exists|
            cause: json_ld::flattening::ConflictingIndexes<iref::IriBuf, rdf_types::BlankIdBuf>,
        | #[trigger] said_by(&cause, error.info)
    }
}

/// Reads an ontology from the text of a JSON-LD document: parses the text,
/// expands the document and flattens it. A text that is no JSON, or a
/// document that does not expand or flatten, is a JSON-LD error.
pub fn open_ontology(text: &str) -> (ontology: Result<Ontology, Error>)
    ensures
        match ontology {
            Ok(nodes) => nodes_of(text@) == Some(nodes@),
            Err(error) => nodes_of(text@) is None && reading_error(error@),
        },
{
    // Parse the document.
    let document = match parse_document(text) {
        Ok(document) => document,
        Err(error) => {
            return Err(Error::of(ErrorKind::JsonLd, &error));
        },
    };

    // Expand the jsonld ontology.
    let expanded = match expand_document(document) {
        Ok(expanded) => expanded,
        Err(error) => {
            return Err(Error::of(ErrorKind::JsonLd, &error));
        },
    };

    // Flatten the jsonld ontology.
    match flatten_document(expanded) {
        Ok(ontology) => Ok(ontology),
        Err(error) => Err(Error::of(ErrorKind::JsonLd, &error)),
    }
}

} // verus!
