//! What the generator reads off a node of the ontology.

use vstd::prelude::*;

use crate::text::{after_last_hash, fragment, lemma_empty_text, or_empty, text_of};

verus! {

/// The values that one node of a flattened ontology holds under the
/// properties that the generator reads.
#[derive(Debug, Clone, Copy)]
pub struct NodeData<'a> {
    /// Identifier of the node's type.
    pub object_type: Option<&'a str>,
    /// Label.
    pub label: Option<&'a str>,
    /// Description.
    pub description: Option<&'a str>,
    /// Reference to the category of a hazard.
    pub category: Option<&'a str>,
    /// Risk score of a hazard.
    pub risk_score: Option<u32>,
}

/// The contents of a [`NodeData`].
pub struct NodeView {
    pub object_type: Option<Seq<char>>,
    pub label: Option<Seq<char>>,
    pub description: Option<Seq<char>>,
    pub category: Option<Seq<char>>,
    pub risk_score: Option<u32>,
}

impl<'a> View for NodeData<'a> {
    type V = NodeView;

    open spec fn view(&self) -> NodeView {
        NodeView {
            object_type: text_of(self.object_type),
            label: text_of(self.label),
            description: text_of(self.description),
            category: text_of(self.category),
            risk_score: self.risk_score,
        }
    }
}

impl NodeView {
    /// The name of the node: its label, empty where it has none.
    pub open spec fn name(self) -> Seq<char> {
        or_empty(self.label)
    }

    /// The description of the node, empty where it has none.
    pub open spec fn description_text(self) -> Seq<char> {
        or_empty(self.description)
    }

    /// The name of the category that the node refers to: the fragment of
    /// the reference, empty where the node has none.
    pub open spec fn category(self) -> Seq<char> {
        after_last_hash(or_empty(self.category))
    }

    /// The risk score of the node, where it holds one that fits in eight bits.
    pub open spec fn risk_score(self) -> Option<u8> {
        match self.risk_score {
            Some(score) if score <= u8::MAX => Some(score as u8),
            _ => None,
        }
    }

    /// The risk score that a hazard made from the node gets.
    pub open spec fn risk_score_if(self, with_risk: bool) -> Option<u8> {
        if with_risk {
            self.risk_score()
        } else {
            None
        }
    }
}

/// Retrieves object type.
pub fn object_type<'a>(object: &NodeData<'a>) -> (object_type: Option<&'a str>)
    ensures
        text_of(object_type) == object@.object_type,
{
    object.object_type
}

/// Extracts the name from an ontology object.
pub fn name<'a>(object_value: &NodeData<'a>) -> (name: &'a str)
    ensures
        name@ == object_value@.name(),
{
    proof {
        lemma_empty_text();
    }
    match object_value.label {
        Some(label) => label,
        None => "",
    }
}

/// Extracts the description from an ontology object.
pub fn description<'a>(object_value: &NodeData<'a>) -> (description: &'a str)
    ensures
        description@ == object_value@.description_text(),
{
    proof {
        lemma_empty_text();
    }
    match object_value.description {
        Some(description) => description,
        None => "",
    }
}

/// Extracts the category of an ontology hazard object.
pub fn category<'a>(object_value: &NodeData<'a>) -> (category: &'a str)
    ensures
        category@ == object_value@.category(),
{
    proof {
        lemma_empty_text();
    }
    let reference = match object_value.category {
        Some(reference) => reference,
        None => "",
    };
    fragment(reference)
}

/// Extracts the risk score of an ontology hazard object.
pub fn risk_score(object_value: &NodeData) -> (risk_score: Option<u8>)
    ensures
        risk_score == object_value@.risk_score(),
{
    match object_value.risk_score {
        Some(score) => if score <= 255 {
            Some(score as u8)
        } else {
            None
        },
        None => None,
    }
}

} // verus!
