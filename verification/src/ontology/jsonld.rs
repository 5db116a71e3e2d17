//! The items of json-ld that the reading of an ontology rests on.

use vstd::prelude::*;

use futures::executor;
use json_ld::object::Any;
use json_ld::syntax::parse::Error as ParseError;
use json_ld::syntax::Parse;
use json_ld::{Flatten, JsonLdProcessor, RemoteDocument};

use crate::text::text_of;

verus! {

/// `IriBuf` of iref: an IRI that owns its text. Nothing of it is read here.
#[verifier::external_type_specification]
#[verifier::external_body]
pub struct ExIriBuf(iref::IriBuf);

/// `BlankIdBuf` of rdf-types: the identifier of an anonymous node. Nothing
/// of it is read here.
#[verifier::external_type_specification]
#[verifier::external_body]
pub struct ExBlankIdBuf(rdf_types::BlankIdBuf);

/// `Indexed` of json-ld: a value with the index that the document may give
/// it. It is read through the functions below only.
#[verifier::external_type_specification]
#[verifier::external_body]
#[verifier::reject_recursive_types(T)]
pub struct ExIndexed<T>(json_ld::Indexed<T>);

/// `Node` of json-ld: a node object, with what stands under each of its
/// properties. It is read through the functions below only.
#[verifier::external_type_specification]
#[verifier::external_body]
#[verifier::reject_recursive_types(T)]
#[verifier::reject_recursive_types(B)]
pub struct ExNode<T, B>(json_ld::Node<T, B>);

/// `Value` of json-syntax: a JSON value. It is handed from the parsing to
/// the expansion and not read here.
#[verifier::external_type_specification]
#[verifier::external_body]
pub struct ExJsonValue(json_ld::syntax::Value);

/// `parse::Error` of json-syntax, imported under a name that sets it apart
/// from the error of this library: why a text is no JSON. Only its message
/// is read.
#[verifier::external_type_specification]
#[verifier::external_body]
#[verifier::reject_recursive_types(E)]
pub struct ExParseError<E>(ParseError<E>);

/// `ExpandedDocument` of json-ld: the result of the expansion. It is handed
/// to the flattening and not read here.
#[verifier::external_type_specification]
#[verifier::external_body]
#[verifier::reject_recursive_types(T)]
#[verifier::reject_recursive_types(B)]
pub struct ExExpandedDocument<T, B>(json_ld::ExpandedDocument<T, B>);

/// `ExpandError` of json-ld: why a document does not expand. Only its
/// message is read.
#[verifier::external_type_specification]
#[verifier::external_body]
#[verifier::reject_recursive_types(E)]
pub struct ExExpandError<E>(json_ld::ExpandError<E>);

/// `CannotLoad` of json-ld: the error of the loader that loads nothing.
#[verifier::external_type_specification]
#[verifier::external_body]
#[verifier::reject_recursive_types(I)]
pub struct ExCannotLoad<I>(json_ld::none::CannotLoad<I>);

/// `ConflictingIndexes` of json-ld: the error of a node that the document
/// gives two indexes. Only its message is read.
#[verifier::external_type_specification]
#[verifier::external_body]
#[verifier::reject_recursive_types(T)]
#[verifier::reject_recursive_types(B)]
pub struct ExConflictingIndexes<T, B>(json_ld::flattening::ConflictingIndexes<T, B>);

/// A node of a flattened ontology.
pub type OntologyNode = json_ld::Indexed<json_ld::Node<iref::IriBuf, rdf_types::BlankIdBuf>>;

/// A flattened ontology.
pub type Ontology = Vec<OntologyNode>;

/// The JSON value that `Parse::parse_str` of json-syntax reads from the
/// text; `None` of a text that is no JSON.
pub uninterp spec fn parsed_as(text: Seq<char>) -> Option<json_ld::syntax::Value>;

/// The document that `JsonLdProcessor::expand` of json-ld makes of a JSON
/// value without an address, with a loader that loads nothing; `None` of a
/// value that does not expand.
pub uninterp spec fn expanded_as(document: json_ld::syntax::Value) -> Option<
    json_ld::ExpandedDocument<iref::IriBuf, rdf_types::BlankIdBuf>,
>;

/// The nodes that `Flatten::flatten` of json-ld makes of an expanded
/// document, with anonymous nodes numbered from zero and the nodes ordered
/// by identifier; `None` of a document that gives one node two indexes.
pub uninterp spec fn flattened_as(
    expanded: json_ld::ExpandedDocument<iref::IriBuf, rdf_types::BlankIdBuf>,
) -> Option<Seq<OntologyNode>>;

/// `Parse::parse_str` of json-syntax on a `Value`: reads the text as one
/// JSON value, and fails on any other text. The value depends on the text
/// alone.
#[verifier::external_body]
pub(crate) fn parse_document(text: &str) -> (parsed: Result<
    json_ld::syntax::Value,
    ParseError<core::convert::Infallible>,
>)
    ensures
        match parsed {
            Ok(document) => parsed_as(text@) == Some(document),
            Err(_) => parsed_as(text@) is None,
        },
{
    json_ld::syntax::Value::parse_str(text).map(|parsed| parsed.0)
}

/// `JsonLdProcessor::expand` of json-ld on a document without an address,
/// with a loader that loads nothing, run to its end by `block_on` of
/// futures. The result depends on the value alone: the entries are taken
/// in the order of the document. `block_on` is not to be called from a
/// task that an executor of futures runs.
#[verifier::external_body]
pub(crate) fn expand_document(document: json_ld::syntax::Value) -> (expanded: Result<
    json_ld::ExpandedDocument<iref::IriBuf, rdf_types::BlankIdBuf>,
    json_ld::ExpandError<json_ld::none::CannotLoad<iref::IriBuf>>,
>)
    ensures
        match expanded {
            Ok(expanded) => expanded_as(document) == Some(expanded),
            Err(_) => expanded_as(document) is None,
        },
{
    let input: json_ld::RemoteDocument = RemoteDocument::new(None, None, document);
    let mut loader = json_ld::NoLoader;
    executor::block_on(input.expand(&mut loader))
}

/// `Flatten::flatten` of json-ld, with identifiers for anonymous nodes made
/// by `rdf_types::generator::Blank` and the nodes ordered by identifier.
/// The nodes depend on the expanded document alone: the generator counts
/// from zero, and what the maps inside hold is sorted before it leaves.
#[verifier::external_body]
pub(crate) fn flatten_document(
    expanded: json_ld::ExpandedDocument<iref::IriBuf, rdf_types::BlankIdBuf>,
) -> (flattened: Result<
    Ontology,
    json_ld::flattening::ConflictingIndexes<iref::IriBuf, rdf_types::BlankIdBuf>,
>)
    ensures
        match flattened {
            Ok(nodes) => flattened_as(expanded) == Some(nodes@),
            Err(_) => flattened_as(expanded) is None,
        },
{
    let generator = rdf_types::generator::Blank::new();
    expanded.flatten(generator, true)
}

/// What `Node::get_any` yields under the property written as `property`, where
/// that is a node with an identifier: the identifier.
pub uninterp spec fn reference_held(node: OntologyNode, property: Seq<char>) -> Option<Seq<char>>;

/// What `Node::get_any` yields under the property written as `property`, where
/// that is a value that holds a string: the string.
pub uninterp spec fn literal_held(node: OntologyNode, property: Seq<char>) -> Option<Seq<char>>;

/// What `Node::get_any` yields under the property written as `property`, where
/// that is a value that holds a string or a node identified by an IRI: the
/// string or the IRI.
pub uninterp spec fn text_held(node: OntologyNode, property: Seq<char>) -> Option<Seq<char>>;

/// What `Node::get_any` yields under the property written as `property`, where
/// that is a value that holds a number written as a `u32`: the number.
pub uninterp spec fn number_held(node: OntologyNode, property: Seq<char>) -> Option<u32>;

/// `Node::get_any`, then `Object::as_node`, `Any::id` and `Id::as_str` of
/// json-ld: the identifier of the node that stands under the property.
/// `None` where `property` is no IRI, where the node has nothing under it,
/// and where what it has is no node or has no identifier.
#[verifier::external_body]
pub(crate) fn reference_under<'a>(node: &'a OntologyNode, property: &str) -> (id: Option<&'a str>)
    ensures
        text_of(id) == reference_held(*node, property@),
{
    let property = iref::Iri::new(property).ok()?;
    node.get_any(&property)?.as_node()?.id().map(|id| id.as_str())
}

/// `Node::get_any`, then `Object::as_value` and `Value::as_str` of json-ld:
/// the string of the value that stands under the property. `None` where
/// `property` is no IRI, where the node has nothing under it, and where what
/// it has is no value or holds no string.
#[verifier::external_body]
pub(crate) fn literal_under<'a>(node: &'a OntologyNode, property: &str) -> (text: Option<&'a str>)
    ensures
        text_of(text) == literal_held(*node, property@),
{
    let property = iref::Iri::new(property).ok()?;
    node.get_any(&property)?.as_value()?.as_str()
}

/// `Node::get_any`, then `Object::as_str` of json-ld: the string of the
/// value, or the IRI of the node, that stands under the property. `None`
/// where `property` is no IRI, where the node has nothing under it, and
/// where what it has is neither.
#[verifier::external_body]
pub(crate) fn text_under<'a>(node: &'a OntologyNode, property: &str) -> (text: Option<&'a str>)
    ensures
        text_of(text) == text_held(*node, property@),
{
    let property = iref::Iri::new(property).ok()?;
    node.get_any(&property)?.as_str()
}

/// `Node::get_any`, then `Object::as_value`, `Value::as_number` and
/// `Number::as_u32` of json-ld and json-number: the number that stands
/// under the property. `None` where `property` is no IRI, where the node has
/// nothing under it, and where what it has is no number that reads as a
/// `u32`.
#[verifier::external_body]
pub(crate) fn number_under(node: &OntologyNode, property: &str) -> (number: Option<u32>)
    ensures
        number == number_held(*node, property@),
{
    let property = iref::Iri::new(property).ok()?;
    node.get_any(&property)?.as_value()?.as_number()?.as_u32()
}

} // verus!
