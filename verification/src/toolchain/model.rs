//! The model of an ontology: its hazards and its categories.

use vstd::prelude::*;

use crate::text::after_last_hash;
use crate::toolchain::index::CategoryIndex;
use crate::toolchain::node::{description, name, object_type, NodeData, NodeView};
use crate::toolchain::{
    create_hazard, is_category, is_hazard, lemma_types_differ, texts, CategoryData, CategoryView,
    HazardData, HazardView, CATEGORY_TYPE, HAZARD_TYPE,
};

verus! {

impl NodeView {
    /// Whether the node describes a hazard: its type is the hazard type,
    /// letter for letter.
    pub open spec fn is_hazard(self) -> bool {
        self.object_type == Some(HAZARD_TYPE@)
    }

    /// Whether the node describes a category: its type is the category type,
    /// letter for letter.
    pub open spec fn is_category(self) -> bool {
        self.object_type == Some(CATEGORY_TYPE@)
    }

    /// The hazard that the node describes.
    pub open spec fn hazard(self, with_risk: bool) -> HazardView {
        HazardView {
            name: self.name(),
            description: self.description_text(),
            category: self.category(),
            risk_score: self.risk_score_if(with_risk),
        }
    }

    /// The category that the node describes, with the given hazards.
    pub open spec fn category_with(self, hazards: Seq<Seq<char>>) -> CategoryView {
        CategoryView { name: self.name(), description: self.description_text(), hazards }
    }
}

/// The contents of the given nodes.
pub open spec fn node_views(nodes: Seq<NodeData>) -> Seq<NodeView> {
    nodes.map_values(|node: NodeData| node@)
}

/// The contents of the given hazards.
pub open spec fn hazard_views(hazards: Seq<HazardData>) -> Seq<HazardView> {
    hazards.map_values(|hazard: HazardData| hazard@)
}

/// The contents of the given categories.
pub open spec fn category_views(categories: Seq<CategoryData>) -> Seq<CategoryView> {
    categories.map_values(|category: CategoryData| category@)
}

/// The hazards that the nodes describe, in the order of the nodes.
pub open spec fn hazards_of(nodes: Seq<NodeView>, with_risk: bool) -> Seq<HazardView> {
    nodes.filter(|node: NodeView| node.is_hazard()).map_values(
        |node: NodeView| node.hazard(with_risk),
    )
}

/// The names of the hazards that name `category` as theirs, in the order of
/// the hazards.
pub open spec fn names_in(hazards: Seq<HazardView>, category: Seq<char>) -> Seq<Seq<char>> {
    hazards.filter(|hazard: HazardView| hazard.category == category).map_values(
        |hazard: HazardView| hazard.name,
    )
}

/// The categories that the nodes describe, in the order of the nodes, each
/// with the names of the hazards among `hazards` that name it.
pub open spec fn categories_with(nodes: Seq<NodeView>, hazards: Seq<HazardView>) -> Seq<
    CategoryView,
> {
    nodes.filter(|node: NodeView| node.is_category()).map_values(
        |node: NodeView| node.category_with(names_in(hazards, node.name())),
    )
}

/// The categories that the nodes describe, each with the names of the
/// hazards that the nodes describe under it.
pub open spec fn categories_of(nodes: Seq<NodeView>, with_risk: bool) -> Seq<CategoryView> {
    categories_with(nodes, hazards_of(nodes, with_risk))
}

/// The hazards and categories of an ontology.
#[derive(Debug)]
pub struct Model<'a> {
    /// Hazards, in the order of the ontology.
    pub hazards: Vec<HazardData<'a>>,
    /// Categories, in the order of the ontology.
    pub categories: Vec<CategoryData<'a>>,
}

/// The contents of a [`Model`].
pub struct ModelView {
    pub hazards: Seq<HazardView>,
    pub categories: Seq<CategoryView>,
}

impl<'a> View for Model<'a> {
    type V = ModelView;

    open spec fn view(&self) -> ModelView {
        ModelView {
            hazards: hazard_views(self.hazards@),
            categories: category_views(self.categories@),
        }
    }
}

/// The model that the nodes describe.
pub open spec fn model_of(nodes: Seq<NodeView>, with_risk: bool) -> ModelView {
    ModelView { hazards: hazards_of(nodes, with_risk), categories: categories_of(nodes, with_risk) }
}

/// One more hazard adds its name to the hazards of its own category, and to
/// those of no other.
pub proof fn lemma_names_in_push(hazards: Seq<HazardView>, hazard: HazardView, category: Seq<char>)
    ensures
        names_in(hazards.push(hazard), category) == if hazard.category == category {
            names_in(hazards, category).push(hazard.name)
        } else {
            names_in(hazards, category)
        },
{
    let of_category = |hazard: HazardView| hazard.category == category;
    let to_name = |hazard: HazardView| hazard.name;
    hazards.lemma_filter_push(hazard, of_category);
    if hazard.category == category {
        hazards.filter(of_category).lemma_push_map_commute(to_name, hazard);
    }
}

/// One more node adds the hazard that it describes, if it describes one.
pub proof fn lemma_hazards_of_push(nodes: Seq<NodeView>, node: NodeView, with_risk: bool)
    ensures
        hazards_of(nodes.push(node), with_risk) == if node.is_hazard() {
            hazards_of(nodes, with_risk).push(node.hazard(with_risk))
        } else {
            hazards_of(nodes, with_risk)
        },
{
    let hazard = |node: NodeView| node.is_hazard();
    let made = |node: NodeView| node.hazard(with_risk);
    nodes.lemma_filter_push(node, hazard);
    if node.is_hazard() {
        nodes.filter(hazard).lemma_push_map_commute(made, node);
    }
}

/// One more node adds the category that it describes, if it describes one.
pub proof fn lemma_categories_with_push(
    nodes: Seq<NodeView>,
    node: NodeView,
    hazards: Seq<HazardView>,
)
    ensures
        categories_with(nodes.push(node), hazards) == if node.is_category() {
            categories_with(nodes, hazards).push(
                node.category_with(names_in(hazards, node.name())),
            )
        } else {
            categories_with(nodes, hazards)
        },
{
    let category = |node: NodeView| node.is_category();
    let made = |node: NodeView| node.category_with(names_in(hazards, node.name()));
    nodes.lemma_filter_push(node, category);
    if node.is_category() {
        nodes.filter(category).lemma_push_map_commute(made, node);
    }
}

/// The model holds one hazard for each node of the hazard type and one
/// category for each node of the category type.
pub proof fn lemma_counts(nodes: Seq<NodeView>, with_risk: bool)
    ensures
        model_of(nodes, with_risk).hazards.len() == nodes.filter(
            |node: NodeView| node.is_hazard(),
        ).len(),
        model_of(nodes, with_risk).categories.len() == nodes.filter(
            |node: NodeView| node.is_category(),
        ).len(),
{
}

/// The category of a hazard is the part behind the last `#` of the
/// reference that its node holds, and empty where the node holds none.
pub proof fn lemma_hazard_category(node: NodeView, with_risk: bool)
    ensures
        node.hazard(with_risk).category == match node.category {
            Some(reference) => after_last_hash(reference),
            None => Seq::empty(),
        },
{
}

/// Without risk scores no hazard of the model has one.
pub proof fn lemma_without_risk(nodes: Seq<NodeView>, i: int)
    requires
        0 <= i < hazards_of(nodes, false).len(),
    ensures
        hazards_of(nodes, false)[i].risk_score is None,
{
}

/// With risk scores a hazard has the score that its node holds where that
/// fits in eight bits, and none where the node holds none or a larger one.
pub proof fn lemma_with_risk(node: NodeView)
    ensures
        node.hazard(true).risk_score == match node.risk_score {
            Some(score) => if score <= 255 {
                Some(score as u8)
            } else {
                None
            },
            None => None,
        },
{
}

/// Every category lists exactly the hazards that name it, in the order of
/// the hazards, each one once.
pub proof fn lemma_category_hazards(nodes: Seq<NodeView>, with_risk: bool, j: int)
    requires
        0 <= j < categories_of(nodes, with_risk).len(),
    ensures
        categories_of(nodes, with_risk)[j].hazards == hazards_of(nodes, with_risk).filter(
            |hazard: HazardView| hazard.category == categories_of(nodes, with_risk)[j].name,
        ).map_values(|hazard: HazardView| hazard.name),
{
}

/// A name among the hazards of a category is the name of a hazard that
/// names the category.
pub proof fn lemma_names_in_from(hazards: Seq<HazardView>, category: Seq<char>, name: Seq<char>)
    requires
        names_in(hazards, category).contains(name),
    ensures
        exists|i: int|
            0 <= i < hazards.len() && (#[trigger] hazards[i]).name == name && hazards[i].category
                == category,
    decreases hazards.len(),
{
    if hazards.len() == 0 {
        assert(names_in(hazards, category) =~= Seq::<Seq<char>>::empty());
    } else {
        let rest = hazards.drop_last();
        let last = hazards.last();
        assert(hazards =~= rest.push(last));
        lemma_names_in_push(rest, last, category);
        if last.category == category && last.name == name {
            assert(hazards[hazards.len() - 1].name == name);
        } else {
            let names = names_in(hazards, category);
            let at = choose|at: int| 0 <= at < names.len() && names[at] == name;
            assert(names_in(rest, category)[at] == name);
            lemma_names_in_from(rest, category, name);
            let i = choose|i: int|
                0 <= i < rest.len() && (#[trigger] rest[i]).name == name && rest[i].category
                    == category;
            assert(hazards[i] == rest[i]);
        }
    }
}

/// Where no two hazards have one name, no category lists a name twice.
pub proof fn lemma_no_name_twice(hazards: Seq<HazardView>, category: Seq<char>)
    requires
        forall|a: int, b: int| 0 <= a < b < hazards.len() ==> hazards[a].name != hazards[b].name,
    ensures
        names_in(hazards, category).no_duplicates(),
    decreases hazards.len(),
{
    if hazards.len() == 0 {
        assert(names_in(hazards, category) =~= Seq::<Seq<char>>::empty());
    } else {
        let rest = hazards.drop_last();
        let last = hazards.last();
        assert(hazards =~= rest.push(last));
        lemma_names_in_push(rest, last, category);
        lemma_no_name_twice(rest, category);
        if last.category == category && names_in(rest, category).contains(last.name) {
            lemma_names_in_from(rest, category, last.name);
            let i = choose|i: int|
                0 <= i < rest.len() && (#[trigger] rest[i]).name == last.name && rest[i].category
                    == category;
            assert(hazards[i].name == hazards[hazards.len() - 1].name);
        }
    }
}

/// A hazard whose category no category node has for its name is a hazard
/// of the model all the same, and stands among the hazards of no category.
pub proof fn lemma_dangling_hazard(nodes: Seq<NodeView>, with_risk: bool, i: int, j: int)
    requires
        0 <= i < nodes.len(),
        nodes[i].is_hazard(),
        forall|k: int|
            0 <= k < nodes.len() && (#[trigger] nodes[k]).is_category() ==> nodes[k].name()
                != nodes[i].category(),
        0 <= j < categories_of(nodes, with_risk).len(),
    ensures
        hazards_of(nodes, with_risk).contains(nodes[i].hazard(with_risk)),
        !hazards_of(nodes, with_risk).filter(
            |hazard: HazardView| hazard.category == categories_of(nodes, with_risk)[j].name,
        ).contains(nodes[i].hazard(with_risk)),
{
    let is_hazard = |node: NodeView| node.is_hazard();
    let is_category = |node: NodeView| node.is_category();
    let hazards = hazards_of(nodes, with_risk);
    let hazard = nodes[i].hazard(with_risk);

    nodes.lemma_filter_contains(is_hazard, i);
    let at = choose|at: int|
        0 <= at < nodes.filter(is_hazard).len() && nodes.filter(is_hazard)[at] == nodes[i];
    assert(hazards[at] == hazard);

    let head = nodes.filter(is_category)[j];
    assert(nodes.filter(is_category).contains(head));
    nodes.lemma_filter_contains_rev(is_category, head);
    nodes.lemma_filter_pred(is_category, j);
    let name = categories_of(nodes, with_risk)[j].name;
    assert(name == head.name());
    let of_category = |hazard: HazardView| hazard.category == name;
    if hazards.filter(of_category).contains(hazard) {
        let found = choose|found: int|
            0 <= found < hazards.filter(of_category).len() && hazards.filter(of_category)[found]
                == hazard;
        hazards.lemma_filter_pred(of_category, found);
    }
}

/// Builds the model of an ontology in one pass over its nodes: every node
/// of the hazard type gives a hazard, every node of the category type a
/// category, and each category gets the names of the hazards that name it.
pub fn build<'a>(nodes: &Vec<NodeData<'a>>, with_risk: bool) -> (model: Model<'a>)
    ensures
        model@ == model_of(node_views(nodes@), with_risk),
{
    let mut hazards: Vec<HazardData<'a>> = Vec::new();
    let mut categories: Vec<CategoryData<'a>> = Vec::new();
    let mut categories_hazards = CategoryIndex::new();

    let ghost all = node_views(nodes@);
    let ghost no_hazards = Seq::<HazardView>::empty();
    proof {
        assert(all.take(0) =~= Seq::<NodeView>::empty());
        assert(hazard_views(hazards@) =~= hazards_of(all.take(0), with_risk));
        assert(category_views(categories@) =~= categories_with(all.take(0), no_hazards));
        assert forall|category: Seq<char>| #[trigger]
            categories_hazards.names_under(category) == names_in(
                hazard_views(hazards@),
                category,
            ) by {
            assert(names_in(hazard_views(hazards@), category) =~= Seq::<Seq<char>>::empty());
        }
    }

    let mut i: usize = 0;
    while i < nodes.len()
        invariant
            i <= nodes.len(),
            all == node_views(nodes@),
            no_hazards == Seq::<HazardView>::empty(),
            categories_hazards.wf(),
            hazard_views(hazards@) == hazards_of(all.take(i as int), with_risk),
            category_views(categories@) == categories_with(all.take(i as int), no_hazards),
            forall|category: Seq<char>| #[trigger]
                categories_hazards.names_under(category) == names_in(
                    hazard_views(hazards@),
                    category,
                ),
        decreases nodes.len() - i,
    {
        let object = &nodes[i];
        proof {
            assert(all.take(i + 1) =~= all.take(i as int).push(object@));
            lemma_hazards_of_push(all.take(i as int), object@, with_risk);
            lemma_categories_with_push(all.take(i as int), object@, no_hazards);
            lemma_types_differ();
        }
        if let Some(object_type) = object_type(object) {
            let name = name(object);
            let description = description(object);

            if is_hazard(object_type) {
                // Create a new hazard.
                let hazard = create_hazard(object, name, description, with_risk);
                let ghost found = hazard_views(hazards@);
                let ghost before = categories_hazards;

                // Map hazard to its category.
                categories_hazards.add(hazard.category, name);

                hazards.push(hazard);
                proof {
                    assert(hazard_views(hazards@) =~= found.push(hazard@));
                    assert forall|category: Seq<char>| #[trigger]
                        categories_hazards.names_under(category) == names_in(
                            hazard_views(hazards@),
                            category,
                        ) by {
                        assert(before.names_under(category) == names_in(found, category));
                        lemma_names_in_push(found, hazard@, category);
                    }
                }
            } else if is_category(object_type) {
                let category = CategoryData::new(name, description, Vec::new());
                proof {
                    assert(names_in(no_hazards, object@.name()) =~= Seq::<Seq<char>>::empty());
                    assert(texts(Seq::<&str>::empty()) =~= Seq::<Seq<char>>::empty());
                    assert(category_views(categories@.push(category)) =~= category_views(
                        categories@,
                    ).push(category@));
                }
                categories.push(category);
            }
        }
        i = i + 1;
    }
    proof {
        assert(all.take(nodes.len() as int) =~= all);
    }

    // Set corresponding hazards for each category.
    let ghost heads = all.filter(|node: NodeView| node.is_category());
    let ghost found = hazard_views(hazards@);
    proof {
        assert(category_views(categories@).len() == heads.len());
        assert forall|j: int| 0 <= j < categories.len() implies (#[trigger] categories[j])@
            == heads[j].category_with(names_in(no_hazards, heads[j].name())) by {
            assert(category_views(categories@)[j] == categories[j]@);
        }
    }
    let mut k: usize = 0;
    while k < categories.len()
        invariant
            k <= categories.len(),
            categories_hazards.wf(),
            no_hazards == Seq::<HazardView>::empty(),
            heads == all.filter(|node: NodeView| node.is_category()),
            found == hazard_views(hazards@),
            categories.len() == heads.len(),
            forall|category: Seq<char>| #[trigger]
                categories_hazards.names_under(category) == names_in(found, category),
            forall|j: int|
                0 <= j < k ==> (#[trigger] categories[j])@ == heads[j].category_with(
                    names_in(found, heads[j].name()),
                ),
            forall|j: int|
                k <= j < categories.len() ==> (#[trigger] categories[j])@
                    == heads[j].category_with(names_in(no_hazards, heads[j].name())),
        decreases categories.len() - k,
    {
        let names = categories_hazards.names(categories[k].name);
        categories[k].hazards = names;
        k = k + 1;
    }
    let model = Model { hazards, categories };
    proof {
        assert(model@.categories =~= categories_of(all, with_risk));
    }
    model
}

} // verus!
