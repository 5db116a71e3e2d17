//! What the generated API says of a model: the hazards and categories as
//! the enumerations of the generated file present them.
//!
//! The generated file declares one variant for each hazard and each
//! category of the model. A hazard is identified by its place among the
//! hazards, names are shown as words, and references between hazards and
//! categories go by name.

use vstd::prelude::*;
use vstd::string::StringExecFns;

use crate::filters::{camelcase_to_whitespaces, spaced};
use crate::text::same_text;
use crate::toolchain::model::{lemma_names_in_push, model_of, names_in, Model, ModelView};
use crate::toolchain::node::NodeView;
use crate::toolchain::{CategoryView, HazardView};

verus! {

/// The number of hazards that have an identifier: identifiers are 16 bits wide.
pub open spec fn identified(model: ModelView) -> int {
    if model.hazards.len() <= u16::MAX {
        model.hazards.len() as int
    } else {
        u16::MAX + 1
    }
}

/// The place of the first hazard of the given name at or behind `from`,
/// among the hazards that have an identifier.
pub open spec fn hazard_named(model: ModelView, name: Seq<char>, from: int) -> Option<int>
    decreases identified(model) - from,
{
    if from < 0 || from >= identified(model) {
        None
    } else if model.hazards[from].name == name {
        Some(from)
    } else {
        hazard_named(model, name, from + 1)
    }
}

/// The place of the first category of the given name at or behind `from`.
pub open spec fn category_named(model: ModelView, name: Seq<char>, from: int) -> Option<int>
    decreases model.categories.len() - from,
{
    if from < 0 || from >= model.categories.len() {
        None
    } else if model.categories[from].name == name {
        Some(from)
    } else {
        category_named(model, name, from + 1)
    }
}

/// The hazards that the names stand for, in the order of the names; a name
/// that no hazard has stands for none.
pub open spec fn hazards_named(model: ModelView, names: Seq<Seq<char>>) -> Seq<int> {
    names.filter_map(|name: Seq<char>| hazard_named(model, name, 0))
}

/// The places of the hazards before `end` that name `category` as theirs, in
/// rising order.
pub open spec fn places_in(hazards: Seq<HazardView>, category: Seq<char>, end: int) -> Seq<int>
    decreases end,
{
    if end <= 0 {
        Seq::empty()
    } else if hazards[end - 1].category == category {
        places_in(hazards, category, end - 1).push(end - 1)
    } else {
        places_in(hazards, category, end - 1)
    }
}

/// No two hazards of the model have one name, and each has an identifier.
pub open spec fn hazards_differ(model: ModelView) -> bool {
    &&& model.hazards.len() <= u16::MAX + 1
    &&& forall|a: int, b: int|
        0 <= a < b < model.hazards.len() ==> model.hazards[a].name != model.hazards[b].name
}

/// No two categories of the model have one name.
pub open spec fn categories_differ(model: ModelView) -> bool {
    forall|a: int, b: int|
        0 <= a < b < model.categories.len() ==> model.categories[a].name
            != model.categories[b].name
}

/// Every category of the model lists the names of the hazards that name it,
/// as the model of an ontology does.
pub open spec fn lists_agree(model: ModelView) -> bool {
    forall|j: int|
        0 <= j < model.categories.len() ==> (#[trigger] model.categories[j]).hazards == names_in(
            model.hazards,
            model.categories[j].name,
        )
}

/// In the model of an ontology every category lists the names of the
/// hazards that name it.
pub proof fn lemma_model_lists_agree(nodes: Seq<NodeView>, with_risk: bool)
    ensures
        lists_agree(model_of(nodes, with_risk)),
{
}

/// Where no two hazards have one name, the name of a hazard stands for that
/// hazard.
pub proof fn lemma_hazard_named(model: ModelView, place: int, from: int)
    requires
        hazards_differ(model),
        0 <= from <= place < model.hazards.len(),
    ensures
        hazard_named(model, model.hazards[place].name, from) == Some(place),
    decreases place - from,
{
    if from < place {
        lemma_hazard_named(model, place, from + 1);
    }
}

/// Where no two categories have one name, the name of a category stands for
/// that category.
pub proof fn lemma_category_named(model: ModelView, place: int, from: int)
    requires
        categories_differ(model),
        0 <= from <= place < model.categories.len(),
    ensures
        category_named(model, model.categories[place].name, from) == Some(place),
    decreases place - from,
{
    if from < place {
        lemma_category_named(model, place, from + 1);
    }
}

/// A name that stands for a category is the name of that category.
pub proof fn lemma_category_found(model: ModelView, name: Seq<char>, from: int)
    requires
        category_named(model, name, from) is Some,
    ensures
        from <= category_named(model, name, from)->0 < model.categories.len(),
        model.categories[category_named(model, name, from)->0].name == name,
    decreases model.categories.len() - from,
{
    if 0 <= from < model.categories.len() && model.categories[from].name != name {
        lemma_category_found(model, name, from + 1);
    }
}

/// The places of the hazards that name a category are the places, before
/// `end`, of the hazards with that category.
pub proof fn lemma_places_in(hazards: Seq<HazardView>, category: Seq<char>, end: int, place: int)
    requires
        0 <= end <= hazards.len(),
    ensures
        places_in(hazards, category, end).contains(place) <==> 0 <= place < end
            && hazards[place].category == category,
    decreases end,
{
    if end > 0 {
        lemma_places_in(hazards, category, end - 1, place);
        let rest = places_in(hazards, category, end - 1);
        if hazards[end - 1].category == category {
            let all = rest.push(end - 1);
            assert(all[rest.len() as int] == end - 1);
            if all.contains(place) && place != end - 1 {
                let at = choose|at: int| 0 <= at < all.len() && all[at] == place;
                assert(rest[at] == place);
            }
            if rest.contains(place) {
                let at = choose|at: int| 0 <= at < rest.len() && rest[at] == place;
                assert(all[at] == place);
            }
        }
    }
}

/// Where no two hazards have one name, the names of the hazards of a
/// category stand for those hazards.
pub proof fn lemma_names_stand_for_places(model: ModelView, category: Seq<char>, end: int)
    requires
        hazards_differ(model),
        0 <= end <= model.hazards.len(),
    ensures
        hazards_named(model, names_in(model.hazards.take(end), category)) == places_in(
            model.hazards,
            category,
            end,
        ),
    decreases end,
{
    let stands_for = |name: Seq<char>| hazard_named(model, name, 0);
    if end == 0 {
        assert(names_in(model.hazards.take(0), category) =~= Seq::<Seq<char>>::empty());
    } else {
        let before = model.hazards.take(end - 1);
        let last = model.hazards[end - 1];
        lemma_names_stand_for_places(model, category, end - 1);
        assert(model.hazards.take(end) =~= before.push(last));
        lemma_names_in_push(before, last, category);
        if last.category == category {
            let names = names_in(before, category);
            lemma_hazard_named(model, end - 1, 0);
            assert(names.push(last.name).drop_last() =~= names);
            assert(names.push(last.name).filter_map(stands_for) =~= names.filter_map(
                stands_for,
            ).push(end - 1));
        }
    }
}

/// The two references of the generated API agree: where no two hazards and
/// no two categories have one name, a category lists a hazard if and only
/// if it is the category of that hazard.
pub proof fn lemma_references_agree(model: ModelView, hazard: int, category: int)
    requires
        hazards_differ(model),
        categories_differ(model),
        lists_agree(model),
        0 <= hazard < model.hazards.len(),
        0 <= category < model.categories.len(),
    ensures
        hazards_named(model, model.categories[category].hazards).contains(hazard)
            <==> category_named(model, model.hazards[hazard].category, 0) == Some(category),
{
    let name = model.categories[category].name;
    lemma_names_stand_for_places(model, name, model.hazards.len() as int);
    assert(model.hazards.take(model.hazards.len() as int) =~= model.hazards);
    lemma_places_in(model.hazards, name, model.hazards.len() as int, hazard);
    lemma_category_named(model, category, 0);
    if category_named(model, model.hazards[hazard].category, 0) == Some(category) {
        lemma_category_found(model, model.hazards[hazard].category, 0);
    }
}

/// A hazard of a model.
#[derive(Debug, Clone, Copy)]
pub struct Hazard<'m, 'a> {
    model: &'m Model<'a>,
    id: u16,
}

/// A category of a model.
#[derive(Debug, Clone, Copy)]
pub struct Category<'m, 'a> {
    model: &'m Model<'a>,
    place: usize,
}

impl<'m, 'a> Hazard<'m, 'a> {
    #[verifier::type_invariant]
    spec fn in_model(self) -> bool {
        self.id < self.model.hazards.len()
    }

    /// The model that the hazard belongs to.
    pub closed spec fn model(self) -> ModelView {
        self.model@
    }

    /// The identifier of the hazard: its place among the hazards of the model.
    pub closed spec fn place(self) -> int {
        self.id as int
    }

    /// The hazard as the model holds it.
    pub open spec fn data(self) -> HazardView {
        self.model().hazards[self.place()]
    }

    /// Returns an [`Hazard`] from an integer identifier.
    ///
    /// The value is [`None`] whenever the identifier does not exist.
    pub fn from_id(model: &'m Model<'a>, id: u16) -> (hazard: Option<Self>)
        ensures
            hazard is Some <==> id < model@.hazards.len(),
            hazard matches Some(hazard) ==> hazard.model() == model@ && hazard.place() == id,
    {
        if (id as usize) < model.hazards.len() {
            Some(Hazard { model, id })
        } else {
            None
        }
    }

    /// Returns the identifier associated with an [`Hazard`].
    pub fn id(&self) -> (id: u16)
        ensures
            id == self.place(),
            id < self.model().hazards.len(),
    {
        proof {
            use_type_invariant(self);
        }
        self.id
    }

    /// Returns an [`Hazard`] name: the name of the model, as words.
    pub fn name(&self) -> (name: String)
        ensures
            name@ == spaced(self.data().name),
    {
        proof {
            use_type_invariant(self);
        }
        camelcase_to_whitespaces(self.model.hazards[self.id as usize].name)
    }

    /// Returns an [`Hazard`] description: the description of the model and
    /// a full stop.
    pub fn description(&self) -> (description: String)
        ensures
            description@ == self.data().description + "."@,
    {
        proof {
            use_type_invariant(self);
        }
        String::from_str(self.model.hazards[self.id as usize].description).concat(".")
    }

    /// Returns the [`Category`] associated with an [`Hazard`]: the first
    /// category of the name that the hazard gives for its category, and
    /// none where no category has that name.
    pub fn category(&self) -> (category: Option<Category<'m, 'a>>)
        ensures
            match category {
                Some(category) => category.model() == self.model() && category_named(
                    self.model(),
                    self.data().category,
                    0,
                ) == Some(category.place()),
                None => category_named(self.model(), self.data().category, 0) is None,
            },
    {
        proof {
            use_type_invariant(self);
        }
        let name = self.model.hazards[self.id as usize].category;
        let mut place: usize = 0;
        while place < self.model.categories.len()
            invariant
                place <= self.model.categories.len(),
                name@ == self.data().category,
                category_named(self.model@, name@, 0) == category_named(
                    self.model@,
                    name@,
                    place as int,
                ),
            decreases self.model.categories.len() - place,
        {
            assert(self.model@.categories[place as int] == self.model.categories[place as int]@);
            if same_text(self.model.categories[place].name, name) {
                return Some(Category { model: self.model, place });
            }
            place = place + 1;
        }
        None
    }

    /// Returns an [`Hazard`] risk score.
    pub fn risk_score(&self) -> (risk_score: Option<u8>)
        ensures
            risk_score == self.data().risk_score,
    {
        proof {
            use_type_invariant(self);
        }
        self.model.hazards[self.id as usize].risk_score
    }
}

impl<'m, 'a> Category<'m, 'a> {
    #[verifier::type_invariant]
    spec fn in_model(self) -> bool {
        self.place < self.model.categories.len()
    }

    /// The model that the category belongs to.
    pub closed spec fn model(self) -> ModelView {
        self.model@
    }

    /// The place of the category among the categories of the model.
    pub closed spec fn place(self) -> int {
        self.place as int
    }

    /// The category as the model holds it.
    pub open spec fn data(self) -> CategoryView {
        self.model().categories[self.place()]
    }

    /// Returns the category at the given place of the model.
    ///
    /// The value is [`None`] whenever the model has no category there.
    pub fn at(model: &'m Model<'a>, place: usize) -> (category: Option<Self>)
        ensures
            category is Some <==> place < model@.categories.len(),
            category matches Some(category) ==> category.model() == model@ && category.place()
                == place,
    {
        if place < model.categories.len() {
            Some(Category { model, place })
        } else {
            None
        }
    }

    /// Returns a [`Category`] name: the name of the model, as words.
    pub fn name(&self) -> (name: String)
        ensures
            name@ == spaced(self.data().name),
    {
        proof {
            use_type_invariant(self);
        }
        camelcase_to_whitespaces(self.model.categories[self.place].name)
    }

    /// Returns a [`Category`] description.
    pub fn description(&self) -> (description: &'a str)
        ensures
            description@ == self.data().description,
    {
        proof {
            use_type_invariant(self);
        }
        self.model.categories[self.place].description
    }

    /// Finds the first hazard of the given name among those with an identifier.
    fn find_hazard(&self, name: &str) -> (found: Option<u16>)
        ensures
            match found {
                Some(id) => hazard_named(self.model(), name@, 0) == Some(id as int) && id
                    < self.model().hazards.len(),
                None => hazard_named(self.model(), name@, 0) is None,
            },
    {
        let mut id: u16 = 0;
        loop
            invariant
                id <= identified(self.model@),
                hazard_named(self.model@, name@, 0) == hazard_named(self.model@, name@, id as int),
            decreases identified(self.model@) - id,
        {
            if (id as usize) >= self.model.hazards.len() {
                return None;
            }
            if same_text(self.model.hazards[id as usize].name, name) {
                return Some(id);
            }
            if id == u16::MAX {
                return None;
            }
            id = id + 1;
        }
    }

    /// Returns all [`Hazard`]s associated with a [`Category`]: for each
    /// name that the category lists, the first hazard of that name.
    pub fn hazards(&self) -> (hazards: Vec<Hazard<'m, 'a>>)
        ensures
            hazards@.map_values(|hazard: Hazard| hazard.place()) == hazards_named(
                self.model(),
                self.data().hazards,
            ),
            forall|i: int| 0 <= i < hazards.len() ==> (#[trigger] hazards[i]).model() == self.model(),
    {
        proof {
            use_type_invariant(self);
        }
        let names = &self.model.categories[self.place].hazards;
        let ghost listed = self.data().hazards;
        let mut hazards: Vec<Hazard<'m, 'a>> = Vec::new();
        let mut i: usize = 0;
        assert(listed.take(0) =~= Seq::<Seq<char>>::empty());
        while i < names.len()
            invariant
                i <= names.len(),
                listed == self.data().hazards,
                listed == crate::toolchain::texts(names@),
                hazards@.map_values(|hazard: Hazard| hazard.place()) == hazards_named(
                    self.model(),
                    listed.take(i as int),
                ),
                forall|j: int|
                    0 <= j < hazards.len() ==> (#[trigger] hazards[j]).model() == self.model(),
            decreases names.len() - i,
        {
            let ghost before = hazards@;
            proof {
                assert(listed.take(i + 1).drop_last() =~= listed.take(i as int));
                assert(listed.take(i + 1).last() == names[i as int]@);
            }
            match self.find_hazard(names[i]) {
                Some(id) => {
                    let hazard = Hazard { model: self.model, id };
                    hazards.push(hazard);
                    assert(hazards@.map_values(|hazard: Hazard| hazard.place()) =~= before.map_values(
                        |hazard: Hazard| hazard.place(),
                    ) + seq![id as int]);
                },
                None => {},
            }
            i = i + 1;
        }
        assert(listed.take(names.len() as int) =~= listed);
        hazards
    }
}

} // verus!
