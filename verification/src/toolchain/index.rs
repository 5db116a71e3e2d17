//! The hazards of each category, collected while the ontology is scanned.
//!
//! vstd has no key model for string slices, so nothing can be proved of a
//! hash map that is keyed by them: the index keeps its categories and their
//! hazards in two vectors, and its invariant says that no category stands
//! twice.

use vstd::prelude::*;

use crate::text::same_text;
use crate::toolchain::texts;

verus! {

/// Maps the name of a category to the names of its hazards, in the order in
/// which they were added.
pub struct CategoryIndex<'a> {
    categories: Vec<&'a str>,
    hazards: Vec<Vec<&'a str>>,
}

impl<'a> CategoryIndex<'a> {
    /// Every category has its list of hazards, and no category stands twice.
    pub closed spec fn wf(&self) -> bool {
        &&& self.categories.len() == self.hazards.len()
        &&& forall|i: int, j: int|
            0 <= i < j < self.categories.len() ==> self.categories[i]@ != self.categories[j]@
    }

    /// Whether `category` is one of the first `end` categories of the index.
    closed spec fn has(&self, category: Seq<char>, end: int) -> bool {
        exists|i: int| 0 <= i < end && self.categories[i]@ == category
    }

    /// The place of `category` in the index.
    closed spec fn place(&self, category: Seq<char>) -> int {
        choose|i: int| 0 <= i < self.categories.len() && self.categories[i]@ == category
    }

    /// The categories of the index, each with the names of its hazards.
    pub closed spec fn view(&self) -> Map<Seq<char>, Seq<Seq<char>>> {
        Map::new(
            |category: Seq<char>| self.has(category, self.categories.len() as int),
            |category: Seq<char>| texts(self.hazards[self.place(category)]@),
        )
    }

    /// The names of the hazards under `category`: none where the index does
    /// not hold the category.
    pub open spec fn names_under(&self, category: Seq<char>) -> Seq<Seq<char>> {
        if self@.dom().contains(category) {
            self@[category]
        } else {
            Seq::empty()
        }
    }

    /// In a well-formed index a category stands at one place only.
    proof fn lemma_place(&self, category: Seq<char>, i: int)
        requires
            self.wf(),
            0 <= i < self.categories.len(),
            self.categories[i]@ == category,
        ensures
            self.place(category) == i,
            self.has(category, self.categories.len() as int),
            self@.dom().contains(category),
            self@[category] == texts(self.hazards[i]@),
    {
        let j = self.place(category);
        assert(0 <= j < self.categories.len() && self.categories[j]@ == category);
        if j < i {
            assert(self.categories[j]@ != self.categories[i]@);
        } else if i < j {
            assert(self.categories[i]@ != self.categories[j]@);
        }
    }

    /// A category of the index stands at its place.
    proof fn lemma_held(&self, category: Seq<char>)
        requires
            self@.dom().contains(category),
        ensures
            0 <= self.place(category) < self.categories.len(),
            self.categories[self.place(category)]@ == category,
            self@[category] == texts(self.hazards[self.place(category)]@),
    {
    }

    /// Creates an empty index.
    pub fn new() -> (index: Self)
        ensures
            index.wf(),
            index@ == Map::<Seq<char>, Seq<Seq<char>>>::empty(),
    {
        let index = CategoryIndex { categories: Vec::new(), hazards: Vec::new() };
        assert(index@ =~= Map::<Seq<char>, Seq<Seq<char>>>::empty());
        index
    }

    /// Finds the place of a category.
    fn find(&self, category: &str) -> (found: Option<usize>)
        requires
            self.wf(),
        ensures
            match found {
                Some(i) => i < self.categories.len() && self.categories[i as int]@ == category@
                    && self.place(category@) == i,
                None => !self.has(category@, self.categories.len() as int),
            },
    {
        let mut i: usize = 0;
        while i < self.categories.len()
            invariant
                self.wf(),
                i <= self.categories.len(),
                !self.has(category@, i as int),
            decreases self.categories.len() - i,
        {
            if same_text(self.categories[i], category) {
                proof {
                    self.lemma_place(category@, i as int);
                }
                return Some(i);
            }
            i = i + 1;
        }
        None
    }

    /// Adds the hazard `name` to the end of the hazards of `category`.
    pub fn add(&mut self, category: &'a str, name: &'a str)
        requires
            old(self).wf(),
        ensures
            final(self).wf(),
            final(self)@ == old(self)@.insert(
                category@,
                old(self).names_under(category@).push(name@),
            ),
    {
        let ghost added = old(self).names_under(category@).push(name@);
        match self.find(category) {
            Some(i) => {
                let mut names = Vec::new();
                std::mem::swap(&mut names, &mut self.hazards[i]);
                names.push(name);
                self.hazards[i] = names;
                proof {
                    old(self).lemma_place(category@, i as int);
                    assert(texts(self.hazards[i as int]@) =~= added);
                    assert(self.wf());
                    assert forall|c: Seq<char>| #[trigger] self@.dom().contains(c) implies old(
                        self,
                    )@.insert(category@, added).dom().contains(c) by {
                        let j = self.place(c);
                        old(self).lemma_place(c, j);
                    }
                    assert forall|c: Seq<char>| #[trigger]
                        old(self)@.insert(category@, added).dom().contains(c) implies self@.dom().contains(
                        c,
                    ) && self@[c] == old(self)@.insert(category@, added)[c] by {
                        if c == category@ {
                            self.lemma_place(c, i as int);
                        } else {
                            old(self).lemma_held(c);
                            let j = old(self).place(c);
                            self.lemma_place(c, j);
                        }
                    }
                }
            },
            None => {
                self.categories.push(category);
                let mut names = Vec::new();
                names.push(name);
                self.hazards.push(names);
                proof {
                    let last = old(self).categories.len() as int;
                    assert(texts(self.hazards[last]@) =~= added);
                    assert forall|i: int| 0 <= i < last implies self.categories[i]@
                        != category@ by {
                        if old(self).categories[i]@ == category@ {
                            assert(old(self).has(category@, last));
                        }
                    }
                    assert(self.wf());
                    assert forall|c: Seq<char>| #[trigger] self@.dom().contains(c) implies old(
                        self,
                    )@.insert(category@, added).dom().contains(c) by {
                        let j = self.place(c);
                        if j < last {
                            old(self).lemma_place(c, j);
                        }
                    }
                    assert forall|c: Seq<char>| #[trigger]
                        old(self)@.insert(category@, added).dom().contains(c) implies self@.dom().contains(
                        c,
                    ) && self@[c] == old(self)@.insert(category@, added)[c] by {
                        if c == category@ {
                            self.lemma_place(c, last);
                        } else {
                            old(self).lemma_held(c);
                            let j = old(self).place(c);
                            self.lemma_place(c, j);
                        }
                    }
                }
            },
        }
        assert(self@ =~= old(self)@.insert(category@, added));
    }

    /// Returns the names of the hazards under `category`, in the order in
    /// which they were added: none where the category was never added to.
    pub fn names(&self, category: &str) -> (names: Vec<&'a str>)
        requires
            self.wf(),
        ensures
            texts(names@) == self.names_under(category@),
    {
        let mut names = Vec::new();
        match self.find(category) {
            Some(i) => {
                let found = &self.hazards[i];
                let mut k: usize = 0;
                while k < found.len()
                    invariant
                        k <= found.len(),
                        names@ == found@.take(k as int),
                    decreases found.len() - k,
                {
                    names.push(found[k]);
                    assert(found@.take(k + 1) =~= found@.take(k as int).push(found[k as int]));
                    k = k + 1;
                }
                assert(found@.take(found.len() as int) =~= found@);
            },
            None => {
                assert(texts(names@) =~= Seq::<Seq<char>>::empty());
            },
        }
        names
    }
}

} // verus!
