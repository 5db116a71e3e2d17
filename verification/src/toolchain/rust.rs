//! The Rust target: its templates and the file that it writes.

use vstd::prelude::*;

use crate::toolchain::rust_templates::{
    ONTOLOGY_SOURCE, ONTOLOGY_TEMPLATE, RISK_SOURCE, RISK_TEMPLATE,
};
use crate::toolchain::OutputFile;

verus! {

/// Name of the file that holds the hazards API.
pub const OUTPUT_FILE: &'static str = "ontology.rs";

/// Name of the file that holds the hazards API with risk scores.
pub const OUTPUT_WITH_RISK_FILE: &'static str = "ontology_with_risk.rs";

/// The two templates of the target go by different names.
pub proof fn lemma_template_names_differ()
    ensures
        ONTOLOGY_TEMPLATE@ != RISK_TEMPLATE@,
{
    reveal_strlit("rs.ontology");
    reveal_strlit("rs.risk");
    assert(ONTOLOGY_TEMPLATE@.len() == 11);
    assert(RISK_TEMPLATE@.len() == 7);
}

/// The Rust target.
pub struct Rust;

impl Rust {
    /// Creates the Rust target.
    pub fn new() -> Self {
        Self
    }

    /// The templates of the target: first the template of the API, then the
    /// one that extends it with risk scores.
    pub open spec fn templates() -> Seq<(Seq<char>, Seq<char>)> {
        seq![(ONTOLOGY_TEMPLATE@, ONTOLOGY_SOURCE@), (RISK_TEMPLATE@, RISK_SOURCE@)]
    }

    /// Returns the templates of the target, each with its name: first the
    /// template of the API, then the one that extends it with risk scores.
    pub fn get_templates() -> (templates: [(&'static str, &'static str); 2])
        ensures
            crate::toolchain::template_texts(templates@) == Self::templates(),
    {
        let templates = [(ONTOLOGY_TEMPLATE, ONTOLOGY_SOURCE), (RISK_TEMPLATE, RISK_SOURCE)];
        assert(crate::toolchain::template_texts(templates@) =~= Self::templates());
        templates
    }

    /// The file that the target writes and the template that fills it.
    pub open spec fn file(with_risk: bool) -> (Seq<char>, Seq<char>) {
        if with_risk {
            (OUTPUT_WITH_RISK_FILE@, RISK_TEMPLATE@)
        } else {
            (OUTPUT_FILE@, ONTOLOGY_TEMPLATE@)
        }
    }

    /// Returns the file that the target writes and the template that fills it.
    pub fn output_file(with_risk: bool) -> (file: OutputFile)
        ensures
            file@ == Self::file(with_risk),
    {
        match with_risk {
            true => OutputFile::new(OUTPUT_WITH_RISK_FILE, RISK_TEMPLATE),
            false => OutputFile::new(OUTPUT_FILE, ONTOLOGY_TEMPLATE),
        }
    }
}

} // verus!
