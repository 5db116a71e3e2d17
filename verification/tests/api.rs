use hazard_generator::api::{Category, Hazard};
use hazard_generator::toolchain::model::{build, Model};
use hazard_generator::toolchain::node::NodeData;
use hazard_generator::toolchain::{CategoryData, HazardData, CATEGORY_TYPE, HAZARD_TYPE};

fn hazard<'a>(label: &'a str, reference: &'a str, score: Option<u32>) -> NodeData<'a> {
    NodeData {
        object_type: Some(HAZARD_TYPE),
        label: Some(label),
        description: Some("May happen"),
        category: Some(reference),
        risk_score: score,
    }
}

fn category<'a>(label: &'a str) -> NodeData<'a> {
    NodeData {
        object_type: Some(CATEGORY_TYPE),
        label: Some(label),
        description: Some("A category."),
        category: None,
        risk_score: None,
    }
}

fn model() -> Model<'static> {
    build(
        &vec![
            category("SafetyFirst"),
            hazard("FireHazard", "x#SafetyFirst", Some(7)),
            hazard("PowerOutage", "x#Financial", Some(300)),
            category("Financial"),
            hazard("WaterFlooding", "x#SafetyFirst", None),
            hazard("Lost", "x#Nowhere", Some(1)),
        ],
        true,
    )
}

#[test]
fn hazards_are_identified_by_their_place() {
    let model = model();

    for id in 0..4 {
        let hazard = Hazard::from_id(&model, id).unwrap();
        assert_eq!(hazard.id(), id);
    }
    assert!(Hazard::from_id(&model, 4).is_none());
    assert!(Hazard::from_id(&model, u16::MAX).is_none());
}

#[test]
fn hazard_shows_its_name_as_words() {
    let model = model();

    assert_eq!(Hazard::from_id(&model, 0).unwrap().name(), "Fire Hazard");
    assert_eq!(Hazard::from_id(&model, 1).unwrap().name(), "Power Outage");
    assert_eq!(Hazard::from_id(&model, 3).unwrap().name(), "Lost");
}

#[test]
fn hazard_description_ends_in_a_full_stop() {
    let model = model();

    assert_eq!(Hazard::from_id(&model, 0).unwrap().description(), "May happen.");
}

#[test]
fn hazard_risk_score_is_that_of_the_model() {
    let model = model();

    assert_eq!(Hazard::from_id(&model, 0).unwrap().risk_score(), Some(7));
    assert_eq!(Hazard::from_id(&model, 1).unwrap().risk_score(), None);
    assert_eq!(Hazard::from_id(&model, 2).unwrap().risk_score(), None);
    assert_eq!(Hazard::from_id(&model, 3).unwrap().risk_score(), Some(1));
}

#[test]
fn hazard_refers_to_its_category_by_name() {
    let model = model();

    let of_fire = Hazard::from_id(&model, 0).unwrap().category().unwrap();
    assert_eq!(of_fire.name(), "Safety First");
    assert_eq!(of_fire.description(), "A category.");
    let of_outage = Hazard::from_id(&model, 1).unwrap().category().unwrap();
    assert_eq!(of_outage.name(), "Financial");
    assert!(Hazard::from_id(&model, 3).unwrap().category().is_none());
}

#[test]
fn category_lists_its_hazards() {
    let model = model();

    let safety = Category::at(&model, 0).unwrap();
    let ids: Vec<u16> = safety.hazards().iter().map(|hazard| hazard.id()).collect();
    assert_eq!(ids, vec![0, 2]);
    let financial = Category::at(&model, 1).unwrap();
    let ids: Vec<u16> = financial.hazards().iter().map(|hazard| hazard.id()).collect();
    assert_eq!(ids, vec![1]);
    assert!(Category::at(&model, 2).is_none());
}

#[test]
fn category_lists_the_first_hazard_of_a_name() {
    let model = Model {
        hazards: vec![
            HazardData::new("Fire", "One", "Safety", None),
            HazardData::new("Fire", "Two", "Safety", None),
        ],
        categories: vec![CategoryData::new(
            "Safety",
            "",
            vec!["Fire", "Unknown", "Fire"],
        )],
    };

    let safety = Category::at(&model, 0).unwrap();
    let ids: Vec<u16> = safety.hazards().iter().map(|hazard| hazard.id()).collect();

    assert_eq!(ids, vec![0, 0]);
    assert_eq!(safety.description(), "");
}

#[test]
fn hazard_refers_to_the_first_category_of_a_name() {
    let model = Model {
        hazards: vec![HazardData::new("Fire", "", "Safety", None)],
        categories: vec![
            CategoryData::new("Other", "Zero", Vec::new()),
            CategoryData::new("Safety", "One", Vec::new()),
            CategoryData::new("Safety", "Two", Vec::new()),
        ],
    };

    let category = Hazard::from_id(&model, 0).unwrap().category().unwrap();

    assert_eq!(category.description(), "One");
    assert!(category.hazards().is_empty());
}

#[test]
fn empty_model_has_no_hazards() {
    let model = build(&Vec::new(), false);

    assert!(Hazard::from_id(&model, 0).is_none());
    assert!(Category::at(&model, 0).is_none());
}

#[test]
fn only_hazards_with_an_identifier_are_listed() {
    let names: Vec<String> = (0..=65536).map(|place| format!("H{place}")).collect();
    let model = Model {
        hazards: names
            .iter()
            .map(|name| HazardData::new(name, "", "Safety", None))
            .collect(),
        categories: vec![CategoryData::new(
            "Safety",
            "",
            vec!["H65536", "H65535", "H0"],
        )],
    };

    let last = Hazard::from_id(&model, u16::MAX).unwrap();
    assert_eq!(last.id(), 65535);
    assert_eq!(last.name(), "H65535");

    let safety = Category::at(&model, 0).unwrap();
    let ids: Vec<u16> = safety.hazards().iter().map(|hazard| hazard.id()).collect();
    assert_eq!(ids, vec![65535, 0]);
}
