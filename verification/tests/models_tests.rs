use cortex::models::{
    role_of_candidate, role_of_extension, select_models, Candidate, ModelRole, Selection,
    DEFAULT_GRAPH_NAME,
};

fn file(extension: Option<&str>) -> Candidate {
    Candidate { is_file: true, extension: extension.map(|e| e.to_string()) }
}

fn directory(extension: Option<&str>) -> Candidate {
    Candidate { is_file: false, extension: extension.map(|e| e.to_string()) }
}

#[test]
fn default_graph_name() {
    assert_eq!(DEFAULT_GRAPH_NAME, "output_graph.pb");
}

#[test]
fn extensions_have_their_roles() {
    assert_eq!(role_of_extension(&"pb".to_string()), Some(ModelRole::Graph));
    assert_eq!(role_of_extension(&"pbmm".to_string()), Some(ModelRole::Graph));
    assert_eq!(role_of_extension(&"scorer".to_string()), Some(ModelRole::Scorer));
    assert_eq!(role_of_extension(&"txt".to_string()), None);
    assert_eq!(role_of_extension(&"".to_string()), None);
    assert_eq!(role_of_extension(&"PB".to_string()), None);
    assert_eq!(role_of_extension(&"pbm".to_string()), None);
    assert_eq!(role_of_extension(&"scorers".to_string()), None);
}

#[test]
fn only_regular_files_have_a_role() {
    assert_eq!(role_of_candidate(&file(Some("pb"))), Some(ModelRole::Graph));
    assert_eq!(role_of_candidate(&directory(Some("pb"))), None);
    assert_eq!(role_of_candidate(&file(None)), None);
    assert_eq!(role_of_candidate(&directory(None)), None);
}

#[test]
fn empty_listing_selects_nothing() {
    assert_eq!(select_models(&vec![]), Selection { graph: None, scorer: None });
}

#[test]
fn graph_and_scorer_are_found() {
    let listing = vec![file(Some("txt")), file(Some("scorer")), file(Some("pbmm")), file(None)];
    assert_eq!(select_models(&listing), Selection { graph: Some(2), scorer: Some(1) });
}

#[test]
fn last_entry_of_a_role_wins() {
    let listing = vec![
        file(Some("pb")),
        file(Some("scorer")),
        file(Some("pbmm")),
        file(Some("scorer")),
        file(Some("md")),
    ];
    assert_eq!(select_models(&listing), Selection { graph: Some(2), scorer: Some(3) });
}

#[test]
fn directories_are_passed_over() {
    let listing = vec![file(Some("pb")), directory(Some("pbmm")), directory(Some("scorer"))];
    assert_eq!(select_models(&listing), Selection { graph: Some(0), scorer: None });
}

#[test]
fn listing_without_models_selects_nothing() {
    let listing = vec![file(Some("txt")), file(None), directory(None)];
    assert_eq!(select_models(&listing), Selection { graph: None, scorer: None });
}
