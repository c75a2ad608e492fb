use telemetry_core::registry::Algorithm;
use telemetry_core::registry::AlgorithmType;

#[test]
fn values_are_in_registration_order() {
    let values = Algorithm::values();
    assert_eq!(
        values,
        vec![
            Algorithm::Dijkstra,
            Algorithm::Johnson,
            Algorithm::Prim,
            Algorithm::RucksackPTAS,
            Algorithm::RucksackFPTAS,
        ]
    );
    assert_eq!(Algorithm::all(), values);
}

#[test]
fn names_are_display_names() {
    assert_eq!(Algorithm::Dijkstra.name(), "Dijkstra");
    assert_eq!(Algorithm::Johnson.name(), "Johnson");
    assert_eq!(Algorithm::Prim.name(), "Prim");
    assert_eq!(Algorithm::RucksackPTAS.name(), "Rucksack-PTAS");
    assert_eq!(Algorithm::RucksackFPTAS.name(), "Rucksack-FPTAS");
}

#[test]
fn filter_graph_is_exactly_the_graph_algorithms() {
    assert_eq!(
        Algorithm::filter(AlgorithmType::Graph),
        vec![Algorithm::Dijkstra, Algorithm::Johnson, Algorithm::Prim]
    );
}

#[test]
fn filter_approximation_is_exactly_the_approximation_algorithms() {
    assert_eq!(
        Algorithm::filter(AlgorithmType::Approximation),
        vec![Algorithm::RucksackPTAS, Algorithm::RucksackFPTAS]
    );
}

#[test]
fn all_is_the_union_of_the_filters_in_registration_order() {
    let mut union = Algorithm::filter(AlgorithmType::Graph);
    union.extend(Algorithm::filter(AlgorithmType::Approximation));
    assert_eq!(Algorithm::all(), union);
}

#[test]
fn identifier_round_trips_through_lookup() {
    for a in Algorithm::values() {
        assert_eq!(Algorithm::from_identifier(a.identifier()), Some(a));
    }
}

#[test]
fn lookup_rejects_unknown_and_differently_cased_identifiers() {
    assert_eq!(Algorithm::from_identifier("bogus"), None);
    assert_eq!(Algorithm::from_identifier("Dijkstra"), None);
    assert_eq!(Algorithm::from_identifier(""), None);
    assert_eq!(Algorithm::from_identifier("dijkstr"), None);
    assert_eq!(Algorithm::from_identifier("dijkstraa"), None);
}

#[test]
fn is_type_matches_the_category_split() {
    assert!(Algorithm::Dijkstra.is_type(AlgorithmType::Graph));
    assert!(Algorithm::Johnson.is_type(AlgorithmType::Graph));
    assert!(Algorithm::Prim.is_type(AlgorithmType::Graph));
    assert!(!Algorithm::RucksackPTAS.is_type(AlgorithmType::Graph));
    assert!(!Algorithm::RucksackFPTAS.is_type(AlgorithmType::Graph));
    assert!(!Algorithm::Dijkstra.is_type(AlgorithmType::Approximation));
    assert!(!Algorithm::Johnson.is_type(AlgorithmType::Approximation));
    assert!(!Algorithm::Prim.is_type(AlgorithmType::Approximation));
    assert!(Algorithm::RucksackPTAS.is_type(AlgorithmType::Approximation));
    assert!(Algorithm::RucksackFPTAS.is_type(AlgorithmType::Approximation));
}

#[test]
fn categories_hold_exactly_the_carried_tags() {
    assert_eq!(Algorithm::Prim.categories(), vec![AlgorithmType::Graph]);
    assert_eq!(
        Algorithm::RucksackFPTAS.categories(),
        vec![AlgorithmType::Approximation]
    );
}
