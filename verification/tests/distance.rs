use vector_distance::distance::{check_dimensions, Distance, VectorError};

#[test]
fn test_name_values() {
    assert_eq!(Distance::Euclidean.name(), "euclidean");
    assert_eq!(Distance::Manhattan.name(), "manhattan");
    assert_eq!(Distance::CosineSim.name(), "cosinesim");
}

#[test]
fn test_name_round_trip() {
    assert_eq!(
        Distance::from_name(Distance::Euclidean.name()),
        Some(Distance::Euclidean)
    );
    assert_eq!(
        Distance::from_name(Distance::Manhattan.name()),
        Some(Distance::Manhattan)
    );
    assert_eq!(
        Distance::from_name(Distance::CosineSim.name()),
        Some(Distance::CosineSim)
    );
}

#[test]
fn test_shorthand_names() {
    assert_eq!(Distance::from_name("e"), Some(Distance::Euclidean));
    assert_eq!(Distance::from_name("m"), Some(Distance::Manhattan));
    assert_eq!(Distance::from_name("c"), Some(Distance::CosineSim));
}

#[test]
fn test_case_insensitive_names() {
    assert_eq!(Distance::from_name("E"), Some(Distance::Euclidean));
    assert_eq!(Distance::from_name("M"), Some(Distance::Manhattan));
    assert_eq!(Distance::from_name("C"), Some(Distance::CosineSim));
    assert_eq!(Distance::from_name("Manhattan"), Some(Distance::Manhattan));
    assert_eq!(Distance::from_name("EUCLIDEAN"), Some(Distance::Euclidean));
    assert_eq!(Distance::from_name("CosineSim"), Some(Distance::CosineSim));
}

#[test]
fn test_unknown_name() {
    assert_eq!(Distance::from_name("bogus"), None);
    assert_eq!(Distance::from_name(""), None);
    assert_eq!(Distance::from_name("euclid"), None);
    assert_eq!(Distance::from_name("euclideans"), None);
}

#[test]
fn test_check_dimensions_match() {
    assert_eq!(check_dimensions(2, 2), Ok(()));
    assert_eq!(check_dimensions(0, 0), Ok(()));
}

#[test]
fn test_check_dimensions_mismatch() {
    assert_eq!(
        check_dimensions(2, 3),
        Err(VectorError::DimensionsMismatch {
            expected: 2,
            found: 3
        })
    );
    assert_eq!(
        check_dimensions(3, 2),
        Err(VectorError::DimensionsMismatch {
            expected: 3,
            found: 2
        })
    );
    assert_eq!(
        check_dimensions(0, 1),
        Err(VectorError::DimensionsMismatch {
            expected: 0,
            found: 1
        })
    );
}
