use libedbo::{
    search_institutions, search_school, search_universities, search_university, Error,
    InstitutionCategory, Region, SearchParams, UniversityCategory,
};

#[test]
fn new_params_are_empty() {
    let p = SearchParams::new();
    assert_eq!(p.id, None);
    assert_eq!(p.region, None);
    assert_eq!(p.university_category, None);
    assert_eq!(p.institution_category, None);
}

#[test]
fn each_setter_populates_only_its_slot() {
    let p = SearchParams::new().with_id(7);
    assert_eq!(p.id, Some(7));
    assert_eq!(p.region, None);
    assert_eq!(p.university_category, None);
    assert_eq!(p.institution_category, None);

    let p = SearchParams::new().with_region(Region::KyivCity);
    assert_eq!(p.id, None);
    assert_eq!(p.region, Some(Region::KyivCity));
    assert_eq!(p.university_category, None);
    assert_eq!(p.institution_category, None);

    let p = SearchParams::new().with_university_category(
        UniversityCategory::HigherEducationInstitutions,
    );
    assert_eq!(p.id, None);
    assert_eq!(p.region, None);
    assert_eq!(p.university_category, Some(UniversityCategory::HigherEducationInstitutions));
    assert_eq!(p.institution_category, None);

    let p = SearchParams::new().with_institution_category(
        InstitutionCategory::GeneralSecondaryEducationInstitutions,
    );
    assert_eq!(p.id, None);
    assert_eq!(p.region, None);
    assert_eq!(p.university_category, None);
    assert_eq!(
        p.institution_category,
        Some(InstitutionCategory::GeneralSecondaryEducationInstitutions)
    );
}

#[test]
fn setters_compose_in_any_order() {
    let a = SearchParams::new().with_region(Region::LvivOblast).with_university_category(
        UniversityCategory::ScientificInstitutes,
    );
    let b = SearchParams::new()
        .with_university_category(UniversityCategory::ScientificInstitutes)
        .with_region(Region::LvivOblast);
    assert_eq!(a.id, b.id);
    assert_eq!(a.region, b.region);
    assert_eq!(a.university_category, b.university_category);
    assert_eq!(a.institution_category, b.institution_category);
    assert_eq!(a.region, Some(Region::LvivOblast));
    assert_eq!(a.university_category, Some(UniversityCategory::ScientificInstitutes));
}

#[test]
fn setters_overwrite_their_slot() {
    let p = SearchParams::new().with_id(1).with_id(2);
    assert_eq!(p.id, Some(2));
}

#[test]
fn default_params_are_empty() {
    let p = SearchParams::default();
    assert_eq!(p.id, None);
    assert_eq!(p.region, None);
    assert_eq!(p.university_category, None);
    assert_eq!(p.institution_category, None);
}

fn other_error_message(result_message: Option<String>, expected: &str) {
    match result_message {
        Some(m) => assert_eq!(m, expected),
        None => panic!("expected an input-validation error"),
    }
}

fn other_of_universities(p: SearchParams) -> Option<String> {
    match search_universities(p) {
        Err(Error::OtherError(m)) => Some(m),
        _ => None,
    }
}

fn other_of_university(p: SearchParams) -> Option<String> {
    match search_university(p) {
        Err(Error::OtherError(m)) => Some(m),
        _ => None,
    }
}

fn other_of_institutions(p: SearchParams) -> Option<String> {
    match search_institutions(p) {
        Err(Error::OtherError(m)) => Some(m),
        _ => None,
    }
}

fn other_of_school(p: SearchParams) -> Option<String> {
    match search_school(p) {
        Err(Error::OtherError(m)) => Some(m),
        _ => None,
    }
}

#[test]
fn universities_require_category_then_region() {
    other_error_message(
        other_of_universities(SearchParams::new()),
        "university_category cannot be None",
    );
    other_error_message(
        other_of_universities(SearchParams::new().with_region(Region::KyivCity)),
        "university_category cannot be None",
    );
    other_error_message(
        other_of_universities(
            SearchParams::new().with_university_category(
                UniversityCategory::HigherEducationInstitutions,
            ),
        ),
        "region cannot be None",
    );
}

#[test]
fn institutions_require_category_then_region() {
    other_error_message(
        other_of_institutions(SearchParams::new()),
        "institution_category cannot be None",
    );
    other_error_message(
        other_of_institutions(
            SearchParams::new().with_institution_category(
                InstitutionCategory::GeneralSecondaryEducationInstitutions,
            ),
        ),
        "region cannot be None",
    );
}

#[test]
fn university_requires_a_positive_id() {
    other_error_message(other_of_university(SearchParams::new()), "id cannot be None");
    other_error_message(
        other_of_university(SearchParams::new().with_id(0)),
        "University ID must be positive",
    );
    other_error_message(
        other_of_university(SearchParams::new().with_id(-1)),
        "University ID must be positive",
    );
}

#[test]
fn school_requires_a_positive_id() {
    other_error_message(other_of_school(SearchParams::new()), "id cannot be None");
    other_error_message(other_of_school(SearchParams::new().with_id(0)), "School ID must be positive");
    other_error_message(
        other_of_school(SearchParams::new().with_id(-1)),
        "School ID must be positive",
    );
}

#[test]
fn validation_error_messages_render() {
    let missing = Error::OtherError(String::from("id cannot be None"));
    assert_eq!(missing.message(), "Error: id cannot be None");
}
