use libedbo::{
    institutions_url, school_url, universities_url, university_url, InstitutionCategory, Region,
    UniversityCategory,
};

#[test]
fn universities_url_matches_the_template() {
    let url = universities_url(UniversityCategory::HigherEducationInstitutions, Region::KyivCity);
    assert_eq!(url, "https://registry.edbo.gov.ua/api/universities?ut=1&lc=80&exp=json");
}

#[test]
fn universities_url_keeps_parameter_order() {
    let url = universities_url(UniversityCategory::PostgraduateEducationInstitutions, Region::SumyOblast);
    assert_eq!(url, "https://registry.edbo.gov.ua/api/universities?ut=10&lc=59&exp=json");
}

#[test]
fn university_url_matches_the_template() {
    assert_eq!(university_url(1234), "https://registry.edbo.gov.ua/api/university?id=1234&exp=json");
    assert_eq!(university_url(1), "https://registry.edbo.gov.ua/api/university?id=1&exp=json");
}

#[test]
fn institutions_url_matches_the_template() {
    let url = institutions_url(
        InstitutionCategory::GeneralSecondaryEducationInstitutions,
        Region::LvivOblast,
    );
    assert_eq!(url, "https://registry.edbo.gov.ua/api/institutions?ut=3&lc=46&exp=json");
}

#[test]
fn school_url_matches_the_template() {
    assert_eq!(school_url(42), "https://registry.edbo.gov.ua/api/school?id=42&exp=json");
}
