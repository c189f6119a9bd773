use libedbo::{InstitutionCategory, Region, UniversityCategory};

#[test]
fn region_renders_its_decimal_code() {
    assert_eq!(Region::KyivCity.render(), "80");
    assert_eq!(Region::RepublicOfCrimea.render(), "1");
    assert_eq!(Region::LvivOblast.render(), "46");
    assert_eq!(Region::SevastopolCity.render(), "85");
}

#[test]
fn university_category_renders_its_decimal_code() {
    assert_eq!(UniversityCategory::HigherEducationInstitutions.render(), "1");
    assert_eq!(UniversityCategory::VocationalEducationInstitutions.render(), "2");
    assert_eq!(UniversityCategory::ScientificInstitutes.render(), "8");
    assert_eq!(UniversityCategory::SpecializedPreHigherEducationInstitutions.render(), "9");
    assert_eq!(UniversityCategory::PostgraduateEducationInstitutions.render(), "10");
}

#[test]
fn institution_category_renders_its_decimal_code() {
    assert_eq!(InstitutionCategory::GeneralSecondaryEducationInstitutions.render(), "3");
}

#[test]
fn region_codes_round_trip() {
    let all = vec![
        Region::RepublicOfCrimea,
        Region::VinnytsiaOblast,
        Region::VolynOblast,
        Region::DnipropetrovskOblast,
        Region::DonetskOblast,
        Region::ZhytomyrOblast,
        Region::ZakarpattiaOblast,
        Region::ZaporizhzhiaOblast,
        Region::IvanoFrankivskOblast,
        Region::KyivOblast,
        Region::KirovohradOblast,
        Region::LuhanskOblast,
        Region::LvivOblast,
        Region::MykolaivOblast,
        Region::OdesaOblast,
        Region::PoltavaOblast,
        Region::RivneOblast,
        Region::SumyOblast,
        Region::TernopilOblast,
        Region::KharkivOblast,
        Region::KhersonOblast,
        Region::KhmelnytskyiOblast,
        Region::CherkasyOblast,
        Region::ChernivtsiOblast,
        Region::ChernihivOblast,
        Region::KyivCity,
        Region::SevastopolCity,
    ];
    assert_eq!(all.len(), 27);
    for region in all {
        assert_eq!(Region::from_code(region.code()), Some(region));
    }
}

#[test]
fn region_expected_codes() {
    assert_eq!(Region::KyivCity.code(), 80);
    assert_eq!(Region::LvivOblast.code(), 46);
    assert_eq!(Region::DnipropetrovskOblast.code(), 12);
    assert_eq!(Region::from_code(80), Some(Region::KyivCity));
    assert_eq!(Region::from_code(2), None);
    assert_eq!(Region::from_code(0), None);
}

#[test]
fn university_category_codes_round_trip() {
    let all = vec![
        UniversityCategory::HigherEducationInstitutions,
        UniversityCategory::VocationalEducationInstitutions,
        UniversityCategory::SpecializedPreHigherEducationInstitutions,
        UniversityCategory::ScientificInstitutes,
        UniversityCategory::PostgraduateEducationInstitutions,
    ];
    for category in all {
        assert_eq!(UniversityCategory::from_code(category.code()), Some(category));
    }
    assert_eq!(UniversityCategory::from_code(3), None);
    assert_eq!(UniversityCategory::from_code(0), None);
}

#[test]
fn institution_category_codes_round_trip() {
    let category = InstitutionCategory::GeneralSecondaryEducationInstitutions;
    assert_eq!(category.code(), 3);
    assert_eq!(InstitutionCategory::from_code(3), Some(category));
    assert_eq!(InstitutionCategory::from_code(1), None);
}

#[test]
fn json_encoding_is_the_integer_code() {
    assert_eq!(Region::KyivCity.to_json(), serde_json::Value::from(80u64));
    assert_eq!(
        UniversityCategory::ScientificInstitutes.to_json(),
        serde_json::Value::from(8u64)
    );
    assert_eq!(
        InstitutionCategory::GeneralSecondaryEducationInstitutions.to_json(),
        serde_json::Value::from(3u64)
    );
}

#[test]
fn json_codes_round_trip() {
    let v = Region::LvivOblast.to_json();
    assert_eq!(Region::from_json(&v), Some(Region::LvivOblast));
    let v = UniversityCategory::VocationalEducationInstitutions.to_json();
    assert_eq!(
        UniversityCategory::from_json(&v),
        Some(UniversityCategory::VocationalEducationInstitutions)
    );
    let v = InstitutionCategory::GeneralSecondaryEducationInstitutions.to_json();
    assert_eq!(
        InstitutionCategory::from_json(&v),
        Some(InstitutionCategory::GeneralSecondaryEducationInstitutions)
    );
}

#[test]
fn json_decoding_accepts_parsed_integers_only() {
    let parsed: serde_json::Value = serde_json::from_str("80").unwrap();
    assert_eq!(Region::from_json(&parsed), Some(Region::KyivCity));
    let as_string: serde_json::Value = serde_json::from_str("\"80\"").unwrap();
    assert_eq!(Region::from_json(&as_string), None);
    let fractional: serde_json::Value = serde_json::from_str("80.5").unwrap();
    assert_eq!(Region::from_json(&fractional), None);
    let unknown: serde_json::Value = serde_json::from_str("81").unwrap();
    assert_eq!(Region::from_json(&unknown), None);
}
