use libedbo::{
    institutions_from_response, school_from_response, universities_from_response,
    university_from_response, Error,
};

const UNIVERSITY_BODY: &str = r#"{
    "university_name": "Taras Shevchenko National University",
    "university_id": "1234",
    "university_short_name": "KNU",
    "university_name_en": "Taras Shevchenko National University of Kyiv",
    "is_from_crimea": "0",
    "registration_year": "1834",
    "university_type_name": "University",
    "university_financing_type_name": "State",
    "university_governance_type_name": "Ministry of Education",
    "post_index_u": "01601",
    "katottgcodeu": "UA80000000000093317",
    "katottg_name_u": "Kyiv",
    "region_name_u": "Kyiv City",
    "university_address_u": "Volodymyrska St 60",
    "university_phone": "+380442393333",
    "university_email": "office@knu.ua",
    "university_site": "http://www.univ.kiev.ua",
    "university_director_post": "Rector",
    "university_director_fio": "Volodymyr Buhrov",
    "branches": [],
    "facultets": [],
    "speciality_licenses": [],
    "profession_licenses": [],
    "educators": []
}"#;

const INSTITUTION_BODY: &str = r#"{
    "institution_name": "Lviv Secondary School 1",
    "institution_id": "42",
    "is_checked": "1",
    "short_name": "SSh1",
    "state_name": "Working",
    "institution_type_name": "Secondary school",
    "university_financing_type_name": "Communal",
    "koatuu_id": "4610100000",
    "region_name": "Lviv Oblast",
    "koatuu_name": "Lviv",
    "address": "Shevchenka St 5",
    "parent_institution_id": null,
    "governance_name": "Lviv City Council",
    "phone": "+380322000000",
    "fax": "+380322000001",
    "email": "school1@lviv.ua",
    "website": "http://school1.lviv.ua",
    "boss": "Maria Petrivna",
    "support_name": "Education Department",
    "is_village": "0",
    "is_mountain": "0",
    "is_internat": "0"
}"#;

#[test]
fn non_success_statuses_map_to_api_errors() {
    for status in [301u16, 404, 500, 503] {
        match universities_from_response(status, "[]") {
            Err(Error::ApiError(code)) => assert_eq!(code, status),
            _ => panic!("expected an API error for status {}", status),
        }
        match university_from_response(status, UNIVERSITY_BODY) {
            Err(Error::ApiError(code)) => assert_eq!(code, status),
            _ => panic!("expected an API error for status {}", status),
        }
    }
}

#[test]
fn school_error_status_carries_the_code() {
    match school_from_response(503, INSTITUTION_BODY) {
        Err(Error::ApiError(code)) => assert_eq!(code, 503),
        _ => panic!("expected an API error carrying 503"),
    }
}

#[test]
fn empty_list_bodies_are_successes() {
    match universities_from_response(200, "[]") {
        Ok(list) => assert!(list.is_empty()),
        Err(_) => panic!("an empty array must decode to an empty list"),
    }
    match institutions_from_response(200, "[]") {
        Ok(list) => assert!(list.is_empty()),
        Err(_) => panic!("an empty array must decode to an empty list"),
    }
}

#[test]
fn invalid_json_is_a_parsing_error() {
    assert!(matches!(
        universities_from_response(200, "{not an array}"),
        Err(Error::ParsingError(_))
    ));
}

#[test]
fn non_array_list_body_is_a_parsing_error() {
    assert!(matches!(universities_from_response(200, "{}"), Err(Error::ParsingError(_))));
    assert!(matches!(
        institutions_from_response(200, "\"text\""),
        Err(Error::ParsingError(_))
    ));
}

#[test]
fn university_detail_decodes_with_empty_collections() {
    match university_from_response(200, UNIVERSITY_BODY) {
        Ok(u) => {
            assert_eq!(u.university_id, "1234");
            assert_eq!(u.university_parent_id, None);
            assert_eq!(u.close_date, None);
            assert!(u.branches.is_empty());
            assert!(u.facultets.is_empty());
            assert!(u.speciality_licenses.is_empty());
            assert!(u.profession_licenses.is_empty());
            assert!(u.educators.is_empty());
        },
        Err(_) => panic!("a complete detail record must decode"),
    }
}

#[test]
fn university_detail_with_collections_decodes() {
    let body = format!(
        r#"{{
        "university_name": "Uni", "university_id": "9", "university_short_name": "U",
        "university_name_en": "Uni", "is_from_crimea": "0", "registration_year": "1990",
        "university_type_name": "University", "university_financing_type_name": "State",
        "university_governance_type_name": "Ministry", "post_index_u": "01001",
        "katottgcodeu": "UA1", "katottg_name_u": "Kyiv", "region_name_u": "Kyiv",
        "university_address_u": "Street 1", "university_phone": "1",
        "university_email": "a@b.ua", "university_site": "http://u",
        "university_director_post": "Rector", "university_director_fio": "Name",
        "close_date": "2020-01-01",
        "branches": [{{"university_name": "Branch", "university_id": "10",
            "region_name": "Kyiv", "katottgcodeu": "UA2", "katottg_name": "Kyiv"}}],
        "facultets": ["History", "Physics"],
        "speciality_licenses": [],
        "profession_licenses": [{{"professions": "Cook", "license_count": "30",
            "accreditation": "yes", "accreditation_expired": "2030-01-01"}}],
        "educators": []
    }}"#
    );
    match university_from_response(200, &body) {
        Ok(u) => {
            assert_eq!(u.close_date.as_deref(), Some("2020-01-01"));
            assert_eq!(u.branches.len(), 1);
            assert_eq!(u.branches[0].university_name, "Branch");
            assert_eq!(u.facultets, vec!["History".to_string(), "Physics".to_string()]);
            assert_eq!(u.profession_licenses.len(), 1);
            assert_eq!(u.profession_licenses[0].professions, "Cook");
        },
        Err(_) => panic!("a detail record with collections must decode"),
    }
}

#[test]
fn institution_list_decodes_with_null_parent() {
    let body = format!("[{}]", INSTITUTION_BODY);
    match institutions_from_response(200, &body) {
        Ok(list) => {
            assert_eq!(list.len(), 1);
            assert_eq!(list[0].institution_id, "42");
            assert_eq!(list[0].parent_institution_id, None);
            assert_eq!(list[0].approved_count, None);
        },
        Err(_) => panic!("a complete institution record must decode"),
    }
}

#[test]
fn school_detail_decodes() {
    match school_from_response(200, INSTITUTION_BODY) {
        Ok(s) => {
            assert_eq!(s.institution_name, "Lviv Secondary School 1");
            assert_eq!(s.boss, "Maria Petrivna");
        },
        Err(_) => panic!("a complete institution record must decode"),
    }
}

#[test]
fn unknown_extra_fields_are_tolerated() {
    let with_extra = INSTITUTION_BODY.replacen(
        "\"institution_name\"",
        "\"brand_new_field\": {\"nested\": [1, 2]}, \"institution_name\"",
        1,
    );
    match school_from_response(200, &with_extra) {
        Ok(s) => assert_eq!(s.institution_id, "42"),
        Err(_) => panic!("unknown fields must be ignored"),
    }
}

#[test]
fn missing_optional_field_decodes_empty() {
    let without_parent = INSTITUTION_BODY.replacen("\"parent_institution_id\": null,", "", 1);
    match school_from_response(200, &without_parent) {
        Ok(s) => assert_eq!(s.parent_institution_id, None),
        Err(_) => panic!("an absent optional field must decode to an empty slot"),
    }
}

#[test]
fn present_optional_field_is_kept() {
    let with_parent =
        INSTITUTION_BODY.replacen("\"parent_institution_id\": null,", "\"parent_institution_id\": \"7\",", 1);
    match school_from_response(200, &with_parent) {
        Ok(s) => assert_eq!(s.parent_institution_id.as_deref(), Some("7")),
        Err(_) => panic!("a present optional field must decode"),
    }
}

#[test]
fn missing_required_field_is_a_parsing_error() {
    let without_boss = INSTITUTION_BODY.replacen("\"boss\": \"Maria Petrivna\",", "", 1);
    assert!(matches!(school_from_response(200, &without_boss), Err(Error::ParsingError(_))));
    let wrong_type = INSTITUTION_BODY.replacen("\"is_checked\": \"1\"", "\"is_checked\": 1", 1);
    assert!(matches!(school_from_response(200, &wrong_type), Err(Error::ParsingError(_))));
}

#[test]
fn error_messages_render() {
    assert_eq!(Error::ApiError(503).message(), "API error: 503");
    assert_eq!(Error::NetworkError(String::from("timed out")).message(), "Network error: timed out");
    assert_eq!(Error::ParsingError(String::from("bad body")).message(), "Parsing error: bad body");
    assert_eq!(Error::OtherError(String::from("bad input")).message(), "Error: bad input");
}
