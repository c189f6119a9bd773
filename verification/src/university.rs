//! University categories and the records the universities endpoints return.

use vstd::prelude::*;

use crate::json::{
    arr_field, get_arr, get_opt_str, get_req_str, js_as_str, js_as_u64, js_field, js_u64_value,
    json_model, opt_field_ok, str_field, JsonData,
};
use crate::render::{dec_digits, u32_dec};

verus! {

/// A tertiary-institution classifier. Each variant carries a fixed registry
/// code that is the only form in which the category appears on the wire.
#[derive(Debug, Clone, Copy, PartialEq, Eq, Structural)]
pub enum UniversityCategory {
    HigherEducationInstitutions,
    VocationalEducationInstitutions,
    SpecializedPreHigherEducationInstitutions,
    ScientificInstitutes,
    PostgraduateEducationInstitutions,
}

impl UniversityCategory {
    /// The frozen registry code of each category.
    pub open spec fn spec_code(self) -> u32 {
        match self {
            UniversityCategory::HigherEducationInstitutions => 1,
            UniversityCategory::VocationalEducationInstitutions => 2,
            UniversityCategory::SpecializedPreHigherEducationInstitutions => 9,
            UniversityCategory::ScientificInstitutes => 8,
            UniversityCategory::PostgraduateEducationInstitutions => 10,
        }
    }

    /// The category a registry code stands for, if any.
    pub open spec fn spec_from_code(code: u32) -> Option<UniversityCategory> {
        if code == 1 {
            Some(UniversityCategory::HigherEducationInstitutions)
        } else if code == 2 {
            Some(UniversityCategory::VocationalEducationInstitutions)
        } else if code == 9 {
            Some(UniversityCategory::SpecializedPreHigherEducationInstitutions)
        } else if code == 8 {
            Some(UniversityCategory::ScientificInstitutes)
        } else if code == 10 {
            Some(UniversityCategory::PostgraduateEducationInstitutions)
        } else {
            None
        }
    }

    /// The registry code of this category.
    pub fn code(self) -> (c: u32)
        ensures
            c == self.spec_code(),
    {
        match self {
            UniversityCategory::HigherEducationInstitutions => 1,
            UniversityCategory::VocationalEducationInstitutions => 2,
            UniversityCategory::SpecializedPreHigherEducationInstitutions => 9,
            UniversityCategory::ScientificInstitutes => 8,
            UniversityCategory::PostgraduateEducationInstitutions => 10,
        }
    }

    /// Decodes a registry code back into a category.
    pub fn from_code(code: u32) -> (r: Option<UniversityCategory>)
        ensures
            r == UniversityCategory::spec_from_code(code),
    {
        match code {
            1 => Some(UniversityCategory::HigherEducationInstitutions),
            2 => Some(UniversityCategory::VocationalEducationInstitutions),
            9 => Some(UniversityCategory::SpecializedPreHigherEducationInstitutions),
            8 => Some(UniversityCategory::ScientificInstitutes),
            10 => Some(UniversityCategory::PostgraduateEducationInstitutions),
            _ => None,
        }
    }

    /// Renders this category for a URL: exactly the decimal digits of its
    /// code, with no padding.
    pub fn render(self) -> (s: String)
        ensures
            s@ == dec_digits(self.spec_code() as nat),
    {
        u32_dec(self.code())
    }

    /// Encodes this category as JSON: the bare integer code, never the
    /// variant name.
    pub fn to_json(self) -> (v: serde_json::Value)
        ensures
            json_model(v) == JsonData::Number(dec_digits(self.spec_code() as nat)),
    {
        js_u64_value(self.code() as u64)
    }

    /// Decodes a JSON value into a category: exactly the integer codes of
    /// the variants are accepted, so decoding an encoded category yields
    /// it back.
    pub fn from_json(v: &serde_json::Value) -> (r: Option<UniversityCategory>)
        ensures
            r matches Some(c) ==> json_model(*v) == JsonData::Number(
                dec_digits(c.spec_code() as nat),
            ),
            forall|c: UniversityCategory|
                json_model(*v) == JsonData::Number(dec_digits(c.spec_code() as nat)) ==> r == Some(
                    c,
                ),
    {
        let code = match js_as_u64(v) {
            Some(n) => n,
            None => {
                proof {
                    assert forall|c: UniversityCategory|
                        json_model(*v) != JsonData::Number(dec_digits(c.spec_code() as nat)) by {
                        assert(dec_digits(c.spec_code() as nat) == dec_digits(
                            (c.spec_code() as u64) as nat,
                        ));
                    }
                }
                return None;
            },
        };
        if code > 0xFFFF_FFFFu64 {
            proof {
                assert forall|c: UniversityCategory|
                    json_model(*v) != JsonData::Number(dec_digits(c.spec_code() as nat)) by {
                    assert(dec_digits(c.spec_code() as nat) == dec_digits(
                        (c.spec_code() as u64) as nat,
                    ));
                }
            }
            return None;
        }
        let r = UniversityCategory::from_code(code as u32);
        proof {
            assert forall|c: UniversityCategory|
                json_model(*v) == JsonData::Number(dec_digits(c.spec_code() as nat)) implies r
                == Some(c) by {
                assert(dec_digits(c.spec_code() as nat) == dec_digits(
                    (c.spec_code() as u64) as nat,
                ));
                lemma_university_category_code_round_trip(c);
            }
            if r matches Some(c) {
                lemma_university_category_code_injective(code as u32);
            }
        }
        r
    }
}

/// Encoding a category as its code and decoding that code yields the
/// category back.
pub proof fn lemma_university_category_code_round_trip(c: UniversityCategory)
    ensures
        UniversityCategory::spec_from_code(c.spec_code()) == Some(c),
{
}

/// A code that decodes to a category is exactly that category's code.
pub proof fn lemma_university_category_code_injective(code: u32)
    ensures
        UniversityCategory::spec_from_code(code) matches Some(c) ==> c.spec_code() == code,
{
}

/// A branch location of a university, as the detail endpoint returns it.
#[derive(Debug)]
pub struct UniversityBranch {
    pub university_name: String,
    pub university_id: String,
    pub region_name: String,
    pub katottgcodeu: String,
    pub katottg_name: String,
}

/// A licensed speciality of a university.
#[derive(Debug)]
pub struct SpecialityLicense {
    pub qualification_group_name: String,
    pub speciality_code: String,
    pub speciality_name: String,
    pub specialization_name: String,
    pub all_count: String,
    pub all_term_count: String,
    pub full_time_count: String,
    pub part_time_count: String,
    pub evening_count: String,
    pub certificate: String,
    pub certificate_expired: Option<String>,
    pub license_description: String,
}

/// A licensed profession of a university.
#[derive(Debug)]
pub struct ProfessionLicense {
    pub professions: String,
    pub license_count: String,
    pub accreditation: String,
    pub accreditation_expired: String,
}

/// Student counts per speciality, as the detail endpoint reports them.
#[derive(Debug)]
pub struct Educator {
    pub qualification_group_name: String,
    pub speciality_code: String,
    pub speciality_name: String,
    pub specialization_name: String,
    pub full_time_count: String,
    pub part_time_count: String,
    pub external_count: String,
    pub evening_count: String,
    pub distance_count: String,
}

/// The detail record of a single university.
#[derive(Debug)]
pub struct University {
    pub university_name: String,
    pub university_id: String,
    pub university_parent_id: Option<String>,
    pub university_short_name: String,
    pub university_name_en: String,
    pub is_from_crimea: String,
    pub registration_year: String,
    pub university_type_name: String,
    pub university_financing_type_name: String,
    pub university_governance_type_name: String,
    pub post_index_u: String,
    pub katottgcodeu: String,
    pub katottg_name_u: String,
    pub region_name_u: String,
    pub university_address_u: String,
    pub university_phone: String,
    pub university_email: String,
    pub university_site: String,
    pub university_director_post: String,
    pub university_director_fio: String,
    pub close_date: Option<String>,
    pub branches: Vec<UniversityBranch>,
    pub facultets: Vec<String>,
    pub speciality_licenses: Vec<SpecialityLicense>,
    pub profession_licenses: Vec<ProfessionLicense>,
    pub educators: Vec<Educator>,
}

/// The summary record the list endpoint returns per university.
#[derive(Debug)]
pub struct UniversityBrief {
    pub university_name: String,
    pub university_id: String,
    pub university_parent_id: Option<String>,
    pub university_short_name: String,
    pub university_name_en: String,
    pub is_from_crimea: String,
    pub registration_year: String,
    pub university_type_name: String,
    pub university_financing_type_name: String,
    pub university_governance_type_name: String,
    pub post_index_u: String,
    pub katottgcodeu: String,
    pub katottg_name_u: String,
    pub region_name_u: String,
    pub university_address_u: String,
    pub university_phone: String,
    pub university_email: String,
    pub university_site: String,
    pub university_director_post: String,
    pub university_director_fio: String,
    pub close_date: Option<String>,
    pub primitki: String,
}

/// Whether a document has every field a branch record requires, each a
/// string.
pub open spec fn branch_decodable(m: JsonData) -> bool {
    &&& str_field(m, "university_name"@) is Some
    &&& str_field(m, "university_id"@) is Some
    &&& str_field(m, "region_name"@) is Some
    &&& str_field(m, "katottgcodeu"@) is Some
    &&& str_field(m, "katottg_name"@) is Some
}

/// The branch record a document decodes to, field by field.
pub open spec fn branch_decodes_to(m: JsonData, b: UniversityBranch) -> bool {
    &&& str_field(m, "university_name"@) == Some(b.university_name@)
    &&& str_field(m, "university_id"@) == Some(b.university_id@)
    &&& str_field(m, "region_name"@) == Some(b.region_name@)
    &&& str_field(m, "katottgcodeu"@) == Some(b.katottgcodeu@)
    &&& str_field(m, "katottg_name"@) == Some(b.katottg_name@)
}

/// Decodes one branch record.
pub fn decode_branch(v: &serde_json::Value) -> (r: Result<UniversityBranch, ()>)
    ensures
        r is Ok <==> branch_decodable(json_model(*v)),
        r matches Ok(b) ==> branch_decodes_to(json_model(*v), b),
{
    let university_name = match get_req_str(v, "university_name") {
        Ok(s) => s,
        Err(()) => { return Err(()); },
    };
    let university_id = match get_req_str(v, "university_id") {
        Ok(s) => s,
        Err(()) => { return Err(()); },
    };
    let region_name = match get_req_str(v, "region_name") {
        Ok(s) => s,
        Err(()) => { return Err(()); },
    };
    let katottgcodeu = match get_req_str(v, "katottgcodeu") {
        Ok(s) => s,
        Err(()) => { return Err(()); },
    };
    let katottg_name = match get_req_str(v, "katottg_name") {
        Ok(s) => s,
        Err(()) => { return Err(()); },
    };
    Ok(UniversityBranch { university_name, university_id, region_name, katottgcodeu, katottg_name })
}

/// Whether a document has every field a speciality-license record
/// requires.
pub open spec fn speciality_license_decodable(m: JsonData) -> bool {
    &&& str_field(m, "qualification_group_name"@) is Some
    &&& str_field(m, "speciality_code"@) is Some
    &&& str_field(m, "speciality_name"@) is Some
    &&& str_field(m, "specialization_name"@) is Some
    &&& str_field(m, "all_count"@) is Some
    &&& str_field(m, "all_term_count"@) is Some
    &&& str_field(m, "full_time_count"@) is Some
    &&& str_field(m, "part_time_count"@) is Some
    &&& str_field(m, "evening_count"@) is Some
    &&& str_field(m, "certificate"@) is Some
    &&& opt_field_ok(m, "certificate_expired"@)
    &&& str_field(m, "license_description"@) is Some
}

/// The speciality-license record a document decodes to, field by field.
pub open spec fn speciality_license_decodes_to(m: JsonData, l: SpecialityLicense) -> bool {
    &&& str_field(m, "qualification_group_name"@) == Some(l.qualification_group_name@)
    &&& str_field(m, "speciality_code"@) == Some(l.speciality_code@)
    &&& str_field(m, "speciality_name"@) == Some(l.speciality_name@)
    &&& str_field(m, "specialization_name"@) == Some(l.specialization_name@)
    &&& str_field(m, "all_count"@) == Some(l.all_count@)
    &&& str_field(m, "all_term_count"@) == Some(l.all_term_count@)
    &&& str_field(m, "full_time_count"@) == Some(l.full_time_count@)
    &&& str_field(m, "part_time_count"@) == Some(l.part_time_count@)
    &&& str_field(m, "evening_count"@) == Some(l.evening_count@)
    &&& str_field(m, "certificate"@) == Some(l.certificate@)
    &&& match l.certificate_expired {
        Some(s) => str_field(m, "certificate_expired"@) == Some(s@),
        None => str_field(m, "certificate_expired"@) is None,
    }
    &&& str_field(m, "license_description"@) == Some(l.license_description@)
}

/// Decodes one speciality-license record.
pub fn decode_speciality_license(v: &serde_json::Value) -> (r: Result<SpecialityLicense, ()>)
    ensures
        r is Ok <==> speciality_license_decodable(json_model(*v)),
        r matches Ok(l) ==> speciality_license_decodes_to(json_model(*v), l),
{
    let qualification_group_name = match get_req_str(v, "qualification_group_name") {
        Ok(s) => s,
        Err(()) => { return Err(()); },
    };
    let speciality_code = match get_req_str(v, "speciality_code") {
        Ok(s) => s,
        Err(()) => { return Err(()); },
    };
    let speciality_name = match get_req_str(v, "speciality_name") {
        Ok(s) => s,
        Err(()) => { return Err(()); },
    };
    let specialization_name = match get_req_str(v, "specialization_name") {
        Ok(s) => s,
        Err(()) => { return Err(()); },
    };
    let all_count = match get_req_str(v, "all_count") {
        Ok(s) => s,
        Err(()) => { return Err(()); },
    };
    let all_term_count = match get_req_str(v, "all_term_count") {
        Ok(s) => s,
        Err(()) => { return Err(()); },
    };
    let full_time_count = match get_req_str(v, "full_time_count") {
        Ok(s) => s,
        Err(()) => { return Err(()); },
    };
    let part_time_count = match get_req_str(v, "part_time_count") {
        Ok(s) => s,
        Err(()) => { return Err(()); },
    };
    let evening_count = match get_req_str(v, "evening_count") {
        Ok(s) => s,
        Err(()) => { return Err(()); },
    };
    let certificate = match get_req_str(v, "certificate") {
        Ok(s) => s,
        Err(()) => { return Err(()); },
    };
    let certificate_expired = match get_opt_str(v, "certificate_expired") {
        Ok(s) => s,
        Err(()) => { return Err(()); },
    };
    let license_description = match get_req_str(v, "license_description") {
        Ok(s) => s,
        Err(()) => { return Err(()); },
    };
    Ok(SpecialityLicense {
        qualification_group_name,
        speciality_code,
        speciality_name,
        specialization_name,
        all_count,
        all_term_count,
        full_time_count,
        part_time_count,
        evening_count,
        certificate,
        certificate_expired,
        license_description,
    })
}

/// Whether a document has every field a profession-license record
/// requires.
pub open spec fn profession_license_decodable(m: JsonData) -> bool {
    &&& str_field(m, "professions"@) is Some
    &&& str_field(m, "license_count"@) is Some
    &&& str_field(m, "accreditation"@) is Some
    &&& str_field(m, "accreditation_expired"@) is Some
}

/// The profession-license record a document decodes to, field by field.
pub open spec fn profession_license_decodes_to(m: JsonData, l: ProfessionLicense) -> bool {
    &&& str_field(m, "professions"@) == Some(l.professions@)
    &&& str_field(m, "license_count"@) == Some(l.license_count@)
    &&& str_field(m, "accreditation"@) == Some(l.accreditation@)
    &&& str_field(m, "accreditation_expired"@) == Some(l.accreditation_expired@)
}

/// Decodes one profession-license record.
pub fn decode_profession_license(v: &serde_json::Value) -> (r: Result<ProfessionLicense, ()>)
    ensures
        r is Ok <==> profession_license_decodable(json_model(*v)),
        r matches Ok(l) ==> profession_license_decodes_to(json_model(*v), l),
{
    let professions = match get_req_str(v, "professions") {
        Ok(s) => s,
        Err(()) => { return Err(()); },
    };
    let license_count = match get_req_str(v, "license_count") {
        Ok(s) => s,
        Err(()) => { return Err(()); },
    };
    let accreditation = match get_req_str(v, "accreditation") {
        Ok(s) => s,
        Err(()) => { return Err(()); },
    };
    let accreditation_expired = match get_req_str(v, "accreditation_expired") {
        Ok(s) => s,
        Err(()) => { return Err(()); },
    };
    Ok(ProfessionLicense { professions, license_count, accreditation, accreditation_expired })
}

/// Whether a document has every field an educator record requires.
pub open spec fn educator_decodable(m: JsonData) -> bool {
    &&& str_field(m, "qualification_group_name"@) is Some
    &&& str_field(m, "speciality_code"@) is Some
    &&& str_field(m, "speciality_name"@) is Some
    &&& str_field(m, "specialization_name"@) is Some
    &&& str_field(m, "full_time_count"@) is Some
    &&& str_field(m, "part_time_count"@) is Some
    &&& str_field(m, "external_count"@) is Some
    &&& str_field(m, "evening_count"@) is Some
    &&& str_field(m, "distance_count"@) is Some
}

/// The educator record a document decodes to, field by field.
pub open spec fn educator_decodes_to(m: JsonData, e: Educator) -> bool {
    &&& str_field(m, "qualification_group_name"@) == Some(e.qualification_group_name@)
    &&& str_field(m, "speciality_code"@) == Some(e.speciality_code@)
    &&& str_field(m, "speciality_name"@) == Some(e.speciality_name@)
    &&& str_field(m, "specialization_name"@) == Some(e.specialization_name@)
    &&& str_field(m, "full_time_count"@) == Some(e.full_time_count@)
    &&& str_field(m, "part_time_count"@) == Some(e.part_time_count@)
    &&& str_field(m, "external_count"@) == Some(e.external_count@)
    &&& str_field(m, "evening_count"@) == Some(e.evening_count@)
    &&& str_field(m, "distance_count"@) == Some(e.distance_count@)
}

/// Decodes one educator record.
pub fn decode_educator(v: &serde_json::Value) -> (r: Result<Educator, ()>)
    ensures
        r is Ok <==> educator_decodable(json_model(*v)),
        r matches Ok(e) ==> educator_decodes_to(json_model(*v), e),
{
    let qualification_group_name = match get_req_str(v, "qualification_group_name") {
        Ok(s) => s,
        Err(()) => { return Err(()); },
    };
    let speciality_code = match get_req_str(v, "speciality_code") {
        Ok(s) => s,
        Err(()) => { return Err(()); },
    };
    let speciality_name = match get_req_str(v, "speciality_name") {
        Ok(s) => s,
        Err(()) => { return Err(()); },
    };
    let specialization_name = match get_req_str(v, "specialization_name") {
        Ok(s) => s,
        Err(()) => { return Err(()); },
    };
    let full_time_count = match get_req_str(v, "full_time_count") {
        Ok(s) => s,
        Err(()) => { return Err(()); },
    };
    let part_time_count = match get_req_str(v, "part_time_count") {
        Ok(s) => s,
        Err(()) => { return Err(()); },
    };
    let external_count = match get_req_str(v, "external_count") {
        Ok(s) => s,
        Err(()) => { return Err(()); },
    };
    let evening_count = match get_req_str(v, "evening_count") {
        Ok(s) => s,
        Err(()) => { return Err(()); },
    };
    let distance_count = match get_req_str(v, "distance_count") {
        Ok(s) => s,
        Err(()) => { return Err(()); },
    };
    Ok(Educator {
        qualification_group_name,
        speciality_code,
        speciality_name,
        specialization_name,
        full_time_count,
        part_time_count,
        external_count,
        evening_count,
        distance_count,
    })
}

/// Whether a document has every scalar field shared by the two university
/// records, each required one a string and each optional one absent, null
/// or a string.
pub open spec fn university_scalars_decodable(m: JsonData) -> bool {
    &&& str_field(m, "university_name"@) is Some
    &&& str_field(m, "university_id"@) is Some
    &&& opt_field_ok(m, "university_parent_id"@)
    &&& str_field(m, "university_short_name"@) is Some
    &&& str_field(m, "university_name_en"@) is Some
    &&& str_field(m, "is_from_crimea"@) is Some
    &&& str_field(m, "registration_year"@) is Some
    &&& str_field(m, "university_type_name"@) is Some
    &&& str_field(m, "university_financing_type_name"@) is Some
    &&& str_field(m, "university_governance_type_name"@) is Some
    &&& str_field(m, "post_index_u"@) is Some
    &&& str_field(m, "katottgcodeu"@) is Some
    &&& str_field(m, "katottg_name_u"@) is Some
    &&& str_field(m, "region_name_u"@) is Some
    &&& str_field(m, "university_address_u"@) is Some
    &&& str_field(m, "university_phone"@) is Some
    &&& str_field(m, "university_email"@) is Some
    &&& str_field(m, "university_site"@) is Some
    &&& str_field(m, "university_director_post"@) is Some
    &&& str_field(m, "university_director_fio"@) is Some
    &&& opt_field_ok(m, "close_date"@)
}

/// The field names the summary record reads; every other field of a
/// response object is ignored.
pub open spec fn brief_field_names() -> Set<Seq<char>> {
    set![
        "university_name"@,
        "university_id"@,
        "university_parent_id"@,
        "university_short_name"@,
        "university_name_en"@,
        "is_from_crimea"@,
        "registration_year"@,
        "university_type_name"@,
        "university_financing_type_name"@,
        "university_governance_type_name"@,
        "post_index_u"@,
        "katottgcodeu"@,
        "katottg_name_u"@,
        "region_name_u"@,
        "university_address_u"@,
        "university_phone"@,
        "university_email"@,
        "university_site"@,
        "university_director_post"@,
        "university_director_fio"@,
        "close_date"@,
        "primitki"@,
    ]
}

/// Whether a document decodes to a complete summary record.
pub open spec fn brief_decodable(m: JsonData) -> bool {
    &&& university_scalars_decodable(m)
    &&& str_field(m, "primitki"@) is Some
}

/// The summary record a document decodes to, field by field.
pub open spec fn brief_decodes_to(m: JsonData, u: UniversityBrief) -> bool {
    &&& str_field(m, "university_name"@) == Some(u.university_name@)
    &&& str_field(m, "university_id"@) == Some(u.university_id@)
    &&& match u.university_parent_id {
        Some(s) => str_field(m, "university_parent_id"@) == Some(s@),
        None => str_field(m, "university_parent_id"@) is None,
    }
    &&& str_field(m, "university_short_name"@) == Some(u.university_short_name@)
    &&& str_field(m, "university_name_en"@) == Some(u.university_name_en@)
    &&& str_field(m, "is_from_crimea"@) == Some(u.is_from_crimea@)
    &&& str_field(m, "registration_year"@) == Some(u.registration_year@)
    &&& str_field(m, "university_type_name"@) == Some(u.university_type_name@)
    &&& str_field(m, "university_financing_type_name"@) == Some(u.university_financing_type_name@)
    &&& str_field(m, "university_governance_type_name"@) == Some(
        u.university_governance_type_name@,
    )
    &&& str_field(m, "post_index_u"@) == Some(u.post_index_u@)
    &&& str_field(m, "katottgcodeu"@) == Some(u.katottgcodeu@)
    &&& str_field(m, "katottg_name_u"@) == Some(u.katottg_name_u@)
    &&& str_field(m, "region_name_u"@) == Some(u.region_name_u@)
    &&& str_field(m, "university_address_u"@) == Some(u.university_address_u@)
    &&& str_field(m, "university_phone"@) == Some(u.university_phone@)
    &&& str_field(m, "university_email"@) == Some(u.university_email@)
    &&& str_field(m, "university_site"@) == Some(u.university_site@)
    &&& str_field(m, "university_director_post"@) == Some(u.university_director_post@)
    &&& str_field(m, "university_director_fio"@) == Some(u.university_director_fio@)
    &&& match u.close_date {
        Some(s) => str_field(m, "close_date"@) == Some(s@),
        None => str_field(m, "close_date"@) is None,
    }
    &&& str_field(m, "primitki"@) == Some(u.primitki@)
}

/// Decoding a summary record tolerates unknown fields: adding a field
/// whose name the record does not read changes neither whether an object
/// decodes nor what it decodes to.
pub proof fn lemma_brief_ignores_unknown_fields(
    fields: Map<Seq<char>, JsonData>,
    k: Seq<char>,
    w: JsonData,
    u: UniversityBrief,
)
    requires
        !brief_field_names().contains(k),
    ensures
        brief_decodable(JsonData::Object(fields.insert(k, w))) == brief_decodable(
            JsonData::Object(fields),
        ),
        brief_decodes_to(JsonData::Object(fields.insert(k, w)), u) == brief_decodes_to(
            JsonData::Object(fields),
            u,
        ),
{
    assert forall|name: Seq<char>| name != k implies js_field(
        JsonData::Object(fields.insert(k, w)),
        name,
    ) == js_field(JsonData::Object(fields), name) by {
    }
}

/// Decodes one summary record.
pub fn decode_brief(v: &serde_json::Value) -> (r: Result<UniversityBrief, ()>)
    ensures
        r is Ok <==> brief_decodable(json_model(*v)),
        r matches Ok(u) ==> brief_decodes_to(json_model(*v), u),
{
    let university_name = match get_req_str(v, "university_name") {
        Ok(s) => s,
        Err(()) => { return Err(()); },
    };
    let university_id = match get_req_str(v, "university_id") {
        Ok(s) => s,
        Err(()) => { return Err(()); },
    };
    let university_parent_id = match get_opt_str(v, "university_parent_id") {
        Ok(s) => s,
        Err(()) => { return Err(()); },
    };
    let university_short_name = match get_req_str(v, "university_short_name") {
        Ok(s) => s,
        Err(()) => { return Err(()); },
    };
    let university_name_en = match get_req_str(v, "university_name_en") {
        Ok(s) => s,
        Err(()) => { return Err(()); },
    };
    let is_from_crimea = match get_req_str(v, "is_from_crimea") {
        Ok(s) => s,
        Err(()) => { return Err(()); },
    };
    let registration_year = match get_req_str(v, "registration_year") {
        Ok(s) => s,
        Err(()) => { return Err(()); },
    };
    let university_type_name = match get_req_str(v, "university_type_name") {
        Ok(s) => s,
        Err(()) => { return Err(()); },
    };
    let university_financing_type_name = match get_req_str(v, "university_financing_type_name") {
        Ok(s) => s,
        Err(()) => { return Err(()); },
    };
    let university_governance_type_name = match get_req_str(v, "university_governance_type_name") {
        Ok(s) => s,
        Err(()) => { return Err(()); },
    };
    let post_index_u = match get_req_str(v, "post_index_u") {
        Ok(s) => s,
        Err(()) => { return Err(()); },
    };
    let katottgcodeu = match get_req_str(v, "katottgcodeu") {
        Ok(s) => s,
        Err(()) => { return Err(()); },
    };
    let katottg_name_u = match get_req_str(v, "katottg_name_u") {
        Ok(s) => s,
        Err(()) => { return Err(()); },
    };
    let region_name_u = match get_req_str(v, "region_name_u") {
        Ok(s) => s,
        Err(()) => { return Err(()); },
    };
    let university_address_u = match get_req_str(v, "university_address_u") {
        Ok(s) => s,
        Err(()) => { return Err(()); },
    };
    let university_phone = match get_req_str(v, "university_phone") {
        Ok(s) => s,
        Err(()) => { return Err(()); },
    };
    let university_email = match get_req_str(v, "university_email") {
        Ok(s) => s,
        Err(()) => { return Err(()); },
    };
    let university_site = match get_req_str(v, "university_site") {
        Ok(s) => s,
        Err(()) => { return Err(()); },
    };
    let university_director_post = match get_req_str(v, "university_director_post") {
        Ok(s) => s,
        Err(()) => { return Err(()); },
    };
    let university_director_fio = match get_req_str(v, "university_director_fio") {
        Ok(s) => s,
        Err(()) => { return Err(()); },
    };
    let close_date = match get_opt_str(v, "close_date") {
        Ok(s) => s,
        Err(()) => { return Err(()); },
    };
    let primitki = match get_req_str(v, "primitki") {
        Ok(s) => s,
        Err(()) => { return Err(()); },
    };
    Ok(UniversityBrief {
        university_name,
        university_id,
        university_parent_id,
        university_short_name,
        university_name_en,
        is_from_crimea,
        registration_year,
        university_type_name,
        university_financing_type_name,
        university_governance_type_name,
        post_index_u,
        katottgcodeu,
        katottg_name_u,
        region_name_u,
        university_address_u,
        university_phone,
        university_email,
        university_site,
        university_director_post,
        university_director_fio,
        close_date,
        primitki,
    })
}

/// Decodes a whole array of summary records, keeping server order.
pub fn decode_briefs(a: &Vec<serde_json::Value>) -> (r: Result<Vec<UniversityBrief>, ()>)
    ensures
        r is Ok <==> (forall|i: int|
            0 <= i < a@.len() ==> brief_decodable(#[trigger] json_model(a@[i]))),
        r matches Ok(out) ==> out@.len() == a@.len() && (forall|i: int|
            0 <= i < a@.len() ==> brief_decodes_to(#[trigger] json_model(a@[i]), out@[i])),
{
    let mut out: Vec<UniversityBrief> = Vec::new();
    let mut i: usize = 0;
    while i < a.len()
        invariant
            i <= a@.len(),
            out@.len() == i,
            forall|j: int|
                0 <= j < i ==> brief_decodable(#[trigger] json_model(a@[j])) && brief_decodes_to(
                    json_model(a@[j]),
                    out@[j],
                ),
        decreases a@.len() - i,
    {
        match decode_brief(&a[i]) {
            Ok(u) => out.push(u),
            Err(()) => {
                assert(!brief_decodable(json_model(a@[i as int])));
                return Err(());
            },
        }
        i += 1;
    }
    Ok(out)
}

/// Decodes an array of branch records, keeping server order.
pub fn decode_branches(a: &Vec<serde_json::Value>) -> (r: Result<Vec<UniversityBranch>, ()>)
    ensures
        r is Ok <==> (forall|i: int|
            0 <= i < a@.len() ==> branch_decodable(#[trigger] json_model(a@[i]))),
        r matches Ok(out) ==> out@.len() == a@.len() && (forall|i: int|
            0 <= i < a@.len() ==> branch_decodes_to(#[trigger] json_model(a@[i]), out@[i])),
{
    let mut out: Vec<UniversityBranch> = Vec::new();
    let mut i: usize = 0;
    while i < a.len()
        invariant
            i <= a@.len(),
            out@.len() == i,
            forall|j: int|
                0 <= j < i ==> branch_decodable(#[trigger] json_model(a@[j])) && branch_decodes_to(
                    json_model(a@[j]),
                    out@[j],
                ),
        decreases a@.len() - i,
    {
        match decode_branch(&a[i]) {
            Ok(b) => out.push(b),
            Err(()) => {
                assert(!branch_decodable(json_model(a@[i as int])));
                return Err(());
            },
        }
        i += 1;
    }
    Ok(out)
}

/// Decodes an array of speciality-license records, keeping server order.
pub fn decode_speciality_licenses(a: &Vec<serde_json::Value>) -> (r: Result<
    Vec<SpecialityLicense>,
    (),
>)
    ensures
        r is Ok <==> (forall|i: int|
            0 <= i < a@.len() ==> speciality_license_decodable(#[trigger] json_model(a@[i]))),
        r matches Ok(out) ==> out@.len() == a@.len() && (forall|i: int|
            0 <= i < a@.len() ==> speciality_license_decodes_to(
                #[trigger] json_model(a@[i]),
                out@[i],
            )),
{
    let mut out: Vec<SpecialityLicense> = Vec::new();
    let mut i: usize = 0;
    while i < a.len()
        invariant
            i <= a@.len(),
            out@.len() == i,
            forall|j: int|
                0 <= j < i ==> speciality_license_decodable(#[trigger] json_model(a@[j]))
                    && speciality_license_decodes_to(json_model(a@[j]), out@[j]),
        decreases a@.len() - i,
    {
        match decode_speciality_license(&a[i]) {
            Ok(l) => out.push(l),
            Err(()) => {
                assert(!speciality_license_decodable(json_model(a@[i as int])));
                return Err(());
            },
        }
        i += 1;
    }
    Ok(out)
}

/// Decodes an array of profession-license records, keeping server order.
pub fn decode_profession_licenses(a: &Vec<serde_json::Value>) -> (r: Result<
    Vec<ProfessionLicense>,
    (),
>)
    ensures
        r is Ok <==> (forall|i: int|
            0 <= i < a@.len() ==> profession_license_decodable(#[trigger] json_model(a@[i]))),
        r matches Ok(out) ==> out@.len() == a@.len() && (forall|i: int|
            0 <= i < a@.len() ==> profession_license_decodes_to(
                #[trigger] json_model(a@[i]),
                out@[i],
            )),
{
    let mut out: Vec<ProfessionLicense> = Vec::new();
    let mut i: usize = 0;
    while i < a.len()
        invariant
            i <= a@.len(),
            out@.len() == i,
            forall|j: int|
                0 <= j < i ==> profession_license_decodable(#[trigger] json_model(a@[j]))
                    && profession_license_decodes_to(json_model(a@[j]), out@[j]),
        decreases a@.len() - i,
    {
        match decode_profession_license(&a[i]) {
            Ok(l) => out.push(l),
            Err(()) => {
                assert(!profession_license_decodable(json_model(a@[i as int])));
                return Err(());
            },
        }
        i += 1;
    }
    Ok(out)
}

/// Decodes an array of educator records, keeping server order.
pub fn decode_educators(a: &Vec<serde_json::Value>) -> (r: Result<Vec<Educator>, ()>)
    ensures
        r is Ok <==> (forall|i: int|
            0 <= i < a@.len() ==> educator_decodable(#[trigger] json_model(a@[i]))),
        r matches Ok(out) ==> out@.len() == a@.len() && (forall|i: int|
            0 <= i < a@.len() ==> educator_decodes_to(#[trigger] json_model(a@[i]), out@[i])),
{
    let mut out: Vec<Educator> = Vec::new();
    let mut i: usize = 0;
    while i < a.len()
        invariant
            i <= a@.len(),
            out@.len() == i,
            forall|j: int|
                0 <= j < i ==> educator_decodable(#[trigger] json_model(a@[j]))
                    && educator_decodes_to(json_model(a@[j]), out@[j]),
        decreases a@.len() - i,
    {
        match decode_educator(&a[i]) {
            Ok(e) => out.push(e),
            Err(()) => {
                assert(!educator_decodable(json_model(a@[i as int])));
                return Err(());
            },
        }
        i += 1;
    }
    Ok(out)
}

/// Decodes an array of plain JSON strings, keeping server order.
pub fn decode_strings(a: &Vec<serde_json::Value>) -> (r: Result<Vec<String>, ()>)
    ensures
        r is Ok <==> (forall|i: int| 0 <= i < a@.len() ==> (#[trigger] json_model(a@[i])) is Text),
        r matches Ok(out) ==> out@.len() == a@.len() && (forall|i: int|
            0 <= i < a@.len() ==> #[trigger] json_model(a@[i]) == JsonData::Text(out@[i]@)),
{
    let mut out: Vec<String> = Vec::new();
    let mut i: usize = 0;
    while i < a.len()
        invariant
            i <= a@.len(),
            out@.len() == i,
            forall|j: int| 0 <= j < i ==> #[trigger] json_model(a@[j]) == JsonData::Text(out@[j]@),
        decreases a@.len() - i,
    {
        match js_as_str(&a[i]) {
            Some(s) => {
                let t = s.to_owned();
                out.push(t);
            },
            None => {
                assert(!(json_model(a@[i as int]) is Text));
                return Err(());
            },
        }
        i += 1;
    }
    Ok(out)
}

/// Whether a document decodes to a complete detail record: every shared
/// scalar, and the five collection fields each present as an array of
/// decodable elements.
pub open spec fn university_decodable(m: JsonData) -> bool {
    &&& university_scalars_decodable(m)
    &&& (arr_field(m, "branches"@) matches Some(es) && (forall|i: int|
        0 <= i < es.len() ==> branch_decodable(#[trigger] es[i])))
    &&& (arr_field(m, "facultets"@) matches Some(es) && (forall|i: int|
        0 <= i < es.len() ==> (#[trigger] es[i]) is Text))
    &&& (arr_field(m, "speciality_licenses"@) matches Some(es) && (forall|i: int|
        0 <= i < es.len() ==> speciality_license_decodable(#[trigger] es[i])))
    &&& (arr_field(m, "profession_licenses"@) matches Some(es) && (forall|i: int|
        0 <= i < es.len() ==> profession_license_decodable(#[trigger] es[i])))
    &&& (arr_field(m, "educators"@) matches Some(es) && (forall|i: int|
        0 <= i < es.len() ==> educator_decodable(#[trigger] es[i])))
}

/// The detail record a document decodes to, field by field and element by
/// element.
pub open spec fn university_decodes_to(m: JsonData, u: University) -> bool {
    &&& str_field(m, "university_name"@) == Some(u.university_name@)
    &&& str_field(m, "university_id"@) == Some(u.university_id@)
    &&& match u.university_parent_id {
        Some(s) => str_field(m, "university_parent_id"@) == Some(s@),
        None => str_field(m, "university_parent_id"@) is None,
    }
    &&& str_field(m, "university_short_name"@) == Some(u.university_short_name@)
    &&& str_field(m, "university_name_en"@) == Some(u.university_name_en@)
    &&& str_field(m, "is_from_crimea"@) == Some(u.is_from_crimea@)
    &&& str_field(m, "registration_year"@) == Some(u.registration_year@)
    &&& str_field(m, "university_type_name"@) == Some(u.university_type_name@)
    &&& str_field(m, "university_financing_type_name"@) == Some(u.university_financing_type_name@)
    &&& str_field(m, "university_governance_type_name"@) == Some(
        u.university_governance_type_name@,
    )
    &&& str_field(m, "post_index_u"@) == Some(u.post_index_u@)
    &&& str_field(m, "katottgcodeu"@) == Some(u.katottgcodeu@)
    &&& str_field(m, "katottg_name_u"@) == Some(u.katottg_name_u@)
    &&& str_field(m, "region_name_u"@) == Some(u.region_name_u@)
    &&& str_field(m, "university_address_u"@) == Some(u.university_address_u@)
    &&& str_field(m, "university_phone"@) == Some(u.university_phone@)
    &&& str_field(m, "university_email"@) == Some(u.university_email@)
    &&& str_field(m, "university_site"@) == Some(u.university_site@)
    &&& str_field(m, "university_director_post"@) == Some(u.university_director_post@)
    &&& str_field(m, "university_director_fio"@) == Some(u.university_director_fio@)
    &&& match u.close_date {
        Some(s) => str_field(m, "close_date"@) == Some(s@),
        None => str_field(m, "close_date"@) is None,
    }
    &&& (arr_field(m, "branches"@) matches Some(es) && u.branches@.len() == es.len() && (forall|
        i: int,
    |
        0 <= i < es.len() ==> branch_decodes_to(#[trigger] es[i], u.branches@[i])))
    &&& (arr_field(m, "facultets"@) matches Some(es) && u.facultets@.len() == es.len() && (forall|
        i: int,
    |
        0 <= i < es.len() ==> #[trigger] es[i] == JsonData::Text(u.facultets@[i]@)))
    &&& (arr_field(m, "speciality_licenses"@) matches Some(es) && u.speciality_licenses@.len()
        == es.len() && (forall|i: int|
        0 <= i < es.len() ==> speciality_license_decodes_to(
            #[trigger] es[i],
            u.speciality_licenses@[i],
        )))
    &&& (arr_field(m, "profession_licenses"@) matches Some(es) && u.profession_licenses@.len()
        == es.len() && (forall|i: int|
        0 <= i < es.len() ==> profession_license_decodes_to(
            #[trigger] es[i],
            u.profession_licenses@[i],
        )))
    &&& (arr_field(m, "educators"@) matches Some(es) && u.educators@.len() == es.len() && (forall|
        i: int,
    |
        0 <= i < es.len() ==> educator_decodes_to(#[trigger] es[i], u.educators@[i])))
}

/// The field names the detail record reads; every other field of a
/// response object is ignored.
pub open spec fn university_field_names() -> Set<Seq<char>> {
    set![
        "university_name"@,
        "university_id"@,
        "university_parent_id"@,
        "university_short_name"@,
        "university_name_en"@,
        "is_from_crimea"@,
        "registration_year"@,
        "university_type_name"@,
        "university_financing_type_name"@,
        "university_governance_type_name"@,
        "post_index_u"@,
        "katottgcodeu"@,
        "katottg_name_u"@,
        "region_name_u"@,
        "university_address_u"@,
        "university_phone"@,
        "university_email"@,
        "university_site"@,
        "university_director_post"@,
        "university_director_fio"@,
        "close_date"@,
        "branches"@,
        "facultets"@,
        "speciality_licenses"@,
        "profession_licenses"@,
        "educators"@,
    ]
}

/// Decoding a detail record tolerates unknown fields: adding a field whose
/// name the record does not read changes neither whether an object decodes
/// nor what it decodes to.
pub proof fn lemma_university_ignores_unknown_fields(
    fields: Map<Seq<char>, JsonData>,
    k: Seq<char>,
    w: JsonData,
    u: University,
)
    requires
        !university_field_names().contains(k),
    ensures
        university_decodable(JsonData::Object(fields.insert(k, w))) == university_decodable(
            JsonData::Object(fields),
        ),
        university_decodes_to(JsonData::Object(fields.insert(k, w)), u) == university_decodes_to(
            JsonData::Object(fields),
            u,
        ),
{
    assert forall|name: Seq<char>| name != k implies js_field(
        JsonData::Object(fields.insert(k, w)),
        name,
    ) == js_field(JsonData::Object(fields), name) by {
    }
}

/// Decodes one detail record.
pub fn decode_university(v: &serde_json::Value) -> (r: Result<University, ()>)
    ensures
        r is Ok <==> university_decodable(json_model(*v)),
        r matches Ok(u) ==> university_decodes_to(json_model(*v), u),
{
    let university_name = match get_req_str(v, "university_name") {
        Ok(s) => s,
        Err(()) => { return Err(()); },
    };
    let university_id = match get_req_str(v, "university_id") {
        Ok(s) => s,
        Err(()) => { return Err(()); },
    };
    let university_parent_id = match get_opt_str(v, "university_parent_id") {
        Ok(s) => s,
        Err(()) => { return Err(()); },
    };
    let university_short_name = match get_req_str(v, "university_short_name") {
        Ok(s) => s,
        Err(()) => { return Err(()); },
    };
    let university_name_en = match get_req_str(v, "university_name_en") {
        Ok(s) => s,
        Err(()) => { return Err(()); },
    };
    let is_from_crimea = match get_req_str(v, "is_from_crimea") {
        Ok(s) => s,
        Err(()) => { return Err(()); },
    };
    let registration_year = match get_req_str(v, "registration_year") {
        Ok(s) => s,
        Err(()) => { return Err(()); },
    };
    let university_type_name = match get_req_str(v, "university_type_name") {
        Ok(s) => s,
        Err(()) => { return Err(()); },
    };
    let university_financing_type_name = match get_req_str(v, "university_financing_type_name") {
        Ok(s) => s,
        Err(()) => { return Err(()); },
    };
    let university_governance_type_name = match get_req_str(v, "university_governance_type_name") {
        Ok(s) => s,
        Err(()) => { return Err(()); },
    };
    let post_index_u = match get_req_str(v, "post_index_u") {
        Ok(s) => s,
        Err(()) => { return Err(()); },
    };
    let katottgcodeu = match get_req_str(v, "katottgcodeu") {
        Ok(s) => s,
        Err(()) => { return Err(()); },
    };
    let katottg_name_u = match get_req_str(v, "katottg_name_u") {
        Ok(s) => s,
        Err(()) => { return Err(()); },
    };
    let region_name_u = match get_req_str(v, "region_name_u") {
        Ok(s) => s,
        Err(()) => { return Err(()); },
    };
    let university_address_u = match get_req_str(v, "university_address_u") {
        Ok(s) => s,
        Err(()) => { return Err(()); },
    };
    let university_phone = match get_req_str(v, "university_phone") {
        Ok(s) => s,
        Err(()) => { return Err(()); },
    };
    let university_email = match get_req_str(v, "university_email") {
        Ok(s) => s,
        Err(()) => { return Err(()); },
    };
    let university_site = match get_req_str(v, "university_site") {
        Ok(s) => s,
        Err(()) => { return Err(()); },
    };
    let university_director_post = match get_req_str(v, "university_director_post") {
        Ok(s) => s,
        Err(()) => { return Err(()); },
    };
    let university_director_fio = match get_req_str(v, "university_director_fio") {
        Ok(s) => s,
        Err(()) => { return Err(()); },
    };
    let close_date = match get_opt_str(v, "close_date") {
        Ok(s) => s,
        Err(()) => { return Err(()); },
    };
    let branches_arr = match get_arr(v, "branches") {
        Ok(a) => a,
        Err(()) => { return Err(()); },
    };
    let branches = match decode_branches(branches_arr) {
        Ok(x) => x,
        Err(()) => {
            proof {
                let es = arr_field(json_model(*v), "branches"@)->Some_0;
                assert(exists|i: int|
                    0 <= i < branches_arr@.len() && !branch_decodable(
                        json_model(branches_arr@[i]),
                    ));
                let i = choose|i: int|
                    0 <= i < branches_arr@.len() && !branch_decodable(
                        json_model(branches_arr@[i]),
                    );
                assert(!branch_decodable(es[i]));
            }
            return Err(());
        },
    };
    let facultets_arr = match get_arr(v, "facultets") {
        Ok(a) => a,
        Err(()) => { return Err(()); },
    };
    let facultets = match decode_strings(facultets_arr) {
        Ok(x) => x,
        Err(()) => {
            proof {
                let es = arr_field(json_model(*v), "facultets"@)->Some_0;
                assert(exists|i: int|
                    0 <= i < facultets_arr@.len() && !(json_model(facultets_arr@[i]) is Text));
                let i = choose|i: int|
                    0 <= i < facultets_arr@.len() && !(json_model(facultets_arr@[i]) is Text);
                assert(!(es[i] is Text));
            }
            return Err(());
        },
    };
    let speciality_arr = match get_arr(v, "speciality_licenses") {
        Ok(a) => a,
        Err(()) => { return Err(()); },
    };
    let speciality_licenses = match decode_speciality_licenses(speciality_arr) {
        Ok(x) => x,
        Err(()) => {
            proof {
                let es = arr_field(json_model(*v), "speciality_licenses"@)->Some_0;
                assert(exists|i: int|
                    0 <= i < speciality_arr@.len() && !speciality_license_decodable(
                        json_model(speciality_arr@[i]),
                    ));
                let i = choose|i: int|
                    0 <= i < speciality_arr@.len() && !speciality_license_decodable(
                        json_model(speciality_arr@[i]),
                    );
                assert(!speciality_license_decodable(es[i]));
            }
            return Err(());
        },
    };
    let profession_arr = match get_arr(v, "profession_licenses") {
        Ok(a) => a,
        Err(()) => { return Err(()); },
    };
    let profession_licenses = match decode_profession_licenses(profession_arr) {
        Ok(x) => x,
        Err(()) => {
            proof {
                let es = arr_field(json_model(*v), "profession_licenses"@)->Some_0;
                assert(exists|i: int|
                    0 <= i < profession_arr@.len() && !profession_license_decodable(
                        json_model(profession_arr@[i]),
                    ));
                let i = choose|i: int|
                    0 <= i < profession_arr@.len() && !profession_license_decodable(
                        json_model(profession_arr@[i]),
                    );
                assert(!profession_license_decodable(es[i]));
            }
            return Err(());
        },
    };
    let educators_arr = match get_arr(v, "educators") {
        Ok(a) => a,
        Err(()) => { return Err(()); },
    };
    let educators = match decode_educators(educators_arr) {
        Ok(x) => x,
        Err(()) => {
            proof {
                let es = arr_field(json_model(*v), "educators"@)->Some_0;
                assert(exists|i: int|
                    0 <= i < educators_arr@.len() && !educator_decodable(
                        json_model(educators_arr@[i]),
                    ));
                let i = choose|i: int|
                    0 <= i < educators_arr@.len() && !educator_decodable(
                        json_model(educators_arr@[i]),
                    );
                assert(!educator_decodable(es[i]));
            }
            return Err(());
        },
    };
    Ok(University {
        university_name,
        university_id,
        university_parent_id,
        university_short_name,
        university_name_en,
        is_from_crimea,
        registration_year,
        university_type_name,
        university_financing_type_name,
        university_governance_type_name,
        post_index_u,
        katottgcodeu,
        katottg_name_u,
        region_name_u,
        university_address_u,
        university_phone,
        university_email,
        university_site,
        university_director_post,
        university_director_fio,
        close_date,
        branches,
        facultets,
        speciality_licenses,
        profession_licenses,
        educators,
    })
}

} // verus!
