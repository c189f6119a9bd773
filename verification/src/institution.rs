//! Secondary-school categories and the records the institutions endpoints
//! return.

use vstd::prelude::*;

use crate::json::{get_opt_str, get_req_str, js_as_u64, js_field, js_u64_value, json_model,
    opt_field_ok, str_field, JsonData};
use crate::render::{dec_digits, u32_dec};

verus! {

/// A secondary-institution classifier. The registry publishes more codes
/// than are mapped here; the set is closed but expected to grow.
#[derive(Debug, Clone, Copy, PartialEq, Eq, Structural)]
pub enum InstitutionCategory {
    GeneralSecondaryEducationInstitutions,
}

impl InstitutionCategory {
    /// The frozen registry code of each category.
    pub open spec fn spec_code(self) -> u32 {
        match self {
            InstitutionCategory::GeneralSecondaryEducationInstitutions => 3,
        }
    }

    /// The category a registry code stands for, if any.
    pub open spec fn spec_from_code(code: u32) -> Option<InstitutionCategory> {
        if code == 3 {
            Some(InstitutionCategory::GeneralSecondaryEducationInstitutions)
        } else {
            None
        }
    }

    /// The registry code of this category.
    pub fn code(self) -> (c: u32)
        ensures
            c == self.spec_code(),
    {
        match self {
            InstitutionCategory::GeneralSecondaryEducationInstitutions => 3,
        }
    }

    /// Decodes a registry code back into a category.
    pub fn from_code(code: u32) -> (r: Option<InstitutionCategory>)
        ensures
            r == InstitutionCategory::spec_from_code(code),
    {
        match code {
            3 => Some(InstitutionCategory::GeneralSecondaryEducationInstitutions),
            _ => None,
        }
    }

    /// Renders this category for a URL: exactly the decimal digits of its
    /// code, with no padding.
    pub fn render(self) -> (s: String)
        ensures
            s@ == dec_digits(self.spec_code() as nat),
    {
        u32_dec(self.code())
    }

    /// Encodes this category as JSON: the bare integer code, never the
    /// variant name.
    pub fn to_json(self) -> (v: serde_json::Value)
        ensures
            json_model(v) == JsonData::Number(dec_digits(self.spec_code() as nat)),
    {
        js_u64_value(self.code() as u64)
    }

    /// Decodes a JSON value into a category: exactly the integer codes of
    /// the variants are accepted, so decoding an encoded category yields
    /// it back.
    pub fn from_json(v: &serde_json::Value) -> (r: Option<InstitutionCategory>)
        ensures
            r matches Some(c) ==> json_model(*v) == JsonData::Number(
                dec_digits(c.spec_code() as nat),
            ),
            forall|c: InstitutionCategory|
                json_model(*v) == JsonData::Number(dec_digits(c.spec_code() as nat)) ==> r == Some(
                    c,
                ),
    {
        let code = match js_as_u64(v) {
            Some(n) => n,
            None => {
                proof {
                    assert forall|c: InstitutionCategory|
                        json_model(*v) != JsonData::Number(dec_digits(c.spec_code() as nat)) by {
                        assert(dec_digits(c.spec_code() as nat) == dec_digits(
                            (c.spec_code() as u64) as nat,
                        ));
                    }
                }
                return None;
            },
        };
        if code > 0xFFFF_FFFFu64 {
            proof {
                assert forall|c: InstitutionCategory|
                    json_model(*v) != JsonData::Number(dec_digits(c.spec_code() as nat)) by {
                    assert(dec_digits(c.spec_code() as nat) == dec_digits(
                        (c.spec_code() as u64) as nat,
                    ));
                }
            }
            return None;
        }
        let r = InstitutionCategory::from_code(code as u32);
        proof {
            assert forall|c: InstitutionCategory|
                json_model(*v) == JsonData::Number(dec_digits(c.spec_code() as nat)) implies r
                == Some(c) by {
                assert(dec_digits(c.spec_code() as nat) == dec_digits(
                    (c.spec_code() as u64) as nat,
                ));
                lemma_institution_category_code_round_trip(c);
            }
            if r matches Some(c) {
                lemma_institution_category_code_injective(code as u32);
            }
        }
        r
    }
}

/// Encoding a category as its code and decoding that code yields the
/// category back.
pub proof fn lemma_institution_category_code_round_trip(c: InstitutionCategory)
    ensures
        InstitutionCategory::spec_from_code(c.spec_code()) == Some(c),
{
}

/// A code that decodes to a category is exactly that category's code.
pub proof fn lemma_institution_category_code_injective(code: u32)
    ensures
        InstitutionCategory::spec_from_code(code) matches Some(c) ==> c.spec_code() == code,
{
}

/// The record of a secondary school, as both institutions endpoints return
/// it.
#[derive(Debug)]
pub struct Institution {
    pub institution_name: String,
    pub institution_id: String,
    pub is_checked: String,
    pub short_name: String,
    pub state_name: String,
    pub institution_type_name: String,
    pub university_financing_type_name: String,
    pub koatuu_id: String,
    pub region_name: String,
    pub koatuu_name: String,
    pub address: String,
    pub parent_institution_id: Option<String>,
    pub governance_name: String,
    pub phone: String,
    pub fax: String,
    pub email: String,
    pub website: String,
    pub boss: String,
    pub support_name: String,
    pub is_village: String,
    pub is_mountain: String,
    pub is_internat: String,
    pub approved_count: Option<String>,
}

/// Whether a document has every field an institution record requires, each
/// required one a string and each optional one absent, null or a string.
pub open spec fn institution_decodable(m: JsonData) -> bool {
    &&& str_field(m, "institution_name"@) is Some
    &&& str_field(m, "institution_id"@) is Some
    &&& str_field(m, "is_checked"@) is Some
    &&& str_field(m, "short_name"@) is Some
    &&& str_field(m, "state_name"@) is Some
    &&& str_field(m, "institution_type_name"@) is Some
    &&& str_field(m, "university_financing_type_name"@) is Some
    &&& str_field(m, "koatuu_id"@) is Some
    &&& str_field(m, "region_name"@) is Some
    &&& str_field(m, "koatuu_name"@) is Some
    &&& str_field(m, "address"@) is Some
    &&& opt_field_ok(m, "parent_institution_id"@)
    &&& str_field(m, "governance_name"@) is Some
    &&& str_field(m, "phone"@) is Some
    &&& str_field(m, "fax"@) is Some
    &&& str_field(m, "email"@) is Some
    &&& str_field(m, "website"@) is Some
    &&& str_field(m, "boss"@) is Some
    &&& str_field(m, "support_name"@) is Some
    &&& str_field(m, "is_village"@) is Some
    &&& str_field(m, "is_mountain"@) is Some
    &&& str_field(m, "is_internat"@) is Some
    &&& opt_field_ok(m, "approved_count"@)
}

/// The institution record a document decodes to, field by field.
pub open spec fn institution_decodes_to(m: JsonData, s: Institution) -> bool {
    &&& str_field(m, "institution_name"@) == Some(s.institution_name@)
    &&& str_field(m, "institution_id"@) == Some(s.institution_id@)
    &&& str_field(m, "is_checked"@) == Some(s.is_checked@)
    &&& str_field(m, "short_name"@) == Some(s.short_name@)
    &&& str_field(m, "state_name"@) == Some(s.state_name@)
    &&& str_field(m, "institution_type_name"@) == Some(s.institution_type_name@)
    &&& str_field(m, "university_financing_type_name"@) == Some(
        s.university_financing_type_name@,
    )
    &&& str_field(m, "koatuu_id"@) == Some(s.koatuu_id@)
    &&& str_field(m, "region_name"@) == Some(s.region_name@)
    &&& str_field(m, "koatuu_name"@) == Some(s.koatuu_name@)
    &&& str_field(m, "address"@) == Some(s.address@)
    &&& match s.parent_institution_id {
        Some(t) => str_field(m, "parent_institution_id"@) == Some(t@),
        None => str_field(m, "parent_institution_id"@) is None,
    }
    &&& str_field(m, "governance_name"@) == Some(s.governance_name@)
    &&& str_field(m, "phone"@) == Some(s.phone@)
    &&& str_field(m, "fax"@) == Some(s.fax@)
    &&& str_field(m, "email"@) == Some(s.email@)
    &&& str_field(m, "website"@) == Some(s.website@)
    &&& str_field(m, "boss"@) == Some(s.boss@)
    &&& str_field(m, "support_name"@) == Some(s.support_name@)
    &&& str_field(m, "is_village"@) == Some(s.is_village@)
    &&& str_field(m, "is_mountain"@) == Some(s.is_mountain@)
    &&& str_field(m, "is_internat"@) == Some(s.is_internat@)
    &&& match s.approved_count {
        Some(t) => str_field(m, "approved_count"@) == Some(t@),
        None => str_field(m, "approved_count"@) is None,
    }
}

/// The field names the institution record reads; every other field of a
/// response object is ignored.
pub open spec fn institution_field_names() -> Set<Seq<char>> {
    set![
        "institution_name"@,
        "institution_id"@,
        "is_checked"@,
        "short_name"@,
        "state_name"@,
        "institution_type_name"@,
        "university_financing_type_name"@,
        "koatuu_id"@,
        "region_name"@,
        "koatuu_name"@,
        "address"@,
        "parent_institution_id"@,
        "governance_name"@,
        "phone"@,
        "fax"@,
        "email"@,
        "website"@,
        "boss"@,
        "support_name"@,
        "is_village"@,
        "is_mountain"@,
        "is_internat"@,
        "approved_count"@,
    ]
}

/// Decoding an institution record tolerates unknown fields: adding a field
/// whose name the record does not read changes neither whether an object
/// decodes nor what it decodes to.
pub proof fn lemma_institution_ignores_unknown_fields(
    fields: Map<Seq<char>, JsonData>,
    k: Seq<char>,
    w: JsonData,
    s: Institution,
)
    requires
        !institution_field_names().contains(k),
    ensures
        institution_decodable(JsonData::Object(fields.insert(k, w))) == institution_decodable(
            JsonData::Object(fields),
        ),
        institution_decodes_to(JsonData::Object(fields.insert(k, w)), s) == institution_decodes_to(
            JsonData::Object(fields),
            s,
        ),
{
    assert forall|name: Seq<char>| name != k implies js_field(
        JsonData::Object(fields.insert(k, w)),
        name,
    ) == js_field(JsonData::Object(fields), name) by {
    }
}

/// Decodes one institution record.
pub fn decode_institution(v: &serde_json::Value) -> (r: Result<Institution, ()>)
    ensures
        r is Ok <==> institution_decodable(json_model(*v)),
        r matches Ok(s) ==> institution_decodes_to(json_model(*v), s),
{
    let institution_name = match get_req_str(v, "institution_name") {
        Ok(s) => s,
        Err(()) => { return Err(()); },
    };
    let institution_id = match get_req_str(v, "institution_id") {
        Ok(s) => s,
        Err(()) => { return Err(()); },
    };
    let is_checked = match get_req_str(v, "is_checked") {
        Ok(s) => s,
        Err(()) => { return Err(()); },
    };
    let short_name = match get_req_str(v, "short_name") {
        Ok(s) => s,
        Err(()) => { return Err(()); },
    };
    let state_name = match get_req_str(v, "state_name") {
        Ok(s) => s,
        Err(()) => { return Err(()); },
    };
    let institution_type_name = match get_req_str(v, "institution_type_name") {
        Ok(s) => s,
        Err(()) => { return Err(()); },
    };
    let university_financing_type_name = match get_req_str(v, "university_financing_type_name") {
        Ok(s) => s,
        Err(()) => { return Err(()); },
    };
    let koatuu_id = match get_req_str(v, "koatuu_id") {
        Ok(s) => s,
        Err(()) => { return Err(()); },
    };
    let region_name = match get_req_str(v, "region_name") {
        Ok(s) => s,
        Err(()) => { return Err(()); },
    };
    let koatuu_name = match get_req_str(v, "koatuu_name") {
        Ok(s) => s,
        Err(()) => { return Err(()); },
    };
    let address = match get_req_str(v, "address") {
        Ok(s) => s,
        Err(()) => { return Err(()); },
    };
    let parent_institution_id = match get_opt_str(v, "parent_institution_id") {
        Ok(s) => s,
        Err(()) => { return Err(()); },
    };
    let governance_name = match get_req_str(v, "governance_name") {
        Ok(s) => s,
        Err(()) => { return Err(()); },
    };
    let phone = match get_req_str(v, "phone") {
        Ok(s) => s,
        Err(()) => { return Err(()); },
    };
    let fax = match get_req_str(v, "fax") {
        Ok(s) => s,
        Err(()) => { return Err(()); },
    };
    let email = match get_req_str(v, "email") {
        Ok(s) => s,
        Err(()) => { return Err(()); },
    };
    let website = match get_req_str(v, "website") {
        Ok(s) => s,
        Err(()) => { return Err(()); },
    };
    let boss = match get_req_str(v, "boss") {
        Ok(s) => s,
        Err(()) => { return Err(()); },
    };
    let support_name = match get_req_str(v, "support_name") {
        Ok(s) => s,
        Err(()) => { return Err(()); },
    };
    let is_village = match get_req_str(v, "is_village") {
        Ok(s) => s,
        Err(()) => { return Err(()); },
    };
    let is_mountain = match get_req_str(v, "is_mountain") {
        Ok(s) => s,
        Err(()) => { return Err(()); },
    };
    let is_internat = match get_req_str(v, "is_internat") {
        Ok(s) => s,
        Err(()) => { return Err(()); },
    };
    let approved_count = match get_opt_str(v, "approved_count") {
        Ok(s) => s,
        Err(()) => { return Err(()); },
    };
    Ok(Institution {
        institution_name,
        institution_id,
        is_checked,
        short_name,
        state_name,
        institution_type_name,
        university_financing_type_name,
        koatuu_id,
        region_name,
        koatuu_name,
        address,
        parent_institution_id,
        governance_name,
        phone,
        fax,
        email,
        website,
        boss,
        support_name,
        is_village,
        is_mountain,
        is_internat,
        approved_count,
    })
}

/// Decodes a whole array of institution records, keeping server order.
pub fn decode_institutions(a: &Vec<serde_json::Value>) -> (r: Result<Vec<Institution>, ()>)
    ensures
        r is Ok <==> (forall|i: int|
            0 <= i < a@.len() ==> institution_decodable(#[trigger] json_model(a@[i]))),
        r matches Ok(out) ==> out@.len() == a@.len() && (forall|i: int|
            0 <= i < a@.len() ==> institution_decodes_to(#[trigger] json_model(a@[i]), out@[i])),
{
    let mut out: Vec<Institution> = Vec::new();
    let mut i: usize = 0;
    while i < a.len()
        invariant
            i <= a@.len(),
            out@.len() == i,
            forall|j: int|
                0 <= j < i ==> institution_decodable(#[trigger] json_model(a@[j]))
                    && institution_decodes_to(json_model(a@[j]), out@[j]),
        decreases a@.len() - i,
    {
        match decode_institution(&a[i]) {
            Ok(s) => out.push(s),
            Err(()) => {
                assert(!institution_decodable(json_model(a@[i as int])));
                return Err(());
            },
        }
        i += 1;
    }
    Ok(out)
}

} // verus!
