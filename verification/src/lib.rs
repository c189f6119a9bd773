//! Typed client for the EDBO registry of Ukrainian education institutions.
//!
//! The registry exposes catalog queries over HTTP/JSON: a filtered list of
//! universities or secondary schools per region and category, and a detail
//! lookup by numeric identifier. Every call validates its required
//! parameters, composes a URL against the fixed host, issues one GET, and
//! decodes the JSON answer into a typed record.

use vstd::prelude::*;

pub mod error;
mod http;
pub mod institution;
pub mod json;
pub mod regions;
pub mod render;
pub mod search;
pub mod university;

pub use error::Error;
pub use institution::{Institution, InstitutionCategory};
pub use regions::Region;
pub use render::dec_digits;
pub use search::SearchParams;
pub use university::{
    Educator, ProfessionLicense, SpecialityLicense, University, UniversityBranch, UniversityBrief,
    UniversityCategory,
};

use crate::http::http_get;
use crate::institution::{decode_institution, decode_institutions, institution_decodable,
    institution_decodes_to};
use crate::json::{js_as_array, js_parse, json_model, json_parse, JsonData};
use crate::university::{brief_decodable, brief_decodes_to, decode_briefs, decode_university,
    university_decodable, university_decodes_to};

verus! {

/// Unwraps a required parameter, or reports which field was missing.
pub fn assert_some<T>(option: Option<T>, field: &str) -> (r: Result<T, Error>)
    ensures
        option matches Some(value) ==> r matches Ok(got) && got == value,
        option is None ==> (r matches Err(e) && e matches Error::OtherError(m) && m@ == field@
            + " cannot be None"@),
{
    match option {
        Some(value) => Ok(value),
        None => Err(Error::OtherError(String::from_str(field).concat(" cannot be None"))),
    }
}

/// The URL of the list-universities query.
pub open spec fn universities_url_chars(ut: UniversityCategory, lc: Region) -> Seq<char> {
    "https://registry.edbo.gov.ua/api/universities?ut="@ + dec_digits(ut.spec_code() as nat)
        + "&lc="@ + dec_digits(lc.spec_code() as nat) + "&exp=json"@
}

/// Composes the list-universities URL: category, then region, then the
/// JSON marker, in that order.
pub fn universities_url(ut: UniversityCategory, lc: Region) -> (s: String)
    ensures
        s@ == universities_url_chars(ut, lc),
{
    let mut s = String::from_str("https://registry.edbo.gov.ua/api/universities?ut=");
    let ut_digits = ut.render();
    s.append(ut_digits.as_str());
    s.append("&lc=");
    let lc_digits = lc.render();
    s.append(lc_digits.as_str());
    s.append("&exp=json");
    s
}

/// The URL of the get-university query.
pub open spec fn university_url_chars(id: i32) -> Seq<char>
    recommends
        id >= 1,
{
    "https://registry.edbo.gov.ua/api/university?id="@ + dec_digits(id as nat) + "&exp=json"@
}

/// Composes the get-university URL.
pub fn university_url(id: i32) -> (s: String)
    requires
        id >= 1,
    ensures
        s@ == university_url_chars(id),
{
    let mut s = String::from_str("https://registry.edbo.gov.ua/api/university?id=");
    let id_digits = render::u32_dec(id as u32);
    s.append(id_digits.as_str());
    s.append("&exp=json");
    s
}

/// The URL of the list-institutions query.
pub open spec fn institutions_url_chars(ut: InstitutionCategory, lc: Region) -> Seq<char> {
    "https://registry.edbo.gov.ua/api/institutions?ut="@ + dec_digits(ut.spec_code() as nat)
        + "&lc="@ + dec_digits(lc.spec_code() as nat) + "&exp=json"@
}

/// Composes the list-institutions URL: category, then region, then the
/// JSON marker, in that order.
pub fn institutions_url(ut: InstitutionCategory, lc: Region) -> (s: String)
    ensures
        s@ == institutions_url_chars(ut, lc),
{
    let mut s = String::from_str("https://registry.edbo.gov.ua/api/institutions?ut=");
    let ut_digits = ut.render();
    s.append(ut_digits.as_str());
    s.append("&lc=");
    let lc_digits = lc.render();
    s.append(lc_digits.as_str());
    s.append("&exp=json");
    s
}

/// The URL of the get-school query.
pub open spec fn school_url_chars(id: i32) -> Seq<char>
    recommends
        id >= 1,
{
    "https://registry.edbo.gov.ua/api/school?id="@ + dec_digits(id as nat) + "&exp=json"@
}

/// Composes the get-school URL.
pub fn school_url(id: i32) -> (s: String)
    requires
        id >= 1,
    ensures
        s@ == school_url_chars(id),
{
    let mut s = String::from_str("https://registry.edbo.gov.ua/api/school?id=");
    let id_digits = render::u32_dec(id as u32);
    s.append(id_digits.as_str());
    s.append("&exp=json");
    s
}

/// Whether an HTTP status code counts as success.
pub open spec fn is_success_status(status: u16) -> bool {
    200 <= status < 300
}

/// What a list-universities call returns for a given transport outcome: a
/// non-2xx status is an API error carrying that code; a 2xx body that is
/// not a JSON array of decodable records is a parsing error; otherwise the
/// decoded list in server order.
pub open spec fn universities_response_rel(
    status: u16,
    body: Seq<char>,
    r: Result<Vec<UniversityBrief>, Error>,
) -> bool {
    if !is_success_status(status) {
        r matches Err(e) && e matches Error::ApiError(code) && code == status
    } else {
        match json_parse(body) {
            Some(m) => match m {
                JsonData::Array(es) => if forall|i: int|
                    0 <= i < es.len() ==> brief_decodable(#[trigger] es[i]) {
                    r matches Ok(out) && out@.len() == es.len() && (forall|i: int|
                        0 <= i < es.len() ==> brief_decodes_to(#[trigger] es[i], out@[i]))
                } else {
                    r matches Err(e) && e is ParsingError
                },
                _ => r matches Err(e) && e is ParsingError,
            },
            None => r matches Err(e) && e is ParsingError,
        }
    }
}

/// Decodes a list-universities transport outcome.
pub fn universities_from_response(status: u16, body: &str) -> (r: Result<
    Vec<UniversityBrief>,
    Error,
>)
    ensures
        universities_response_rel(status, body@, r),
{
    if !(200 <= status && status < 300) {
        return Err(Error::ApiError(status));
    }
    let parsed = match js_parse(body) {
        Ok(v) => v,
        Err(cause) => {
            return Err(Error::ParsingError(cause));
        },
    };
    let arr = match js_as_array(&parsed) {
        Some(a) => a,
        None => {
            return Err(Error::ParsingError(String::from_str("expected a JSON array")));
        },
    };
    match decode_briefs(arr) {
        Ok(list) => {
            proof {
                let es = json_parse(body@)->Some_0->Array_0;
                assert forall|i: int| 0 <= i < es.len() implies brief_decodable(
                    #[trigger] es[i],
                ) && brief_decodes_to(es[i], list@[i]) by {
                    assert(es[i] == json_model(arr@[i]));
                }
            }
            Ok(list)
        },
        Err(()) => {
            proof {
                let es = json_parse(body@)->Some_0->Array_0;
                assert(exists|i: int|
                    0 <= i < arr@.len() && !brief_decodable(json_model(arr@[i])));
                let i = choose|i: int|
                    0 <= i < arr@.len() && !brief_decodable(json_model(arr@[i]));
                assert(!brief_decodable(es[i]));
            }
            Err(Error::ParsingError(String::from_str("malformed university record")))
        },
    }
}

/// What a get-university call returns for a given transport outcome: a
/// non-2xx status is an API error carrying that code; a 2xx body that is
/// not a decodable detail record is a parsing error; otherwise the record.
pub open spec fn university_response_rel(
    status: u16,
    body: Seq<char>,
    r: Result<University, Error>,
) -> bool {
    if !is_success_status(status) {
        r matches Err(e) && e matches Error::ApiError(code) && code == status
    } else {
        match json_parse(body) {
            Some(m) => if university_decodable(m) {
                r matches Ok(u) && university_decodes_to(m, u)
            } else {
                r matches Err(e) && e is ParsingError
            },
            None => r matches Err(e) && e is ParsingError,
        }
    }
}

/// Decodes a get-university transport outcome.
pub fn university_from_response(status: u16, body: &str) -> (r: Result<University, Error>)
    ensures
        university_response_rel(status, body@, r),
{
    if !(200 <= status && status < 300) {
        return Err(Error::ApiError(status));
    }
    let parsed = match js_parse(body) {
        Ok(v) => v,
        Err(cause) => {
            return Err(Error::ParsingError(cause));
        },
    };
    match decode_university(&parsed) {
        Ok(u) => Ok(u),
        Err(()) => Err(Error::ParsingError(String::from_str("malformed university record"))),
    }
}

/// What a list-institutions call returns for a given transport outcome,
/// shaped exactly as for the universities list.
pub open spec fn institutions_response_rel(
    status: u16,
    body: Seq<char>,
    r: Result<Vec<Institution>, Error>,
) -> bool {
    if !is_success_status(status) {
        r matches Err(e) && e matches Error::ApiError(code) && code == status
    } else {
        match json_parse(body) {
            Some(m) => match m {
                JsonData::Array(es) => if forall|i: int|
                    0 <= i < es.len() ==> institution_decodable(#[trigger] es[i]) {
                    r matches Ok(out) && out@.len() == es.len() && (forall|i: int|
                        0 <= i < es.len() ==> institution_decodes_to(#[trigger] es[i], out@[i]))
                } else {
                    r matches Err(e) && e is ParsingError
                },
                _ => r matches Err(e) && e is ParsingError,
            },
            None => r matches Err(e) && e is ParsingError,
        }
    }
}

/// Decodes a list-institutions transport outcome.
pub fn institutions_from_response(status: u16, body: &str) -> (r: Result<Vec<Institution>, Error>)
    ensures
        institutions_response_rel(status, body@, r),
{
    if !(200 <= status && status < 300) {
        return Err(Error::ApiError(status));
    }
    let parsed = match js_parse(body) {
        Ok(v) => v,
        Err(cause) => {
            return Err(Error::ParsingError(cause));
        },
    };
    let arr = match js_as_array(&parsed) {
        Some(a) => a,
        None => {
            return Err(Error::ParsingError(String::from_str("expected a JSON array")));
        },
    };
    match decode_institutions(arr) {
        Ok(list) => {
            proof {
                let es = json_parse(body@)->Some_0->Array_0;
                assert forall|i: int| 0 <= i < es.len() implies institution_decodable(
                    #[trigger] es[i],
                ) && institution_decodes_to(es[i], list@[i]) by {
                    assert(es[i] == json_model(arr@[i]));
                }
            }
            Ok(list)
        },
        Err(()) => {
            proof {
                let es = json_parse(body@)->Some_0->Array_0;
                assert(exists|i: int|
                    0 <= i < arr@.len() && !institution_decodable(json_model(arr@[i])));
                let i = choose|i: int|
                    0 <= i < arr@.len() && !institution_decodable(json_model(arr@[i]));
                assert(!institution_decodable(es[i]));
            }
            Err(Error::ParsingError(String::from_str("malformed institution record")))
        },
    }
}

/// What a get-school call returns for a given transport outcome, shaped
/// exactly as for the university detail.
pub open spec fn school_response_rel(
    status: u16,
    body: Seq<char>,
    r: Result<Institution, Error>,
) -> bool {
    if !is_success_status(status) {
        r matches Err(e) && e matches Error::ApiError(code) && code == status
    } else {
        match json_parse(body) {
            Some(m) => if institution_decodable(m) {
                r matches Ok(s) && institution_decodes_to(m, s)
            } else {
                r matches Err(e) && e is ParsingError
            },
            None => r matches Err(e) && e is ParsingError,
        }
    }
}

/// Decodes a get-school transport outcome.
pub fn school_from_response(status: u16, body: &str) -> (r: Result<Institution, Error>)
    ensures
        school_response_rel(status, body@, r),
{
    if !(200 <= status && status < 300) {
        return Err(Error::ApiError(status));
    }
    let parsed = match js_parse(body) {
        Ok(v) => v,
        Err(cause) => {
            return Err(Error::ParsingError(cause));
        },
    };
    match decode_institution(&parsed) {
        Ok(s) => Ok(s),
        Err(()) => Err(Error::ParsingError(String::from_str("malformed institution record"))),
    }
}

/// An empty JSON array from the universities list endpoint is a success
/// carrying an empty list, never an error.
pub proof fn lemma_empty_universities_list_is_success(
    status: u16,
    body: Seq<char>,
    r: Result<Vec<UniversityBrief>, Error>,
)
    requires
        is_success_status(status),
        json_parse(body) == Some(JsonData::Array(Seq::<JsonData>::empty())),
        universities_response_rel(status, body, r),
    ensures
        r matches Ok(out) && out@.len() == 0,
{
}

/// An empty JSON array from the institutions list endpoint is a success
/// carrying an empty list, never an error.
pub proof fn lemma_empty_institutions_list_is_success(
    status: u16,
    body: Seq<char>,
    r: Result<Vec<Institution>, Error>,
)
    requires
        is_success_status(status),
        json_parse(body) == Some(JsonData::Array(Seq::<JsonData>::empty())),
        institutions_response_rel(status, body, r),
    ensures
        r matches Ok(out) && out@.len() == 0,
{
}

/// Lists universities in a region, filtered by category (blocking form).
///
/// Requires `university_category` and `region` to be populated, checked in
/// that order; `id` and `institution_category` are ignored. On valid
/// parameters one GET is issued and its outcome decoded; nothing else can
/// be promised of an answer that the network delivers.
pub fn search_universities(param: SearchParams) -> (r: Result<Vec<UniversityBrief>, Error>)
    ensures
        param.university_category is None ==> (r matches Err(e) && e matches Error::OtherError(m)
            && m@ == "university_category cannot be None"@),
        param.university_category is Some && param.region is None ==> (r matches Err(e)
            && e matches Error::OtherError(m) && m@ == "region cannot be None"@),
        param.university_category is Some && param.region is Some ==> ((r matches Err(e)
            && e is NetworkError) || (exists|status: u16, body: Seq<char>|
            universities_response_rel(status, body, r))),
{
    proof {
        reveal_strlit("university_category");
        reveal_strlit("region");
        reveal_strlit(" cannot be None");
        reveal_strlit("university_category cannot be None");
        reveal_strlit("region cannot be None");
    }
    let ut = match assert_some(param.university_category, "university_category") {
        Ok(v) => v,
        Err(e) => {
            return Err(e);
        },
    };
    let lc = match assert_some(param.region, "region") {
        Ok(v) => v,
        Err(e) => {
            return Err(e);
        },
    };
    let url = universities_url(ut, lc);
    let (status, body) = match http_get(url.as_str()) {
        Ok(p) => p,
        Err(cause) => {
            return Err(Error::NetworkError(cause));
        },
    };
    let r = universities_from_response(status, body.as_str());
    proof {
        assert(universities_response_rel(status, body@, r));
    }
    r
}

/// Gets the detail record of one university by its identifier (blocking
/// form).
///
/// Requires `id` to be populated and positive. On a valid identifier one
/// GET is issued and its outcome decoded.
pub fn search_university(param: SearchParams) -> (r: Result<University, Error>)
    ensures
        param.id is None ==> (r matches Err(e) && e matches Error::OtherError(m) && m@
            == "id cannot be None"@),
        param.id matches Some(id) && id < 1 ==> (r matches Err(e) && e matches Error::OtherError(m)
            && m@ == "University ID must be positive"@),
        param.id matches Some(id) && id >= 1 ==> ((r matches Err(e) && e is NetworkError) || (
        exists|status: u16, body: Seq<char>| university_response_rel(status, body, r))),
{
    proof {
        reveal_strlit("id");
        reveal_strlit(" cannot be None");
        reveal_strlit("id cannot be None");
    }
    let id = match assert_some(param.id, "id") {
        Ok(v) => v,
        Err(e) => {
            return Err(e);
        },
    };
    if id < 1 {
        return Err(Error::OtherError(String::from_str("University ID must be positive")));
    }
    let url = university_url(id);
    let (status, body) = match http_get(url.as_str()) {
        Ok(p) => p,
        Err(cause) => {
            return Err(Error::NetworkError(cause));
        },
    };
    let r = university_from_response(status, body.as_str());
    proof {
        assert(university_response_rel(status, body@, r));
    }
    r
}

/// Lists secondary-education institutions in a region, filtered by
/// category (blocking form).
///
/// Requires `institution_category` and `region` to be populated, checked
/// in that order.
pub fn search_institutions(param: SearchParams) -> (r: Result<Vec<Institution>, Error>)
    ensures
        param.institution_category is None ==> (r matches Err(e) && e matches Error::OtherError(m)
            && m@ == "institution_category cannot be None"@),
        param.institution_category is Some && param.region is None ==> (r matches Err(e)
            && e matches Error::OtherError(m) && m@ == "region cannot be None"@),
        param.institution_category is Some && param.region is Some ==> ((r matches Err(e)
            && e is NetworkError) || (exists|status: u16, body: Seq<char>|
            institutions_response_rel(status, body, r))),
{
    proof {
        reveal_strlit("institution_category");
        reveal_strlit("region");
        reveal_strlit(" cannot be None");
        reveal_strlit("institution_category cannot be None");
        reveal_strlit("region cannot be None");
    }
    let ut = match assert_some(param.institution_category, "institution_category") {
        Ok(v) => v,
        Err(e) => {
            return Err(e);
        },
    };
    let lc = match assert_some(param.region, "region") {
        Ok(v) => v,
        Err(e) => {
            return Err(e);
        },
    };
    let url = institutions_url(ut, lc);
    let (status, body) = match http_get(url.as_str()) {
        Ok(p) => p,
        Err(cause) => {
            return Err(Error::NetworkError(cause));
        },
    };
    let r = institutions_from_response(status, body.as_str());
    proof {
        assert(institutions_response_rel(status, body@, r));
    }
    r
}

/// Gets the record of one secondary school by its identifier (blocking
/// form).
///
/// Requires `id` to be populated and positive.
pub fn search_school(param: SearchParams) -> (r: Result<Institution, Error>)
    ensures
        param.id is None ==> (r matches Err(e) && e matches Error::OtherError(m) && m@
            == "id cannot be None"@),
        param.id matches Some(id) && id < 1 ==> (r matches Err(e) && e matches Error::OtherError(m)
            && m@ == "School ID must be positive"@),
        param.id matches Some(id) && id >= 1 ==> ((r matches Err(e) && e is NetworkError) || (
        exists|status: u16, body: Seq<char>| school_response_rel(status, body, r))),
{
    proof {
        reveal_strlit("id");
        reveal_strlit(" cannot be None");
        reveal_strlit("id cannot be None");
    }
    let id = match assert_some(param.id, "id") {
        Ok(v) => v,
        Err(e) => {
            return Err(e);
        },
    };
    if id < 1 {
        return Err(Error::OtherError(String::from_str("School ID must be positive")));
    }
    let url = school_url(id);
    let (status, body) = match http_get(url.as_str()) {
        Ok(p) => p,
        Err(cause) => {
            return Err(Error::NetworkError(cause));
        },
    };
    let r = school_from_response(status, body.as_str());
    proof {
        assert(school_response_rel(status, body@, r));
    }
    r
}

} // verus!
