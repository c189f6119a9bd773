//! The parameter aggregate every query operation consumes.

use vstd::prelude::*;

use crate::institution::InstitutionCategory;
use crate::regions::Region;
use crate::university::UniversityCategory;

verus! {

/// Search parameters for the query operations: four optional slots, all
/// starting empty, populated one each by the chainable setters. The
/// aggregate imposes no cross-field rules; each operation checks its own
/// required subset.
#[derive(Debug, Clone, Copy)]
pub struct SearchParams {
    pub id: Option<i32>,
    pub region: Option<Region>,
    pub university_category: Option<UniversityCategory>,
    pub institution_category: Option<InstitutionCategory>,
}

impl SearchParams {
    /// An aggregate with every slot empty.
    pub fn new() -> (p: SearchParams)
        ensures
            p.id is None,
            p.region is None,
            p.university_category is None,
            p.institution_category is None,
    {
        SearchParams { id: None, region: None, university_category: None, institution_category: None }
    }

    /// Populates the `id` slot and leaves the others as they were.
    pub fn with_id(self, id: i32) -> (p: SearchParams)
        ensures
            p.id == Some(id),
            p.region == self.region,
            p.university_category == self.university_category,
            p.institution_category == self.institution_category,
    {
        SearchParams { id: Some(id), ..self }
    }

    /// Populates the `region` slot and leaves the others as they were.
    pub fn with_region(self, region: Region) -> (p: SearchParams)
        ensures
            p.id == self.id,
            p.region == Some(region),
            p.university_category == self.university_category,
            p.institution_category == self.institution_category,
    {
        SearchParams { region: Some(region), ..self }
    }

    /// Populates the `university_category` slot and leaves the others as
    /// they were.
    pub fn with_university_category(self, university_category: UniversityCategory) -> (p:
        SearchParams)
        ensures
            p.id == self.id,
            p.region == self.region,
            p.university_category == Some(university_category),
            p.institution_category == self.institution_category,
    {
        SearchParams { university_category: Some(university_category), ..self }
    }

    /// Populates the `institution_category` slot and leaves the others as
    /// they were.
    pub fn with_institution_category(self, institution_category: InstitutionCategory) -> (p:
        SearchParams)
        ensures
            p.id == self.id,
            p.region == self.region,
            p.university_category == self.university_category,
            p.institution_category == Some(institution_category),
    {
        SearchParams { institution_category: Some(institution_category), ..self }
    }
}

impl Default for SearchParams {
    /// The same empty aggregate `new` builds.
    fn default() -> (p: SearchParams)
        ensures
            p.id is None,
            p.region is None,
            p.university_category is None,
            p.institution_category is None,
    {
        SearchParams::new()
    }
}

} // verus!
