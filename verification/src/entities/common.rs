//! Entity shapes shared across the service's resources. Each constructor
//! yields the empty value: every field absent, ready to be filled from a
//! partial document.

use std::collections::HashMap;
use vstd::prelude::*;

verus! {

/// An article processing charge.
#[derive(Debug)]
pub struct Apc {
    pub value: Option<usize>,
    pub currency: Option<String>,
    pub provenance: Option<String>,
    pub value_usd: Option<usize>,
}

impl Apc {
    /// The empty value: every field absent.
    pub fn new() -> (r: Self)
        ensures
            r.value is None,
            r.currency is None,
            r.provenance is None,
            r.value_usd is None,
    {
        Apc { value: None, currency: None, provenance: None, value_usd: None }
    }
}

/// Bibliographic placement of a work within its source.
#[derive(Debug)]
pub struct Biblio {
    pub volume: Option<String>,
    pub issue: Option<String>,
    pub first_page: Option<String>,
    pub last_page: Option<String>,
}

impl Biblio {
    /// The empty value: every field absent.
    pub fn new() -> (r: Self)
        ensures
            r.volume is None,
            r.issue is None,
            r.first_page is None,
            r.last_page is None,
    {
        Biblio { volume: None, issue: None, first_page: None, last_page: None }
    }
}

/// How often something was cited in one year.
#[derive(Debug)]
pub struct YearCount {
    pub year: Option<usize>,
    pub cited_by_count: Option<usize>,
}

impl YearCount {
    /// The empty value: every field absent.
    pub fn new() -> (r: Self)
        ensures
            r.year is None,
            r.cited_by_count is None,
    {
        YearCount { year: None, cited_by_count: None }
    }
}

/// A percentile band over publication years.
#[derive(Debug)]
pub struct PercentileYear {
    pub max: Option<usize>,
    pub min: Option<usize>,
}

impl PercentileYear {
    /// The empty value: every field absent.
    pub fn new() -> (r: Self)
        ensures
            r.max is None,
            r.min is None,
    {
        PercentileYear { max: None, min: None }
    }
}

/// A grant a work acknowledges.
#[derive(Debug)]
pub struct Grant {
    pub funder: Option<String>,
    pub funder_display_name: Option<String>,
    pub award_id: Option<String>,
}

impl Grant {
    /// The empty value: every field absent.
    pub fn new() -> (r: Self)
        ensures
            r.funder is None,
            r.funder_display_name is None,
            r.award_id is None,
    {
        Grant { funder: None, funder_display_name: None, award_id: None }
    }
}

/// A medical subject heading attached to a work.
#[derive(Debug)]
pub struct MeshTag {
    pub descriptor_ui: Option<String>,
    pub descriptor_name: Option<String>,
    pub qualifier_ui: Option<String>,
    pub qualifier_name: Option<String>,
    pub is_major_topic: Option<bool>,
}

impl MeshTag {
    /// The empty value: every field absent.
    pub fn new() -> (r: Self)
        ensures
            r.descriptor_ui is None,
            r.descriptor_name is None,
            r.qualifier_ui is None,
            r.qualifier_name is None,
            r.is_major_topic is None,
    {
        MeshTag {
            descriptor_ui: None,
            descriptor_name: None,
            qualifier_ui: None,
            qualifier_name: None,
            is_major_topic: None,
        }
    }
}

/// The identifiers a work is known by.
#[derive(Debug)]
pub struct WorkIds {
    pub openalex: Option<String>,
    pub doi: Option<String>,
    pub mag: Option<String>,
    pub pmid: Option<String>,
    pub pmcid: Option<String>,
}

impl WorkIds {
    /// The empty value: every field absent.
    pub fn new() -> (r: Self)
        ensures
            r.openalex is None,
            r.doi is None,
            r.mag is None,
            r.pmid is None,
            r.pmcid is None,
    {
        WorkIds { openalex: None, doi: None, mag: None, pmid: None, pmcid: None }
    }
}

/// Open-access standing of a work.
#[derive(Debug)]
pub struct OpenAccess {
    pub is_oa: Option<bool>,
    pub oa_status: Option<String>,
    pub oa_url: Option<String>,
    pub any_repository_has_fulltext: Option<bool>,
}

impl OpenAccess {
    /// The empty value: every field absent.
    pub fn new() -> (r: Self)
        ensures
            r.is_oa is None,
            r.oa_status is None,
            r.oa_url is None,
            r.any_repository_has_fulltext is None,
    {
        OpenAccess {
            is_oa: None,
            oa_status: None,
            oa_url: None,
            any_repository_has_fulltext: None,
        }
    }
}

/// Output and citations of an entity in one year.
#[derive(Debug)]
pub struct CountByYear {
    pub year: Option<i32>,
    pub works_count: Option<i32>,
    pub cited_by_count: Option<i32>,
}

impl CountByYear {
    /// The empty value: every field absent.
    pub fn new() -> (r: Self)
        ensures
            r.year is None,
            r.works_count is None,
            r.cited_by_count is None,
    {
        CountByYear { year: None, works_count: None, cited_by_count: None }
    }
}

/// The identifiers a publisher is known by.
#[derive(Debug)]
pub struct PublisherIds {
    pub openalex: Option<String>,
    pub ror: Option<String>,
    pub wikidata: Option<String>,
}

impl PublisherIds {
    /// The empty value: every field absent.
    pub fn new() -> (r: Self)
        ensures
            r.openalex is None,
            r.ror is None,
            r.wikidata is None,
    {
        PublisherIds { openalex: None, ror: None, wikidata: None }
    }
}

/// A role an organization plays, with its share of works.
#[derive(Debug)]
pub struct Role {
    pub role: Option<String>,
    pub id: Option<String>,
    pub works_count: Option<i32>,
}

impl Role {
    /// The empty value: every field absent.
    pub fn new() -> (r: Self)
        ensures
            r.role is None,
            r.id is None,
            r.works_count is None,
    {
        Role { role: None, id: None, works_count: None }
    }
}

/// Output and citations of an entity in one year.
#[derive(Debug)]
pub struct CountsByYear {
    pub year: Option<i32>,
    pub works_count: Option<i32>,
    pub cited_by_count: Option<i32>,
}

impl CountsByYear {
    /// The empty value: every field absent.
    pub fn new() -> (r: Self)
        ensures
            r.year is None,
            r.works_count is None,
            r.cited_by_count is None,
    {
        CountsByYear { year: None, works_count: None, cited_by_count: None }
    }
}

/// The identifiers a funder is known by.
#[derive(Debug)]
pub struct FunderIds {
    pub crossref: Option<String>,
    pub doi: Option<String>,
    pub openalex: Option<String>,
    pub ror: Option<String>,
    pub wikidata: Option<String>,
}

impl FunderIds {
    /// The empty value: every field absent.
    pub fn new() -> (r: Self)
        ensures
            r.crossref is None,
            r.doi is None,
            r.openalex is None,
            r.ror is None,
            r.wikidata is None,
    {
        FunderIds { crossref: None, doi: None, openalex: None, ror: None, wikidata: None }
    }
}

/// An author's tie to an institution over some years.
#[derive(Debug)]
pub struct Affiliation {
    pub institution: Option<DehydratedInstitution>,
    pub years: Option<Vec<i32>>,
}

impl Affiliation {
    /// The empty value: every field absent.
    pub fn new() -> (r: Self)
        ensures
            r.institution is None,
            r.years is None,
    {
        Affiliation { institution: None, years: None }
    }
}

/// The identifiers an author is known by.
#[derive(Debug)]
pub struct AuthorIds {
    pub openalex: Option<String>,
    pub orcid: Option<String>,
    pub scopus: Option<String>,
    pub twitter: Option<String>,
    pub wikipedia: Option<String>,
}

impl AuthorIds {
    /// The empty value: every field absent.
    pub fn new() -> (r: Self)
        ensures
            r.openalex is None,
            r.orcid is None,
            r.scopus is None,
            r.twitter is None,
            r.wikipedia is None,
    {
        AuthorIds { openalex: None, orcid: None, scopus: None, twitter: None, wikipedia: None }
    }
}

/// The abbreviated form of an institution carried inside other entities.
#[derive(Debug)]
pub struct DehydratedInstitution {
    pub id: Option<String>,
    pub ror: Option<String>,
    pub display_name: Option<String>,
    pub country_code: Option<String>,
    pub institution_type: Option<String>,
    pub lineage: Option<Vec<String>>,
}

impl DehydratedInstitution {
    /// The empty value: every field absent.
    pub fn new() -> (r: Self)
        ensures
            r.id is None,
            r.ror is None,
            r.display_name is None,
            r.country_code is None,
            r.institution_type is None,
            r.lineage is None,
    {
        DehydratedInstitution {
            id: None,
            ror: None,
            display_name: None,
            country_code: None,
            institution_type: None,
            lineage: None,
        }
    }
}

/// One listed price of an article processing charge.
#[derive(Debug)]
pub struct ApcPrice {
    pub price: Option<i32>,
    pub currency: Option<String>,
}

impl ApcPrice {
    /// The empty value: every field absent.
    pub fn new() -> (r: Self)
        ensures
            r.price is None,
            r.currency is None,
    {
        ApcPrice { price: None, currency: None }
    }
}

/// The identifiers a source is known by.
#[derive(Debug)]
pub struct SourceIds {
    pub fatcat: Option<String>,
    pub issn: Option<Vec<String>>,
    pub issn_l: Option<String>,
    pub mag: Option<String>,
    pub openalex: Option<String>,
    pub wikidata: Option<String>,
}

impl SourceIds {
    /// The empty value: every field absent.
    pub fn new() -> (r: Self)
        ensures
            r.fatcat is None,
            r.issn is None,
            r.issn_l is None,
            r.mag is None,
            r.openalex is None,
            r.wikidata is None,
    {
        SourceIds {
            fatcat: None,
            issn: None,
            issn_l: None,
            mag: None,
            openalex: None,
            wikidata: None,
        }
    }
}

/// A learned society attached to a source.
#[derive(Debug)]
pub struct Society {
    pub url: Option<String>,
    pub organization: Option<String>,
}

impl Society {
    /// The empty value: every field absent.
    pub fn new() -> (r: Self)
        ensures
            r.url is None,
            r.organization is None,
    {
        Society { url: None, organization: None }
    }
}

/// The identifiers a concept is known by.
#[derive(Debug)]
pub struct ConceptIds {
    pub mag: Option<i64>,
    pub openalex: Option<String>,
    pub umls_cui: Option<Vec<String>>,
    pub umls_aui: Option<Vec<String>>,
    pub wikidata: Option<String>,
    pub wikipedia: Option<String>,
}

impl ConceptIds {
    /// The empty value: every field absent.
    pub fn new() -> (r: Self)
        ensures
            r.mag is None,
            r.openalex is None,
            r.umls_cui is None,
            r.umls_aui is None,
            r.wikidata is None,
            r.wikipedia is None,
    {
        ConceptIds {
            mag: None,
            openalex: None,
            umls_cui: None,
            umls_aui: None,
            wikidata: None,
            wikipedia: None,
        }
    }
}

/// Display names keyed by language.
#[derive(Debug)]
pub struct InternationalDisplayNames {
    pub display_name: Option<HashMap<String, String>>,
}

impl InternationalDisplayNames {
    /// The empty value: every field absent.
    pub fn new() -> (r: Self)
        ensures
            r.display_name is None,
    {
        InternationalDisplayNames { display_name: None }
    }
}

/// The abbreviated form of an institution, together with its relationship to
/// the carrying entity.
#[derive(Debug)]
pub struct DehydratedInstitutionWithRelationship {
    pub id: Option<String>,
    pub ror: Option<String>,
    pub display_name: Option<String>,
    pub country_code: Option<String>,
    pub institution_type: Option<String>,
    pub relationship: Option<String>,
}

impl DehydratedInstitutionWithRelationship {
    /// The empty value: every field absent.
    pub fn new() -> (r: Self)
        ensures
            r.id is None,
            r.ror is None,
            r.display_name is None,
            r.country_code is None,
            r.institution_type is None,
            r.relationship is None,
    {
        DehydratedInstitutionWithRelationship {
            id: None,
            ror: None,
            display_name: None,
            country_code: None,
            institution_type: None,
            relationship: None,
        }
    }
}

/// The identifiers an institution is known by.
#[derive(Debug)]
pub struct InstitutionIds {
    pub grid: Option<String>,
    pub mag: Option<String>,
    pub openalex: Option<String>,
    pub ror: Option<String>,
    pub wikipedia: Option<String>,
    pub wikidata: Option<String>,
}

impl InstitutionIds {
    /// The empty value: every field absent.
    pub fn new() -> (r: Self)
        ensures
            r.grid is None,
            r.mag is None,
            r.openalex is None,
            r.ror is None,
            r.wikipedia is None,
            r.wikidata is None,
    {
        InstitutionIds {
            grid: None,
            mag: None,
            openalex: None,
            ror: None,
            wikipedia: None,
            wikidata: None,
        }
    }
}

/// A repository hosting copies of works.
#[derive(Debug)]
pub struct Repository {
    pub id: Option<String>,
    pub display_name: Option<String>,
    pub host_organization: Option<String>,
    pub host_organization_name: Option<String>,
    pub host_organization_lineage: Option<Vec<String>>,
}

impl Repository {
    /// The empty value: every field absent.
    pub fn new() -> (r: Self)
        ensures
            r.id is None,
            r.display_name is None,
            r.host_organization is None,
            r.host_organization_name is None,
            r.host_organization_lineage is None,
    {
        Repository {
            id: None,
            display_name: None,
            host_organization: None,
            host_organization_name: None,
            host_organization_lineage: None,
        }
    }
}

/// The top level of the topic classification.
#[derive(Debug)]
pub struct Domain {
    pub id: Option<String>,
    pub display_name: Option<String>,
}

impl Domain {
    /// The empty value: every field absent.
    pub fn new() -> (r: Self)
        ensures
            r.id is None,
            r.display_name is None,
    {
        Domain { id: None, display_name: None }
    }
}

/// The second level of the topic classification.
#[derive(Debug)]
pub struct Field {
    pub id: Option<String>,
    pub display_name: Option<String>,
}

impl Field {
    /// The empty value: every field absent.
    pub fn new() -> (r: Self)
        ensures
            r.id is None,
            r.display_name is None,
    {
        Field { id: None, display_name: None }
    }
}

/// The third level of the topic classification.
#[derive(Debug)]
pub struct Subfield {
    pub id: Option<String>,
    pub display_name: Option<String>,
}

impl Subfield {
    /// The empty value: every field absent.
    pub fn new() -> (r: Self)
        ensures
            r.id is None,
            r.display_name is None,
    {
        Subfield { id: None, display_name: None }
    }
}

/// The identifiers a topic is known by.
#[derive(Debug)]
pub struct TopicIds {
    pub openalex: Option<String>,
    pub wikipedia: Option<String>,
}

impl TopicIds {
    /// The empty value: every field absent.
    pub fn new() -> (r: Self)
        ensures
            r.openalex is None,
            r.wikipedia is None,
    {
        TopicIds { openalex: None, wikipedia: None }
    }
}

} // verus!
