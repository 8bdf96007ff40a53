//! The typed data model of the REST API: paginated responses, medications
//! and presentations with their nested pieces, documents, notes, materials,
//! clinical descriptions, change-log records and the master-data catalogs.
//! Dates are Unix epoch seconds as the API delivers them; the transport that
//! fills these values lives outside the library.

use vstd::prelude::*;

verus! {

/// Wrapper for paginated API responses.
pub struct PaginatedResponse<T> {
    /// Total number of rows across all pages.
    pub total_rows: u32,
    /// Page number.
    pub page: u32,
    /// Page size.
    pub page_size: u32,
    /// The rows of this page.
    pub results: Vec<T>,
}

/// Authorization status of a medication or presentation.
pub struct AuthorizationStatus {
    /// Authorization date.
    pub aut: Option<i64>,
    /// Suspension date.
    pub susp: Option<i64>,
    /// Revocation date.
    pub rev: Option<i64>,
}

/// Generic item used in master-data catalogs.
pub struct MasterItem {
    /// Numeric identifier.
    pub id: Option<i32>,
    /// Alphanumeric identifier.
    pub code: Option<String>,
    /// Name.
    pub name: String,
}

/// Supply problem of a presentation.
pub struct SupplyProblem {
    /// National code.
    pub cn: String,
    /// Presentation name.
    pub name: String,
    /// Start date.
    pub fini: i64,
    /// Expected end or resolution date.
    pub ffin: Option<i64>,
    /// Observations.
    pub observations: Option<String>,
    /// Whether still active.
    pub active: bool,
}

/// Document section.
pub struct Section {
    /// Section number, up to three levels ("N.N.N").
    pub section: String,
    /// Section title.
    pub title: String,
    /// Section order.
    pub order: i32,
    /// Content in HTML format.
    pub content: Option<String>,
}

/// Document type.
#[derive(Debug, Clone, Copy, PartialEq, Eq, Structural)]
pub enum DocumentType {
    /// Technical data sheet.
    TechnicalSheet,
    /// Package leaflet.
    PackageLeaflet,
    /// Public evaluation report.
    PublicReport,
    /// Risk management plan.
    RiskManagementPlan,
}

impl DocumentType {
    /// The numeric code the API uses for this document type.
    pub fn as_u8(self) -> (r: u8)
        ensures
            r == match self {
                DocumentType::TechnicalSheet => 1u8,
                DocumentType::PackageLeaflet => 2u8,
                DocumentType::PublicReport => 3u8,
                DocumentType::RiskManagementPlan => 4u8,
            },
    {
        match self {
            DocumentType::TechnicalSheet => 1,
            DocumentType::PackageLeaflet => 2,
            DocumentType::PublicReport => 3,
            DocumentType::RiskManagementPlan => 4,
        }
    }
}

/// Document associated with a medication.
pub struct Document {
    /// Document type code.
    pub doc_type: u8,
    /// URL to access the document.
    pub url: String,
    /// Whether available in HTML sections.
    pub has_sections: bool,
    /// URL in HTML format, when available in sections.
    pub url_html: Option<String>,
    /// Modification date.
    pub date: Option<i64>,
}

/// Safety or informative note.
pub struct SafetyNote {
    /// Note type (1: safety note).
    pub note_type: u8,
    /// Note number.
    pub num: String,
    /// Associated reference.
    pub reference: Option<String>,
    /// Subject.
    pub subject: String,
    /// Publication date.
    pub date: i64,
    /// URL to access the note.
    pub url: String,
}

/// Informative material document.
pub struct MaterialDocument {
    /// Document title.
    pub name: String,
    /// Access URL.
    pub url: String,
    /// Update date.
    pub date: i64,
}

/// Safety informative material.
pub struct SafetyMaterial {
    /// Documents for healthcare professionals.
    pub professional_docs: Vec<MaterialDocument>,
}

/// Clinical description (VMP/VMPP).
pub struct ClinicalDescription {
    /// VMP code.
    pub vmp: String,
    /// VMP name.
    pub vmp_desc: String,
    /// VMPP code.
    pub vmpp: String,
    /// VMPP name.
    pub vmpp_desc: String,
    /// Number of commercialized presentations.
    pub commercialized_presentations: i32,
}

/// ATC code.
pub struct AtcCode {
    /// ATC code.
    pub code: String,
    /// Descriptive name.
    pub name: String,
    /// ATC code level.
    pub level: i32,
}

/// Active ingredient of a medication.
pub struct ActiveIngredient {
    /// Active ingredient ID.
    pub id: Option<i32>,
    /// Identification code.
    pub code: Option<String>,
    /// Name.
    pub name: String,
    /// Amount.
    pub amount: Option<String>,
    /// Unit.
    pub unit: Option<String>,
    /// Display order.
    pub order: Option<i32>,
}

/// Excipient of a medication.
pub struct Excipient {
    /// Excipient ID.
    pub id: Option<i32>,
    /// Name.
    pub name: String,
    /// Amount.
    pub amount: Option<String>,
    /// Unit.
    pub unit: Option<String>,
    /// Display order.
    pub order: Option<i32>,
}

/// Medication photo.
pub struct Photo {
    /// Kind: packaging material or pharmaceutical form.
    pub photo_type: String,
    /// Image URL.
    pub url: String,
    /// Update date.
    pub date: Option<i64>,
}

/// Presentation of a medication, as listed in search results.
pub struct PresentationSummary {
    /// National code.
    pub cn: String,
    /// Presentation name.
    pub name: String,
    /// Registration status.
    pub status: AuthorizationStatus,
    /// Whether commercialized.
    pub commercialized: bool,
    /// Whether it has supply problems.
    pub psum: Option<bool>,
}

/// Complete presentation.
pub struct Presentation {
    /// National code.
    pub cn: String,
    /// Name.
    pub name: String,
    /// Registration status.
    pub status: AuthorizationStatus,
    /// Whether commercialized.
    pub commercialized: bool,
    /// Whether it has supply problems.
    pub psum: Option<bool>,
}

/// Medication as listed in search results.
pub struct MedicationSummary {
    /// Registration number.
    pub nregistro: String,
    /// Medication name.
    pub name: String,
    /// Holder laboratory.
    pub labtitular: String,
    /// Registration status.
    pub status: AuthorizationStatus,
    /// Prescription conditions.
    pub cpresc: String,
    /// Whether any presentation is commercialized.
    pub commercialized: Option<bool>,
    /// Whether it requires prescription.
    pub prescription_required: Option<bool>,
    /// Whether it affects driving.
    pub affects_driving: Option<bool>,
    /// Whether it carries the black triangle.
    pub black_triangle: Option<bool>,
    /// Whether it is an orphan drug.
    pub orphan: Option<bool>,
    /// Whether it is a biosimilar.
    pub biosimilar: Option<bool>,
    /// Non-substitutable type.
    pub non_substitutable: Option<MasterItem>,
    /// Whether it has supply problems.
    pub psum: Option<bool>,
    /// Whether registered by the EMA.
    pub ema: Option<bool>,
    /// Whether it has notes.
    pub has_notes: Option<bool>,
    /// Whether it has informative materials.
    pub has_materials: Option<bool>,
    /// Associated documents.
    pub docs: Vec<Document>,
    /// Associated photos.
    pub photos: Vec<Photo>,
    /// Administration routes.
    pub administration_routes: Vec<MasterItem>,
    /// Pharmaceutical form.
    pub pharmaceutical_form: Option<MasterItem>,
    /// Simplified pharmaceutical form.
    pub simplified_pharmaceutical_form: Option<MasterItem>,
    /// Active ingredient dose.
    pub dosis: Option<String>,
}

/// Complete medication with all details.
pub struct Medication {
    /// Registration number.
    pub nregistro: String,
    /// Medication name.
    pub name: String,
    /// Comma-separated list of active ingredients.
    pub pactivos: String,
    /// Holder laboratory.
    pub labtitular: String,
    /// Registration status.
    pub status: AuthorizationStatus,
    /// Prescription conditions.
    pub cpresc: String,
    /// Whether any presentation is commercialized.
    pub commercialized: Option<bool>,
    /// Whether it requires prescription.
    pub prescription_required: Option<bool>,
    /// Whether it affects driving.
    pub affects_driving: Option<bool>,
    /// Whether it carries the black triangle.
    pub black_triangle: Option<bool>,
    /// Whether it is an orphan drug.
    pub orphan: Option<bool>,
    /// Whether it is a biosimilar.
    pub biosimilar: Option<bool>,
    /// Whether registered by the EMA.
    pub ema: Option<bool>,
    /// Whether it has supply problems.
    pub psum: Option<bool>,
    /// Associated documents.
    pub docs: Vec<Document>,
    /// Associated photos.
    pub photos: Vec<Photo>,
    /// Whether it has notes.
    pub has_notes: Option<bool>,
    /// Whether it has informative materials.
    pub has_materials: Option<bool>,
    /// ATC codes.
    pub atcs: Vec<AtcCode>,
    /// Active ingredients.
    pub active_ingredients: Vec<ActiveIngredient>,
    /// Excipients.
    pub excipients: Vec<Excipient>,
    /// Administration routes.
    pub administration_routes: Vec<MasterItem>,
    /// Non-substitutable type.
    pub non_substitutable: Option<MasterItem>,
    /// Presentations.
    pub presentations: Vec<PresentationSummary>,
    /// Pharmaceutical form.
    pub pharmaceutical_form: Option<MasterItem>,
    /// Simplified pharmaceutical form.
    pub simplified_pharmaceutical_form: Option<MasterItem>,
    /// Active ingredient dose.
    pub dosis: Option<String>,
}

/// Change-log record.
pub struct ChangeRecord {
    /// Medication registration number.
    pub nregistro: String,
    /// Change date.
    pub date: i64,
    /// Change type: 1 new, 2 deleted, 3 modified.
    pub change_type: u8,
    /// Which parts changed.
    pub changes: Vec<String>,
}

/// Master-data catalog selector.
#[derive(Debug, Clone, Copy, PartialEq, Eq, Structural)]
pub enum MasterDataType {
    ActiveIngredients,
    PharmaceuticalForms,
    AdministrationRoutes,
    Laboratories,
    AtcCodes,
    ActiveIngredientsSNOMED,
    SimplifiedPharmaceuticalFormsSNOMED,
    AdministrationRoutesSNOMED,
    Medications,
    CommercializedMedicationsSNOMED,
}

impl MasterDataType {
    /// The numeric code the API uses for this catalog.
    pub fn as_u8(self) -> (r: u8)
        ensures
            r == match self {
                MasterDataType::ActiveIngredients => 1u8,
                MasterDataType::PharmaceuticalForms => 3u8,
                MasterDataType::AdministrationRoutes => 4u8,
                MasterDataType::Laboratories => 6u8,
                MasterDataType::AtcCodes => 7u8,
                MasterDataType::ActiveIngredientsSNOMED => 11u8,
                MasterDataType::SimplifiedPharmaceuticalFormsSNOMED => 13u8,
                MasterDataType::AdministrationRoutesSNOMED => 14u8,
                MasterDataType::Medications => 15u8,
                MasterDataType::CommercializedMedicationsSNOMED => 16u8,
            },
    {
        match self {
            MasterDataType::ActiveIngredients => 1,
            MasterDataType::PharmaceuticalForms => 3,
            MasterDataType::AdministrationRoutes => 4,
            MasterDataType::Laboratories => 6,
            MasterDataType::AtcCodes => 7,
            MasterDataType::ActiveIngredientsSNOMED => 11,
            MasterDataType::SimplifiedPharmaceuticalFormsSNOMED => 13,
            MasterDataType::AdministrationRoutesSNOMED => 14,
            MasterDataType::Medications => 15,
            MasterDataType::CommercializedMedicationsSNOMED => 16,
        }
    }
}

} // verus!
