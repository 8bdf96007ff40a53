//! Typed client library and conversion pipeline for the Spanish medicines
//! registry (AEMPS CIMA).
//!
//! The heart of the crate is the bulk "nomenclator" conversion pipeline: the
//! XML dictionary files of the official dump are parsed into typed records and
//! written back out as CSV tables, with the composite prescription file fanned
//! out into seven related tables joined by the national code. The surrounding
//! pieces — the archive-fetch decision, the bounded-concurrency orchestration
//! of the thirteen dictionary jobs, and the query-parameter builders of the
//! REST client — are modelled and verified here as well; the actual network
//! and file I/O lives outside the library.

pub mod api;
pub mod catalog;
pub mod csvfmt;
pub mod downloader;
pub mod endpoints;
pub mod models;
pub mod orchestrator;
pub mod prescription;
pub mod text;
pub mod xml;

pub use endpoints::clinical_descriptions::SearchClinicalDescriptionParams;
pub use endpoints::master_data::MasterDataParams;
pub use endpoints::medications::SearchMedicationsParams;
pub use endpoints::medications::TechnicalSheetQuery;
pub use endpoints::presentations::SearchPresentationsParams;
pub use models::MasterDataType;
