//! Typed query-parameter builders for the REST endpoints.

pub mod clinical_descriptions;
pub mod maestras;
pub mod master_data;
pub mod medicamentos;
pub mod medications;
pub mod presentaciones;
pub mod presentations;
pub mod vmpp;
