//! Master-data search parameters.

use vstd::prelude::*;
use vstd::string::StringExecFns;
use crate::api::no_pairs;
use crate::api::one_pair;
use crate::api::push_pair;
use crate::api::push_opt_string;
use crate::api::push_opt_i32;
use crate::api::push_opt_u8;
use crate::api::push_opt_u32;
use crate::api::query_pairs;
use crate::text::chars_to_string;
use crate::text::dec_rep;
use crate::text::dec_rep_signed;
use crate::text::u64_to_chars;
use crate::models::MasterDataType;

verus! {

/// The numeric code the API uses for each catalog.
pub open spec fn master_code(t: MasterDataType) -> nat {
    match t {
        MasterDataType::ActiveIngredients => 1,
        MasterDataType::PharmaceuticalForms => 3,
        MasterDataType::AdministrationRoutes => 4,
        MasterDataType::Laboratories => 6,
        MasterDataType::AtcCodes => 7,
        MasterDataType::ActiveIngredientsSNOMED => 11,
        MasterDataType::SimplifiedPharmaceuticalFormsSNOMED => 13,
        MasterDataType::AdministrationRoutesSNOMED => 14,
        MasterDataType::Medications => 15,
        MasterDataType::CommercializedMedicationsSNOMED => 16,
    }
}

/// Master-data search parameters.
pub struct MasterDataParams {
    /// Element name.
    pub name: Option<String>,
    /// Element ID.
    pub id: Option<i32>,
    /// Element code.
    pub code: Option<String>,
    /// 1: narcotics (active ingredients only).
    pub narcotic: Option<u8>,
    /// 1: psychotropics (active ingredients only).
    pub psychotropic: Option<u8>,
    /// 1: narcotics or psychotropics (active ingredients only).
    pub narcotic_or_psychotropic: Option<u8>,
    /// 0: include elements not associated with any medication.
    pub in_use: Option<u8>,
    /// Page number.
    pub page: Option<u32>,
}

impl Default for MasterDataParams {
    /// All filters unset.
    fn default() -> (r: Self)
        ensures
            r.name is None,
            r.id is None,
            r.code is None,
            r.narcotic is None,
            r.psychotropic is None,
            r.narcotic_or_psychotropic is None,
            r.in_use is None,
            r.page is None,
    {
        MasterDataParams {
            name: None,
            id: None,
            code: None,
            narcotic: None,
            psychotropic: None,
            narcotic_or_psychotropic: None,
            in_use: None,
            page: None,
        }
    }
}

impl MasterDataParams {
    /// A search with no filters set.
    pub fn new() -> (r: Self)
        ensures
            r.name is None,
            r.id is None,
            r.code is None,
            r.narcotic is None,
            r.psychotropic is None,
            r.narcotic_or_psychotropic is None,
            r.in_use is None,
            r.page is None,
    {
        Self::default()
    }

    /// The query pairs this search sends: the catalog selector first, then
    /// one pair per set filter, in declaration order.
    pub open spec fn query_params_spec(self, data_type: MasterDataType) -> Seq<(Seq<char>, Seq<char>)> {
        no_pairs() + one_pair("maestra"@, dec_rep(master_code(data_type)))
            + (if self.name is Some {
            one_pair("nombre"@, self.name->0@)
        } else {
            no_pairs()
        })
            + (if self.id is Some {
            one_pair("id"@, dec_rep_signed(self.id->0 as int))
        } else {
            no_pairs()
        })
            + (if self.code is Some {
            one_pair("codigo"@, self.code->0@)
        } else {
            no_pairs()
        })
            + (if self.narcotic is Some {
            one_pair("estupefaciente"@, dec_rep(self.narcotic->0 as nat))
        } else {
            no_pairs()
        })
            + (if self.psychotropic is Some {
            one_pair("psicotropo"@, dec_rep(self.psychotropic->0 as nat))
        } else {
            no_pairs()
        })
            + (if self.narcotic_or_psychotropic is Some {
            one_pair("estuopsico"@, dec_rep(self.narcotic_or_psychotropic->0 as nat))
        } else {
            no_pairs()
        })
            + (if self.in_use is Some {
            one_pair("enuso"@, dec_rep(self.in_use->0 as nat))
        } else {
            no_pairs()
        })
            + (if self.page is Some {
            one_pair("pagina"@, dec_rep(self.page->0 as nat))
        } else {
            no_pairs()
        })
    }

    /// Builds the query parameters: the catalog selector first, then one
    /// pair per set filter.
    pub fn to_query_params(&self, data_type: MasterDataType) -> (r: Vec<(&str, String)>)
        ensures
            query_pairs(r@) == self.query_params_spec(data_type),
    {
        let mut r: Vec<(&str, String)> = Vec::new();
        assert(query_pairs(r@) =~= no_pairs());
        push_pair(&mut r, "maestra", chars_to_string(&u64_to_chars(data_type.as_u8() as u64)));
        push_opt_string(&mut r, "nombre", &self.name);
        push_opt_i32(&mut r, "id", &self.id);
        push_opt_string(&mut r, "codigo", &self.code);
        push_opt_u8(&mut r, "estupefaciente", &self.narcotic);
        push_opt_u8(&mut r, "psicotropo", &self.psychotropic);
        push_opt_u8(&mut r, "estuopsico", &self.narcotic_or_psychotropic);
        push_opt_u8(&mut r, "enuso", &self.in_use);
        push_opt_u32(&mut r, "pagina", &self.page);
        assert(query_pairs(r@) == self.query_params_spec(data_type));
        r
    }
}

} // verus!
