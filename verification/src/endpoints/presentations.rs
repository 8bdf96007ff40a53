//! Presentation search parameters.

use vstd::prelude::*;
use crate::api::no_pairs;
use crate::api::one_pair;
use crate::api::push_opt_i32;
use crate::api::push_opt_string;
use crate::api::push_opt_u32;
use crate::api::push_opt_u8;
use crate::api::query_pairs;
use crate::text::dec_rep;
use crate::text::dec_rep_signed;

verus! {

/// Presentation search parameters.
pub struct SearchPresentationsParams {
    /// National code.
    pub national_code: Option<String>,
    /// Registration number.
    pub registration_number: Option<String>,
    /// VMP code ID.
    pub vmp: Option<String>,
    /// VMPP code ID.
    pub vmpp: Option<String>,
    /// Active ingredient ID.
    pub active_ingredient_id: Option<i32>,
    /// 1: commercialized, 0: not commercialized.
    pub commercialized: Option<u8>,
    /// 1: narcotics.
    pub narcotic: Option<u8>,
    /// 1: psychotropics.
    pub psychotropic: Option<u8>,
    /// 1: narcotics or psychotropics.
    pub narcotic_or_psychotropic: Option<u8>,
    /// Page number.
    pub page: Option<u32>,
}

impl Default for SearchPresentationsParams {
    /// All filters unset.
    fn default() -> (r: Self)
        ensures
            r.national_code is None,
            r.registration_number is None,
            r.vmp is None,
            r.vmpp is None,
            r.active_ingredient_id is None,
            r.commercialized is None,
            r.narcotic is None,
            r.psychotropic is None,
            r.narcotic_or_psychotropic is None,
            r.page is None,
    {
        SearchPresentationsParams {
            national_code: None,
            registration_number: None,
            vmp: None,
            vmpp: None,
            active_ingredient_id: None,
            commercialized: None,
            narcotic: None,
            psychotropic: None,
            narcotic_or_psychotropic: None,
            page: None,
        }
    }
}

impl SearchPresentationsParams {
    /// A search with no filters set.
    pub fn new() -> (r: Self)
        ensures
            r.national_code is None,
            r.registration_number is None,
            r.vmp is None,
            r.vmpp is None,
            r.active_ingredient_id is None,
            r.commercialized is None,
            r.narcotic is None,
            r.psychotropic is None,
            r.narcotic_or_psychotropic is None,
            r.page is None,
    {
        Self::default()
    }

    /// The query pairs this search sends: starting from no pairs, one pair
    /// for each filter that is set, in declaration order.
    pub open spec fn query_params_spec(self) -> Seq<(Seq<char>, Seq<char>)> {
        no_pairs() + (if self.national_code is Some {
            one_pair("cn"@, self.national_code->0@)
        } else {
            no_pairs()
        })
            + (if self.registration_number is Some {
            one_pair("nregistro"@, self.registration_number->0@)
        } else {
            no_pairs()
        })
            + (if self.vmp is Some {
            one_pair("vmp"@, self.vmp->0@)
        } else {
            no_pairs()
        })
            + (if self.vmpp is Some {
            one_pair("vmpp"@, self.vmpp->0@)
        } else {
            no_pairs()
        })
            + (if self.active_ingredient_id is Some {
            one_pair("idpractiv1"@, dec_rep_signed(self.active_ingredient_id->0 as int))
        } else {
            no_pairs()
        })
            + (if self.commercialized is Some {
            one_pair("comerc"@, dec_rep(self.commercialized->0 as nat))
        } else {
            no_pairs()
        })
            + (if self.narcotic is Some {
            one_pair("estupefaciente"@, dec_rep(self.narcotic->0 as nat))
        } else {
            no_pairs()
        })
            + (if self.psychotropic is Some {
            one_pair("psicotropo"@, dec_rep(self.psychotropic->0 as nat))
        } else {
            no_pairs()
        })
            + (if self.narcotic_or_psychotropic is Some {
            one_pair("estuopsico"@, dec_rep(self.narcotic_or_psychotropic->0 as nat))
        } else {
            no_pairs()
        })
            + (if self.page is Some {
            one_pair("pagina"@, dec_rep(self.page->0 as nat))
        } else {
            no_pairs()
        })
    }

    /// Builds the query parameters, one pair per set filter, in declaration
    /// order.
    pub fn to_query_params(&self) -> (r: Vec<(&str, String)>)
        ensures
            query_pairs(r@) == self.query_params_spec(),
    {
        let mut r: Vec<(&str, String)> = Vec::new();
        assert(query_pairs(r@) =~= no_pairs());
        push_opt_string(&mut r, "cn", &self.national_code);
        push_opt_string(&mut r, "nregistro", &self.registration_number);
        push_opt_string(&mut r, "vmp", &self.vmp);
        push_opt_string(&mut r, "vmpp", &self.vmpp);
        push_opt_i32(&mut r, "idpractiv1", &self.active_ingredient_id);
        push_opt_u8(&mut r, "comerc", &self.commercialized);
        push_opt_u8(&mut r, "estupefaciente", &self.narcotic);
        push_opt_u8(&mut r, "psicotropo", &self.psychotropic);
        push_opt_u8(&mut r, "estuopsico", &self.narcotic_or_psychotropic);
        push_opt_u32(&mut r, "pagina", &self.page);
        assert(query_pairs(r@) == self.query_params_spec());
        r
    }
}

} // verus!
