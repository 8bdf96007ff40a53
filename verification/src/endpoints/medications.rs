//! Medication search parameters, the technical-sheet search query, and
//! the identifying query for a single medication.

use vstd::prelude::*;
use vstd::string::StringExecFns;
use crate::api::no_pairs;
use crate::api::one_pair;
use crate::api::push_opt_i32;
use crate::api::push_opt_string;
use crate::api::push_opt_u32;
use crate::api::push_opt_u8;
use crate::api::query_pairs;
use crate::text::dec_rep;
use crate::text::dec_rep_signed;

verus! {

/// Medication search parameters.
pub struct SearchMedicationsParams {
    /// Medication name.
    pub name: Option<String>,
    /// Laboratory name.
    pub laboratory: Option<String>,
    /// First active ingredient name.
    pub active_ingredient_1: Option<String>,
    /// Second active ingredient name.
    pub active_ingredient_2: Option<String>,
    /// First active ingredient ID.
    pub active_ingredient_1_id: Option<i32>,
    /// Second active ingredient ID.
    pub active_ingredient_2_id: Option<i32>,
    /// National code.
    pub national_code: Option<String>,
    /// ATC code or description.
    pub atc: Option<String>,
    /// Registration number.
    pub registration_number: Option<String>,
    /// Number of active ingredients.
    pub active_ingredient_count: Option<i32>,
    /// 1: has black triangle, 0: does not.
    pub black_triangle: Option<u8>,
    /// 1: orphan, 0: not orphan.
    pub orphan: Option<u8>,
    /// 1: biosimilar, 0: not biosimilar.
    pub biosimilar: Option<u8>,
    /// Substitutable type (1-5).
    pub substitutable_type: Option<u8>,
    /// VMP code ID.
    pub vmp: Option<String>,
    /// 1: commercialized, 0: not commercialized.
    pub commercialized: Option<u8>,
    /// 1: only authorized, 0: only not authorized.
    pub authorized: Option<u8>,
    /// 1: with prescription, 0: without.
    pub prescription: Option<u8>,
    /// 1: narcotics.
    pub narcotic: Option<u8>,
    /// 1: psychotropics.
    pub psychotropic: Option<u8>,
    /// 1: narcotics or psychotropics.
    pub narcotic_or_psychotropic: Option<u8>,
    /// Page number.
    pub page: Option<u32>,
}

impl Default for SearchMedicationsParams {
    /// All filters unset.
    fn default() -> (r: Self)
        ensures
            r.name is None,
            r.laboratory is None,
            r.active_ingredient_1 is None,
            r.active_ingredient_2 is None,
            r.active_ingredient_1_id is None,
            r.active_ingredient_2_id is None,
            r.national_code is None,
            r.atc is None,
            r.registration_number is None,
            r.active_ingredient_count is None,
            r.black_triangle is None,
            r.orphan is None,
            r.biosimilar is None,
            r.substitutable_type is None,
            r.vmp is None,
            r.commercialized is None,
            r.authorized is None,
            r.prescription is None,
            r.narcotic is None,
            r.psychotropic is None,
            r.narcotic_or_psychotropic is None,
            r.page is None,
    {
        SearchMedicationsParams {
            name: None,
            laboratory: None,
            active_ingredient_1: None,
            active_ingredient_2: None,
            active_ingredient_1_id: None,
            active_ingredient_2_id: None,
            national_code: None,
            atc: None,
            registration_number: None,
            active_ingredient_count: None,
            black_triangle: None,
            orphan: None,
            biosimilar: None,
            substitutable_type: None,
            vmp: None,
            commercialized: None,
            authorized: None,
            prescription: None,
            narcotic: None,
            psychotropic: None,
            narcotic_or_psychotropic: None,
            page: None,
        }
    }
}

impl SearchMedicationsParams {
    /// A search with no filters set.
    pub fn new() -> (r: Self)
        ensures
            r.name is None,
            r.laboratory is None,
            r.active_ingredient_1 is None,
            r.active_ingredient_2 is None,
            r.active_ingredient_1_id is None,
            r.active_ingredient_2_id is None,
            r.national_code is None,
            r.atc is None,
            r.registration_number is None,
            r.active_ingredient_count is None,
            r.black_triangle is None,
            r.orphan is None,
            r.biosimilar is None,
            r.substitutable_type is None,
            r.vmp is None,
            r.commercialized is None,
            r.authorized is None,
            r.prescription is None,
            r.narcotic is None,
            r.psychotropic is None,
            r.narcotic_or_psychotropic is None,
            r.page is None,
    {
        Self::default()
    }

    /// The query pairs of the name and ingredient filters.
    pub open spec fn filters_names_spec(self) -> Seq<(Seq<char>, Seq<char>)> {
        no_pairs() + (if self.name is Some {
            one_pair("nombre"@, self.name->0@)
        } else {
            no_pairs()
        })
            + (if self.laboratory is Some {
            one_pair("laboratorio"@, self.laboratory->0@)
        } else {
            no_pairs()
        })
            + (if self.active_ingredient_1 is Some {
            one_pair("practiv1"@, self.active_ingredient_1->0@)
        } else {
            no_pairs()
        })
            + (if self.active_ingredient_2 is Some {
            one_pair("practiv2"@, self.active_ingredient_2->0@)
        } else {
            no_pairs()
        })
            + (if self.active_ingredient_1_id is Some {
            one_pair("idpractiv1"@, dec_rep_signed(self.active_ingredient_1_id->0 as int))
        } else {
            no_pairs()
        })
            + (if self.active_ingredient_2_id is Some {
            one_pair("idpractiv2"@, dec_rep_signed(self.active_ingredient_2_id->0 as int))
        } else {
            no_pairs()
        })
            + (if self.national_code is Some {
            one_pair("cn"@, self.national_code->0@)
        } else {
            no_pairs()
        })
            + (if self.atc is Some {
            one_pair("atc"@, self.atc->0@)
        } else {
            no_pairs()
        })
    }

    /// The query pairs of the registry and classification filters.
    pub open spec fn filters_registration_spec(self) -> Seq<(Seq<char>, Seq<char>)> {
        no_pairs() + (if self.registration_number is Some {
            one_pair("nregistro"@, self.registration_number->0@)
        } else {
            no_pairs()
        })
            + (if self.active_ingredient_count is Some {
            one_pair("npactiv"@, dec_rep_signed(self.active_ingredient_count->0 as int))
        } else {
            no_pairs()
        })
            + (if self.black_triangle is Some {
            one_pair("triangulo"@, dec_rep(self.black_triangle->0 as nat))
        } else {
            no_pairs()
        })
            + (if self.orphan is Some {
            one_pair("huerfano"@, dec_rep(self.orphan->0 as nat))
        } else {
            no_pairs()
        })
            + (if self.biosimilar is Some {
            one_pair("biosimilar"@, dec_rep(self.biosimilar->0 as nat))
        } else {
            no_pairs()
        })
            + (if self.substitutable_type is Some {
            one_pair("sust"@, dec_rep(self.substitutable_type->0 as nat))
        } else {
            no_pairs()
        })
            + (if self.vmp is Some {
            one_pair("vmp"@, self.vmp->0@)
        } else {
            no_pairs()
        })
    }

    /// The query pairs of the dispensing and paging filters.
    pub open spec fn filters_dispensing_spec(self) -> Seq<(Seq<char>, Seq<char>)> {
        no_pairs() + (if self.commercialized is Some {
            one_pair("comerc"@, dec_rep(self.commercialized->0 as nat))
        } else {
            no_pairs()
        })
            + (if self.authorized is Some {
            one_pair("autorizados"@, dec_rep(self.authorized->0 as nat))
        } else {
            no_pairs()
        })
            + (if self.prescription is Some {
            one_pair("receta"@, dec_rep(self.prescription->0 as nat))
        } else {
            no_pairs()
        })
            + (if self.narcotic is Some {
            one_pair("estupefaciente"@, dec_rep(self.narcotic->0 as nat))
        } else {
            no_pairs()
        })
            + (if self.psychotropic is Some {
            one_pair("psicotropo"@, dec_rep(self.psychotropic->0 as nat))
        } else {
            no_pairs()
        })
            + (if self.narcotic_or_psychotropic is Some {
            one_pair("estuopsico"@, dec_rep(self.narcotic_or_psychotropic->0 as nat))
        } else {
            no_pairs()
        })
            + (if self.page is Some {
            one_pair("pagina"@, dec_rep(self.page->0 as nat))
        } else {
            no_pairs()
        })
    }

    /// The query pairs this search sends: one pair for each filter that is
    /// set, in declaration order.
    pub open spec fn query_params_spec(self) -> Seq<(Seq<char>, Seq<char>)> {
        self.filters_names_spec() + self.filters_registration_spec() + self.filters_dispensing_spec()
    }

    /// Builds one group of the query parameters.
    fn filters_names(&self) -> (r: Vec<(&str, String)>)
        ensures
            query_pairs(r@) == self.filters_names_spec(),
    {
        let mut r: Vec<(&str, String)> = Vec::new();
        assert(query_pairs(r@) =~= no_pairs());
        push_opt_string(&mut r, "nombre", &self.name);
        push_opt_string(&mut r, "laboratorio", &self.laboratory);
        push_opt_string(&mut r, "practiv1", &self.active_ingredient_1);
        push_opt_string(&mut r, "practiv2", &self.active_ingredient_2);
        push_opt_i32(&mut r, "idpractiv1", &self.active_ingredient_1_id);
        push_opt_i32(&mut r, "idpractiv2", &self.active_ingredient_2_id);
        push_opt_string(&mut r, "cn", &self.national_code);
        push_opt_string(&mut r, "atc", &self.atc);
        assert(query_pairs(r@) == self.filters_names_spec());
        r
    }

    /// Builds one group of the query parameters.
    fn filters_registration(&self) -> (r: Vec<(&str, String)>)
        ensures
            query_pairs(r@) == self.filters_registration_spec(),
    {
        let mut r: Vec<(&str, String)> = Vec::new();
        assert(query_pairs(r@) =~= no_pairs());
        push_opt_string(&mut r, "nregistro", &self.registration_number);
        push_opt_i32(&mut r, "npactiv", &self.active_ingredient_count);
        push_opt_u8(&mut r, "triangulo", &self.black_triangle);
        push_opt_u8(&mut r, "huerfano", &self.orphan);
        push_opt_u8(&mut r, "biosimilar", &self.biosimilar);
        push_opt_u8(&mut r, "sust", &self.substitutable_type);
        push_opt_string(&mut r, "vmp", &self.vmp);
        assert(query_pairs(r@) == self.filters_registration_spec());
        r
    }

    /// Builds one group of the query parameters.
    fn filters_dispensing(&self) -> (r: Vec<(&str, String)>)
        ensures
            query_pairs(r@) == self.filters_dispensing_spec(),
    {
        let mut r: Vec<(&str, String)> = Vec::new();
        assert(query_pairs(r@) =~= no_pairs());
        push_opt_u8(&mut r, "comerc", &self.commercialized);
        push_opt_u8(&mut r, "autorizados", &self.authorized);
        push_opt_u8(&mut r, "receta", &self.prescription);
        push_opt_u8(&mut r, "estupefaciente", &self.narcotic);
        push_opt_u8(&mut r, "psicotropo", &self.psychotropic);
        push_opt_u8(&mut r, "estuopsico", &self.narcotic_or_psychotropic);
        push_opt_u32(&mut r, "pagina", &self.page);
        assert(query_pairs(r@) == self.filters_dispensing_spec());
        r
    }

    /// Builds the query parameters, one pair per set filter, in declaration
    /// order.
    pub fn to_query_params(&self) -> (r: Vec<(&str, String)>)
        ensures
            query_pairs(r@) == self.query_params_spec(),
    {
        let mut r = self.filters_names();
        let ghost av = r@;
        let b = self.filters_registration();
        let ghost bv = b@;
        crate::api::append_params(&mut r, b);
        let c = self.filters_dispensing();
        let ghost cv = c@;
        crate::api::append_params(&mut r, c);
        proof {
            crate::api::lemma_query_pairs_concat(av, bv);
            crate::api::lemma_query_pairs_concat(av + bv, cv);
        }
        assert(query_pairs(r@) == self.query_params_spec());
        r
    }
}

/// Query for one search inside the technical data sheet.
pub struct TechnicalSheetQuery {
    /// Section to search (1-10, with sublevels such as "4.1").
    pub section: String,
    /// Text to search for.
    pub text: String,
    /// 1: must contain the text, 0: must not contain it.
    pub contains: u8,
}

/// The identifying query for one medication, by registration number or by
/// national code. At least one of the two must be given.
pub fn medication_identifier_params(nregistro: Option<&str>, cn: Option<&str>) -> (r: Option<
    Vec<(&'static str, String)>,
>)
    ensures
        r is Some <==> nregistro is Some || cn is Some,
        r matches Some(ps) ==> query_pairs(ps@) == no_pairs() + (if nregistro is Some {
            one_pair("nregistro"@, nregistro->0@)
        } else {
            no_pairs()
        }) + (if cn is Some {
            one_pair("cn"@, cn->0@)
        } else {
            no_pairs()
        }),
{
    if nregistro.is_none() && cn.is_none() {
        return None;
    }
    let mut ps: Vec<(&'static str, String)> = Vec::new();
    assert(query_pairs(ps@) =~= no_pairs());
    let nr_string = match nregistro {
        Some(nr) => Some(String::from_str(nr)),
        None => None,
    };
    push_opt_string(&mut ps, "nregistro", &nr_string);
    let cn_string = match cn {
        Some(codigo) => Some(String::from_str(codigo)),
        None => None,
    };
    push_opt_string(&mut ps, "cn", &cn_string);
    Some(ps)
}

} // verus!
