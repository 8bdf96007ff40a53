//! Clinical-description (VMP/VMPP) search parameters.

use vstd::prelude::*;
use crate::api::no_pairs;
use crate::api::one_pair;
use crate::api::push_flag;
use crate::api::push_opt_i32;
use crate::api::push_opt_string;
use crate::api::push_opt_u32;
use crate::api::query_pairs;
use crate::text::dec_rep;
use crate::text::dec_rep_signed;

verus! {

/// VMP/VMPP clinical-description search parameters.
pub struct SearchClinicalDescriptionParams {
    /// Active ingredient name.
    pub active_ingredient: Option<String>,
    /// Active ingredient ID.
    pub active_ingredient_id: Option<i32>,
    /// Dose.
    pub dose: Option<String>,
    /// Pharmaceutical form name.
    pub pharmaceutical_form: Option<String>,
    /// ATC code or description.
    pub atc: Option<String>,
    /// Medication name.
    pub name: Option<String>,
    /// When set, results come in hierarchical mode.
    pub tree_mode: bool,
    /// Page number.
    pub page: Option<u32>,
}

impl Default for SearchClinicalDescriptionParams {
    /// All filters unset.
    fn default() -> (r: Self)
        ensures
            r.active_ingredient is None,
            r.active_ingredient_id is None,
            r.dose is None,
            r.pharmaceutical_form is None,
            r.atc is None,
            r.name is None,
            !r.tree_mode,
            r.page is None,
    {
        SearchClinicalDescriptionParams {
            active_ingredient: None,
            active_ingredient_id: None,
            dose: None,
            pharmaceutical_form: None,
            atc: None,
            name: None,
            tree_mode: false,
            page: None,
        }
    }
}

impl SearchClinicalDescriptionParams {
    /// A search with no filters set.
    pub fn new() -> (r: Self)
        ensures
            r.active_ingredient is None,
            r.active_ingredient_id is None,
            r.dose is None,
            r.pharmaceutical_form is None,
            r.atc is None,
            r.name is None,
            !r.tree_mode,
            r.page is None,
    {
        Self::default()
    }

    /// The query pairs this search sends: starting from no pairs, one pair
    /// for each filter that is set, in declaration order.
    pub open spec fn query_params_spec(self) -> Seq<(Seq<char>, Seq<char>)> {
        no_pairs() + (if self.active_ingredient is Some {
            one_pair("practiv1"@, self.active_ingredient->0@)
        } else {
            no_pairs()
        })
            + (if self.active_ingredient_id is Some {
            one_pair("idpractiv1"@, dec_rep_signed(self.active_ingredient_id->0 as int))
        } else {
            no_pairs()
        })
            + (if self.dose is Some {
            one_pair("dosis"@, self.dose->0@)
        } else {
            no_pairs()
        })
            + (if self.pharmaceutical_form is Some {
            one_pair("forma"@, self.pharmaceutical_form->0@)
        } else {
            no_pairs()
        })
            + (if self.atc is Some {
            one_pair("atc"@, self.atc->0@)
        } else {
            no_pairs()
        })
            + (if self.name is Some {
            one_pair("nombre"@, self.name->0@)
        } else {
            no_pairs()
        })
            + (if self.tree_mode {
            one_pair("modoArbol"@, "true"@)
        } else {
            no_pairs()
        })
            + (if self.page is Some {
            one_pair("pagina"@, dec_rep(self.page->0 as nat))
        } else {
            no_pairs()
        })
    }

    /// Builds the query parameters, one pair per set filter, in declaration
    /// order.
    pub fn to_query_params(&self) -> (r: Vec<(&str, String)>)
        ensures
            query_pairs(r@) == self.query_params_spec(),
    {
        let mut r: Vec<(&str, String)> = Vec::new();
        assert(query_pairs(r@) =~= no_pairs());
        push_opt_string(&mut r, "practiv1", &self.active_ingredient);
        push_opt_i32(&mut r, "idpractiv1", &self.active_ingredient_id);
        push_opt_string(&mut r, "dosis", &self.dose);
        push_opt_string(&mut r, "forma", &self.pharmaceutical_form);
        push_opt_string(&mut r, "atc", &self.atc);
        push_opt_string(&mut r, "nombre", &self.name);
        push_flag(&mut r, "modoArbol", self.tree_mode);
        push_opt_u32(&mut r, "pagina", &self.page);
        assert(query_pairs(r@) == self.query_params_spec());
        r
    }
}

} // verus!
