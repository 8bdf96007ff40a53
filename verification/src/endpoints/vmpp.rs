//! VMP/VMPP search parameters.

use vstd::prelude::*;
use crate::api::no_pairs;
use crate::api::one_pair;
use crate::api::push_flag;
use crate::api::push_opt_i32;
use crate::api::push_opt_string;
use crate::api::push_opt_u32;
use crate::api::query_pairs;
use crate::text::dec_rep;
use crate::text::dec_rep_signed;

verus! {

/// VMP/VMPP search parameters.
pub struct SearchVmppParams {
    /// Active ingredient name.
    pub practiv1: Option<String>,
    /// Active ingredient ID.
    pub idpractiv1: Option<i32>,
    /// Dose.
    pub dosis: Option<String>,
    /// Pharmaceutical form name.
    pub forma: Option<String>,
    /// ATC code or description.
    pub atc: Option<String>,
    /// Medication name.
    pub nombre: Option<String>,
    /// When set, results come in hierarchical mode.
    pub modo_arbol: bool,
    /// Page number.
    pub pagina: Option<u32>,
}

impl Default for SearchVmppParams {
    /// All filters unset.
    fn default() -> (r: Self)
        ensures
            r.practiv1 is None,
            r.idpractiv1 is None,
            r.dosis is None,
            r.forma is None,
            r.atc is None,
            r.nombre is None,
            !r.modo_arbol,
            r.pagina is None,
    {
        SearchVmppParams {
            practiv1: None,
            idpractiv1: None,
            dosis: None,
            forma: None,
            atc: None,
            nombre: None,
            modo_arbol: false,
            pagina: None,
        }
    }
}

impl SearchVmppParams {
    /// A search with no filters set.
    pub fn new() -> (r: Self)
        ensures
            r.practiv1 is None,
            r.idpractiv1 is None,
            r.dosis is None,
            r.forma is None,
            r.atc is None,
            r.nombre is None,
            !r.modo_arbol,
            r.pagina is None,
    {
        Self::default()
    }

    /// The query pairs this search sends: starting from no pairs, one pair
    /// for each filter that is set, in declaration order.
    pub open spec fn query_params_spec(self) -> Seq<(Seq<char>, Seq<char>)> {
        no_pairs() + (if self.practiv1 is Some {
            one_pair("practiv1"@, self.practiv1->0@)
        } else {
            no_pairs()
        })
            + (if self.idpractiv1 is Some {
            one_pair("idpractiv1"@, dec_rep_signed(self.idpractiv1->0 as int))
        } else {
            no_pairs()
        })
            + (if self.dosis is Some {
            one_pair("dosis"@, self.dosis->0@)
        } else {
            no_pairs()
        })
            + (if self.forma is Some {
            one_pair("forma"@, self.forma->0@)
        } else {
            no_pairs()
        })
            + (if self.atc is Some {
            one_pair("atc"@, self.atc->0@)
        } else {
            no_pairs()
        })
            + (if self.nombre is Some {
            one_pair("nombre"@, self.nombre->0@)
        } else {
            no_pairs()
        })
            + (if self.modo_arbol {
            one_pair("modoArbol"@, "true"@)
        } else {
            no_pairs()
        })
            + (if self.pagina is Some {
            one_pair("pagina"@, dec_rep(self.pagina->0 as nat))
        } else {
            no_pairs()
        })
    }

    /// Builds the query parameters, one pair per set filter, in declaration
    /// order.
    pub fn to_query_params(&self) -> (r: Vec<(&str, String)>)
        ensures
            query_pairs(r@) == self.query_params_spec(),
    {
        let mut r: Vec<(&str, String)> = Vec::new();
        assert(query_pairs(r@) =~= no_pairs());
        push_opt_string(&mut r, "practiv1", &self.practiv1);
        push_opt_i32(&mut r, "idpractiv1", &self.idpractiv1);
        push_opt_string(&mut r, "dosis", &self.dosis);
        push_opt_string(&mut r, "forma", &self.forma);
        push_opt_string(&mut r, "atc", &self.atc);
        push_opt_string(&mut r, "nombre", &self.nombre);
        push_flag(&mut r, "modoArbol", self.modo_arbol);
        push_opt_u32(&mut r, "pagina", &self.pagina);
        assert(query_pairs(r@) == self.query_params_spec());
        r
    }
}

} // verus!
