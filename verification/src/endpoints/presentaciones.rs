//! Presentation search parameters, under the API's Spanish names.

use vstd::prelude::*;
use crate::api::no_pairs;
use crate::api::one_pair;
use crate::api::push_opt_i32;
use crate::api::push_opt_string;
use crate::api::push_opt_u32;
use crate::api::push_opt_u8;
use crate::api::query_pairs;
use crate::text::dec_rep;
use crate::text::dec_rep_signed;

verus! {

/// Presentation search parameters.
pub struct SearchPresentacionesParams {
    /// National code.
    pub cn: Option<String>,
    /// Registration number.
    pub nregistro: Option<String>,
    /// VMP code ID.
    pub vmp: Option<String>,
    /// VMPP code ID.
    pub vmpp: Option<String>,
    /// Active ingredient ID.
    pub idpractiv1: Option<i32>,
    /// 1: commercialized, 0: not commercialized.
    pub comerc: Option<u8>,
    /// 1: narcotics.
    pub estupefaciente: Option<u8>,
    /// 1: psychotropics.
    pub psicotropo: Option<u8>,
    /// 1: narcotics or psychotropics.
    pub estuopsico: Option<u8>,
    /// Page number.
    pub pagina: Option<u32>,
}

impl Default for SearchPresentacionesParams {
    /// All filters unset.
    fn default() -> (r: Self)
        ensures
            r.cn is None,
            r.nregistro is None,
            r.vmp is None,
            r.vmpp is None,
            r.idpractiv1 is None,
            r.comerc is None,
            r.estupefaciente is None,
            r.psicotropo is None,
            r.estuopsico is None,
            r.pagina is None,
    {
        SearchPresentacionesParams {
            cn: None,
            nregistro: None,
            vmp: None,
            vmpp: None,
            idpractiv1: None,
            comerc: None,
            estupefaciente: None,
            psicotropo: None,
            estuopsico: None,
            pagina: None,
        }
    }
}

impl SearchPresentacionesParams {
    /// A search with no filters set.
    pub fn new() -> (r: Self)
        ensures
            r.cn is None,
            r.nregistro is None,
            r.vmp is None,
            r.vmpp is None,
            r.idpractiv1 is None,
            r.comerc is None,
            r.estupefaciente is None,
            r.psicotropo is None,
            r.estuopsico is None,
            r.pagina is None,
    {
        Self::default()
    }

    /// The query pairs this search sends: starting from no pairs, one pair
    /// for each filter that is set, in declaration order.
    pub open spec fn query_params_spec(self) -> Seq<(Seq<char>, Seq<char>)> {
        no_pairs() + (if self.cn is Some {
            one_pair("cn"@, self.cn->0@)
        } else {
            no_pairs()
        })
            + (if self.nregistro is Some {
            one_pair("nregistro"@, self.nregistro->0@)
        } else {
            no_pairs()
        })
            + (if self.vmp is Some {
            one_pair("vmp"@, self.vmp->0@)
        } else {
            no_pairs()
        })
            + (if self.vmpp is Some {
            one_pair("vmpp"@, self.vmpp->0@)
        } else {
            no_pairs()
        })
            + (if self.idpractiv1 is Some {
            one_pair("idpractiv1"@, dec_rep_signed(self.idpractiv1->0 as int))
        } else {
            no_pairs()
        })
            + (if self.comerc is Some {
            one_pair("comerc"@, dec_rep(self.comerc->0 as nat))
        } else {
            no_pairs()
        })
            + (if self.estupefaciente is Some {
            one_pair("estupefaciente"@, dec_rep(self.estupefaciente->0 as nat))
        } else {
            no_pairs()
        })
            + (if self.psicotropo is Some {
            one_pair("psicotropo"@, dec_rep(self.psicotropo->0 as nat))
        } else {
            no_pairs()
        })
            + (if self.estuopsico is Some {
            one_pair("estuopsico"@, dec_rep(self.estuopsico->0 as nat))
        } else {
            no_pairs()
        })
            + (if self.pagina is Some {
            one_pair("pagina"@, dec_rep(self.pagina->0 as nat))
        } else {
            no_pairs()
        })
    }

    /// Builds the query parameters, one pair per set filter, in declaration
    /// order.
    pub fn to_query_params(&self) -> (r: Vec<(&str, String)>)
        ensures
            query_pairs(r@) == self.query_params_spec(),
    {
        let mut r: Vec<(&str, String)> = Vec::new();
        assert(query_pairs(r@) =~= no_pairs());
        push_opt_string(&mut r, "cn", &self.cn);
        push_opt_string(&mut r, "nregistro", &self.nregistro);
        push_opt_string(&mut r, "vmp", &self.vmp);
        push_opt_string(&mut r, "vmpp", &self.vmpp);
        push_opt_i32(&mut r, "idpractiv1", &self.idpractiv1);
        push_opt_u8(&mut r, "comerc", &self.comerc);
        push_opt_u8(&mut r, "estupefaciente", &self.estupefaciente);
        push_opt_u8(&mut r, "psicotropo", &self.psicotropo);
        push_opt_u8(&mut r, "estuopsico", &self.estuopsico);
        push_opt_u32(&mut r, "pagina", &self.pagina);
        assert(query_pairs(r@) == self.query_params_spec());
        r
    }
}

} // verus!
