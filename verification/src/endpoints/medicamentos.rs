//! Medication search parameters and the technical-sheet search query,
//! under the API's Spanish names.

use vstd::prelude::*;
use crate::api::no_pairs;
use crate::api::one_pair;
use crate::api::push_opt_i32;
use crate::api::push_opt_string;
use crate::api::push_opt_u32;
use crate::api::push_opt_u8;
use crate::api::query_pairs;
use crate::text::dec_rep;
use crate::text::dec_rep_signed;

verus! {

/// Medication search parameters.
pub struct SearchMedicamentosParams {
    /// Medication name.
    pub nombre: Option<String>,
    /// Laboratory name.
    pub laboratorio: Option<String>,
    /// First active ingredient name.
    pub practiv1: Option<String>,
    /// Second active ingredient name.
    pub practiv2: Option<String>,
    /// First active ingredient ID.
    pub idpractiv1: Option<i32>,
    /// Second active ingredient ID.
    pub idpractiv2: Option<i32>,
    /// National code.
    pub cn: Option<String>,
    /// ATC code or description.
    pub atc: Option<String>,
    /// Registration number.
    pub nregistro: Option<String>,
    /// Number of active ingredients.
    pub npactiv: Option<i32>,
    /// 1: has black triangle, 0: does not.
    pub triangulo: Option<u8>,
    /// 1: orphan, 0: not orphan.
    pub huerfano: Option<u8>,
    /// 1: biosimilar, 0: not biosimilar.
    pub biosimilar: Option<u8>,
    /// Substitutable type (1-5).
    pub sust: Option<u8>,
    /// VMP code ID.
    pub vmp: Option<String>,
    /// 1: commercialized, 0: not commercialized.
    pub comerc: Option<u8>,
    /// 1: only authorized, 0: only not authorized.
    pub autorizados: Option<u8>,
    /// 1: with prescription, 0: without.
    pub receta: Option<u8>,
    /// 1: narcotics.
    pub estupefaciente: Option<u8>,
    /// 1: psychotropics.
    pub psicotropo: Option<u8>,
    /// 1: narcotics or psychotropics.
    pub estuopsico: Option<u8>,
    /// Page number.
    pub pagina: Option<u32>,
}

impl Default for SearchMedicamentosParams {
    /// All filters unset.
    fn default() -> (r: Self)
        ensures
            r.nombre is None,
            r.laboratorio is None,
            r.practiv1 is None,
            r.practiv2 is None,
            r.idpractiv1 is None,
            r.idpractiv2 is None,
            r.cn is None,
            r.atc is None,
            r.nregistro is None,
            r.npactiv is None,
            r.triangulo is None,
            r.huerfano is None,
            r.biosimilar is None,
            r.sust is None,
            r.vmp is None,
            r.comerc is None,
            r.autorizados is None,
            r.receta is None,
            r.estupefaciente is None,
            r.psicotropo is None,
            r.estuopsico is None,
            r.pagina is None,
    {
        SearchMedicamentosParams {
            nombre: None,
            laboratorio: None,
            practiv1: None,
            practiv2: None,
            idpractiv1: None,
            idpractiv2: None,
            cn: None,
            atc: None,
            nregistro: None,
            npactiv: None,
            triangulo: None,
            huerfano: None,
            biosimilar: None,
            sust: None,
            vmp: None,
            comerc: None,
            autorizados: None,
            receta: None,
            estupefaciente: None,
            psicotropo: None,
            estuopsico: None,
            pagina: None,
        }
    }
}

impl SearchMedicamentosParams {
    /// A search with no filters set.
    pub fn new() -> (r: Self)
        ensures
            r.nombre is None,
            r.laboratorio is None,
            r.practiv1 is None,
            r.practiv2 is None,
            r.idpractiv1 is None,
            r.idpractiv2 is None,
            r.cn is None,
            r.atc is None,
            r.nregistro is None,
            r.npactiv is None,
            r.triangulo is None,
            r.huerfano is None,
            r.biosimilar is None,
            r.sust is None,
            r.vmp is None,
            r.comerc is None,
            r.autorizados is None,
            r.receta is None,
            r.estupefaciente is None,
            r.psicotropo is None,
            r.estuopsico is None,
            r.pagina is None,
    {
        Self::default()
    }

    /// The query pairs of the name and ingredient filters.
    pub open spec fn filtros_nombres_spec(self) -> Seq<(Seq<char>, Seq<char>)> {
        no_pairs() + (if self.nombre is Some {
            one_pair("nombre"@, self.nombre->0@)
        } else {
            no_pairs()
        })
            + (if self.laboratorio is Some {
            one_pair("laboratorio"@, self.laboratorio->0@)
        } else {
            no_pairs()
        })
            + (if self.practiv1 is Some {
            one_pair("practiv1"@, self.practiv1->0@)
        } else {
            no_pairs()
        })
            + (if self.practiv2 is Some {
            one_pair("practiv2"@, self.practiv2->0@)
        } else {
            no_pairs()
        })
            + (if self.idpractiv1 is Some {
            one_pair("idpractiv1"@, dec_rep_signed(self.idpractiv1->0 as int))
        } else {
            no_pairs()
        })
            + (if self.idpractiv2 is Some {
            one_pair("idpractiv2"@, dec_rep_signed(self.idpractiv2->0 as int))
        } else {
            no_pairs()
        })
            + (if self.cn is Some {
            one_pair("cn"@, self.cn->0@)
        } else {
            no_pairs()
        })
            + (if self.atc is Some {
            one_pair("atc"@, self.atc->0@)
        } else {
            no_pairs()
        })
    }

    /// The query pairs of the registry and classification filters.
    pub open spec fn filtros_registro_spec(self) -> Seq<(Seq<char>, Seq<char>)> {
        no_pairs() + (if self.nregistro is Some {
            one_pair("nregistro"@, self.nregistro->0@)
        } else {
            no_pairs()
        })
            + (if self.npactiv is Some {
            one_pair("npactiv"@, dec_rep_signed(self.npactiv->0 as int))
        } else {
            no_pairs()
        })
            + (if self.triangulo is Some {
            one_pair("triangulo"@, dec_rep(self.triangulo->0 as nat))
        } else {
            no_pairs()
        })
            + (if self.huerfano is Some {
            one_pair("huerfano"@, dec_rep(self.huerfano->0 as nat))
        } else {
            no_pairs()
        })
            + (if self.biosimilar is Some {
            one_pair("biosimilar"@, dec_rep(self.biosimilar->0 as nat))
        } else {
            no_pairs()
        })
            + (if self.sust is Some {
            one_pair("sust"@, dec_rep(self.sust->0 as nat))
        } else {
            no_pairs()
        })
            + (if self.vmp is Some {
            one_pair("vmp"@, self.vmp->0@)
        } else {
            no_pairs()
        })
    }

    /// The query pairs of the dispensing and paging filters.
    pub open spec fn filtros_dispensa_spec(self) -> Seq<(Seq<char>, Seq<char>)> {
        no_pairs() + (if self.comerc is Some {
            one_pair("comerc"@, dec_rep(self.comerc->0 as nat))
        } else {
            no_pairs()
        })
            + (if self.autorizados is Some {
            one_pair("autorizados"@, dec_rep(self.autorizados->0 as nat))
        } else {
            no_pairs()
        })
            + (if self.receta is Some {
            one_pair("receta"@, dec_rep(self.receta->0 as nat))
        } else {
            no_pairs()
        })
            + (if self.estupefaciente is Some {
            one_pair("estupefaciente"@, dec_rep(self.estupefaciente->0 as nat))
        } else {
            no_pairs()
        })
            + (if self.psicotropo is Some {
            one_pair("psicotropo"@, dec_rep(self.psicotropo->0 as nat))
        } else {
            no_pairs()
        })
            + (if self.estuopsico is Some {
            one_pair("estuopsico"@, dec_rep(self.estuopsico->0 as nat))
        } else {
            no_pairs()
        })
            + (if self.pagina is Some {
            one_pair("pagina"@, dec_rep(self.pagina->0 as nat))
        } else {
            no_pairs()
        })
    }

    /// The query pairs this search sends: one pair for each filter that is
    /// set, in declaration order.
    pub open spec fn query_params_spec(self) -> Seq<(Seq<char>, Seq<char>)> {
        self.filtros_nombres_spec() + self.filtros_registro_spec() + self.filtros_dispensa_spec()
    }

    /// Builds one group of the query parameters.
    fn filtros_nombres(&self) -> (r: Vec<(&str, String)>)
        ensures
            query_pairs(r@) == self.filtros_nombres_spec(),
    {
        let mut r: Vec<(&str, String)> = Vec::new();
        assert(query_pairs(r@) =~= no_pairs());
        push_opt_string(&mut r, "nombre", &self.nombre);
        push_opt_string(&mut r, "laboratorio", &self.laboratorio);
        push_opt_string(&mut r, "practiv1", &self.practiv1);
        push_opt_string(&mut r, "practiv2", &self.practiv2);
        push_opt_i32(&mut r, "idpractiv1", &self.idpractiv1);
        push_opt_i32(&mut r, "idpractiv2", &self.idpractiv2);
        push_opt_string(&mut r, "cn", &self.cn);
        push_opt_string(&mut r, "atc", &self.atc);
        assert(query_pairs(r@) == self.filtros_nombres_spec());
        r
    }

    /// Builds one group of the query parameters.
    fn filtros_registro(&self) -> (r: Vec<(&str, String)>)
        ensures
            query_pairs(r@) == self.filtros_registro_spec(),
    {
        let mut r: Vec<(&str, String)> = Vec::new();
        assert(query_pairs(r@) =~= no_pairs());
        push_opt_string(&mut r, "nregistro", &self.nregistro);
        push_opt_i32(&mut r, "npactiv", &self.npactiv);
        push_opt_u8(&mut r, "triangulo", &self.triangulo);
        push_opt_u8(&mut r, "huerfano", &self.huerfano);
        push_opt_u8(&mut r, "biosimilar", &self.biosimilar);
        push_opt_u8(&mut r, "sust", &self.sust);
        push_opt_string(&mut r, "vmp", &self.vmp);
        assert(query_pairs(r@) == self.filtros_registro_spec());
        r
    }

    /// Builds one group of the query parameters.
    fn filtros_dispensa(&self) -> (r: Vec<(&str, String)>)
        ensures
            query_pairs(r@) == self.filtros_dispensa_spec(),
    {
        let mut r: Vec<(&str, String)> = Vec::new();
        assert(query_pairs(r@) =~= no_pairs());
        push_opt_u8(&mut r, "comerc", &self.comerc);
        push_opt_u8(&mut r, "autorizados", &self.autorizados);
        push_opt_u8(&mut r, "receta", &self.receta);
        push_opt_u8(&mut r, "estupefaciente", &self.estupefaciente);
        push_opt_u8(&mut r, "psicotropo", &self.psicotropo);
        push_opt_u8(&mut r, "estuopsico", &self.estuopsico);
        push_opt_u32(&mut r, "pagina", &self.pagina);
        assert(query_pairs(r@) == self.filtros_dispensa_spec());
        r
    }

    /// Builds the query parameters, one pair per set filter, in declaration
    /// order.
    pub fn to_query_params(&self) -> (r: Vec<(&str, String)>)
        ensures
            query_pairs(r@) == self.query_params_spec(),
    {
        let mut r = self.filtros_nombres();
        let ghost av = r@;
        let b = self.filtros_registro();
        let ghost bv = b@;
        crate::api::append_params(&mut r, b);
        let c = self.filtros_dispensa();
        let ghost cv = c@;
        crate::api::append_params(&mut r, c);
        proof {
            crate::api::lemma_query_pairs_concat(av, bv);
            crate::api::lemma_query_pairs_concat(av + bv, cv);
        }
        assert(query_pairs(r@) == self.query_params_spec());
        r
    }
}

/// Query for one search inside the technical data sheet.
pub struct FichaTecnicaQuery {
    /// Section to search (1-10, with sublevels such as "4.1").
    pub seccion: String,
    /// Text to search for.
    pub texto: String,
    /// 1: must contain the text, 0: must not contain it.
    pub contiene: u8,
}

} // verus!
