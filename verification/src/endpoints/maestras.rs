//! Master-data ("maestra") search parameters, under the API's Spanish
//! names, and the catalog selector they address.

use vstd::prelude::*;
use vstd::string::StringExecFns;
use crate::api::no_pairs;
use crate::api::one_pair;
use crate::api::push_pair;
use crate::api::push_opt_string;
use crate::api::push_opt_i32;
use crate::api::push_opt_u8;
use crate::api::push_opt_u32;
use crate::api::query_pairs;
use crate::text::chars_to_string;
use crate::text::dec_rep;
use crate::text::dec_rep_signed;
use crate::text::u64_to_chars;

verus! {

/// The master-data catalogs, under the API's Spanish naming.
#[derive(Debug, Clone, Copy, PartialEq, Eq, Structural)]
pub enum TipoMaestra {
    PrincipiosActivos,
    FormasFarmaceuticas,
    ViasAdministracion,
    Laboratorios,
    CodigosAtc,
    PrincipiosActivosSnomed,
    FormasFarmaceuticasSimplificadasSnomed,
    ViasAdministracionSnomed,
    Medicamentos,
    MedicamentosComercializadosSnomed,
}

/// The numeric code the API uses for each catalog.
pub open spec fn maestra_code(t: TipoMaestra) -> nat {
    match t {
        TipoMaestra::PrincipiosActivos => 1,
        TipoMaestra::FormasFarmaceuticas => 3,
        TipoMaestra::ViasAdministracion => 4,
        TipoMaestra::Laboratorios => 6,
        TipoMaestra::CodigosAtc => 7,
        TipoMaestra::PrincipiosActivosSnomed => 11,
        TipoMaestra::FormasFarmaceuticasSimplificadasSnomed => 13,
        TipoMaestra::ViasAdministracionSnomed => 14,
        TipoMaestra::Medicamentos => 15,
        TipoMaestra::MedicamentosComercializadosSnomed => 16,
    }
}

impl TipoMaestra {
    /// The numeric code the API uses for this catalog.
    pub fn as_u8(self) -> (r: u8)
        ensures
            r as nat == maestra_code(self),
    {
        match self {
            TipoMaestra::PrincipiosActivos => 1,
            TipoMaestra::FormasFarmaceuticas => 3,
            TipoMaestra::ViasAdministracion => 4,
            TipoMaestra::Laboratorios => 6,
            TipoMaestra::CodigosAtc => 7,
            TipoMaestra::PrincipiosActivosSnomed => 11,
            TipoMaestra::FormasFarmaceuticasSimplificadasSnomed => 13,
            TipoMaestra::ViasAdministracionSnomed => 14,
            TipoMaestra::Medicamentos => 15,
            TipoMaestra::MedicamentosComercializadosSnomed => 16,
        }
    }
}

/// Master-data search parameters.
pub struct MaestraParams {
    /// Element name.
    pub nombre: Option<String>,
    /// Element ID.
    pub id: Option<i32>,
    /// Element code.
    pub codigo: Option<String>,
    /// 1: narcotics (active ingredients only).
    pub estupefaciente: Option<u8>,
    /// 1: psychotropics (active ingredients only).
    pub psicotropo: Option<u8>,
    /// 1: narcotics or psychotropics (active ingredients only).
    pub estuopsico: Option<u8>,
    /// 0: include elements not associated with any medication.
    pub enuso: Option<u8>,
    /// Page number.
    pub pagina: Option<u32>,
}

impl Default for MaestraParams {
    /// All filters unset.
    fn default() -> (r: Self)
        ensures
            r.nombre is None,
            r.id is None,
            r.codigo is None,
            r.estupefaciente is None,
            r.psicotropo is None,
            r.estuopsico is None,
            r.enuso is None,
            r.pagina is None,
    {
        MaestraParams {
            nombre: None,
            id: None,
            codigo: None,
            estupefaciente: None,
            psicotropo: None,
            estuopsico: None,
            enuso: None,
            pagina: None,
        }
    }
}

impl MaestraParams {
    /// A search with no filters set.
    pub fn new() -> (r: Self)
        ensures
            r.nombre is None,
            r.id is None,
            r.codigo is None,
            r.estupefaciente is None,
            r.psicotropo is None,
            r.estuopsico is None,
            r.enuso is None,
            r.pagina is None,
    {
        Self::default()
    }

    /// The query pairs this search sends: the catalog selector first, then
    /// one pair per set filter, in declaration order.
    pub open spec fn query_params_spec(self, tipo: TipoMaestra) -> Seq<(Seq<char>, Seq<char>)> {
        no_pairs() + one_pair("maestra"@, dec_rep(maestra_code(tipo)))
            + (if self.nombre is Some {
            one_pair("nombre"@, self.nombre->0@)
        } else {
            no_pairs()
        })
            + (if self.id is Some {
            one_pair("id"@, dec_rep_signed(self.id->0 as int))
        } else {
            no_pairs()
        })
            + (if self.codigo is Some {
            one_pair("codigo"@, self.codigo->0@)
        } else {
            no_pairs()
        })
            + (if self.estupefaciente is Some {
            one_pair("estupefaciente"@, dec_rep(self.estupefaciente->0 as nat))
        } else {
            no_pairs()
        })
            + (if self.psicotropo is Some {
            one_pair("psicotropo"@, dec_rep(self.psicotropo->0 as nat))
        } else {
            no_pairs()
        })
            + (if self.estuopsico is Some {
            one_pair("estuopsico"@, dec_rep(self.estuopsico->0 as nat))
        } else {
            no_pairs()
        })
            + (if self.enuso is Some {
            one_pair("enuso"@, dec_rep(self.enuso->0 as nat))
        } else {
            no_pairs()
        })
            + (if self.pagina is Some {
            one_pair("pagina"@, dec_rep(self.pagina->0 as nat))
        } else {
            no_pairs()
        })
    }

    /// Builds the query parameters: the catalog selector first, then one
    /// pair per set filter.
    pub fn to_query_params(&self, tipo: TipoMaestra) -> (r: Vec<(&str, String)>)
        ensures
            query_pairs(r@) == self.query_params_spec(tipo),
    {
        let mut r: Vec<(&str, String)> = Vec::new();
        assert(query_pairs(r@) =~= no_pairs());
        push_pair(&mut r, "maestra", chars_to_string(&u64_to_chars(tipo.as_u8() as u64)));
        push_opt_string(&mut r, "nombre", &self.nombre);
        push_opt_i32(&mut r, "id", &self.id);
        push_opt_string(&mut r, "codigo", &self.codigo);
        push_opt_u8(&mut r, "estupefaciente", &self.estupefaciente);
        push_opt_u8(&mut r, "psicotropo", &self.psicotropo);
        push_opt_u8(&mut r, "estuopsico", &self.estuopsico);
        push_opt_u8(&mut r, "enuso", &self.enuso);
        push_opt_u32(&mut r, "pagina", &self.pagina);
        assert(query_pairs(r@) == self.query_params_spec(tipo));
        r
    }
}

} // verus!
