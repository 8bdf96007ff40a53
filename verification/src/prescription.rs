//! The composite prescription file: each `prescription` element carries the
//! scalar attributes of one prescribable item — with its boolean flags
//! encoded as `"0"`/`"1"` texts — and owns an optional pharmaceutical-form
//! sub-structure, ATC assignments with their duplicate warnings, and supply
//! problems. This module reads those records and fans them out into seven
//! related CSV tables joined by the national code.

use vstd::prelude::*;
use vstd::string::StrSliceExecFns;
use vstd::string::StringExecFns;
use crate::catalog::RecordError;
use crate::catalog::ConvertError;
use crate::catalog::opt_matches;
use crate::catalog::opt_view;

use crate::catalog::clone_or_empty;
use crate::csvfmt::views_of;
use crate::csvfmt::table_views;
use crate::csvfmt::csv_table;
use crate::csvfmt::csv_table_string;
use crate::xml::XmlNode;
use crate::xml::XmlTree;
use crate::xml::XmlError;
use crate::xml::spec_parse_document;
use crate::xml::child_named;
use crate::xml::child_text;
use crate::xml::children_named;
use crate::xml::children_named_from;
use crate::xml::find_child;
use crate::xml::find_child_text;

verus! {

/// The boolean denoted by a flag text: `"1"` is true, `"0"` is false,
/// anything else is no flag at all.
pub open spec fn flag_value(s: Seq<char>) -> Option<bool> {
    if s == "1"@ {
        Some(true)
    } else if s == "0"@ {
        Some(false)
    } else {
        None
    }
}

/// Decodes a `"0"`/`"1"` flag text. Any other text — `"2"`, `"yes"`, an
/// empty element — is rejected.
pub fn parse_flag(s: &str) -> (r: Result<bool, RecordError>)
    ensures
        r is Ok <==> flag_value(s@) is Some,
        r matches Ok(b) ==> flag_value(s@) == Some(b),
        r matches Err(e) ==> e == RecordError::InvalidFlag,
{
    proof {
        reveal_strlit("1");
        reveal_strlit("0");
    }
    if s.unicode_len() == 1 {
        let c = s.get_char(0);
        if c == '1' {
            assert(s@ =~= "1"@);
            return Ok(true);
        }
        if c == '0' {
            assert(s@ =~= "0"@);
            return Ok(false);
        }
        assert(s@ != "1"@ && s@ != "0"@);
        return Err(RecordError::InvalidFlag);
    }
    assert(s@ != "1"@ && s@ != "0"@);
    Err(RecordError::InvalidFlag)
}

/// Whether a flag child is present and holds a valid flag text.
pub open spec fn flag_ok(n: XmlTree, tag: Seq<char>) -> bool {
    &&& child_text(n, tag) is Some
    &&& flag_value(child_text(n, tag)->0) is Some
}

/// The boolean carried by a flag child.
pub open spec fn flag_of(n: XmlTree, tag: Seq<char>) -> bool {
    flag_value(child_text(n, tag)->0)->0
}

/// Reads one flag child: absent is a missing field, an unexpected text an
/// invalid flag.
pub fn read_flag(n: &XmlNode, tag: &str) -> (r: Result<bool, RecordError>)
    ensures
        r is Ok <==> flag_ok(n@, tag@),
        r matches Ok(b) ==> b == flag_of(n@, tag@),
        r matches Err(e) ==> e == (if child_text(n@, tag@) is Some {
            RecordError::InvalidFlag
        } else {
            RecordError::MissingField
        }),
{
    match find_child_text(n, tag) {
        Some(t) => parse_flag(t.as_str()),
        None => Err(RecordError::MissingField),
    }
}

/// A record read from repeated child elements of one tag.
pub trait ChildRecord: Sized {
    /// Whether an element carries everything this record requires.
    spec fn node_ok(n: XmlTree) -> bool;

    /// Whether `rec` is exactly the record read from `n`.
    spec fn matches_node(n: XmlTree, rec: Self) -> bool;

    /// Reads one record from one element.
    fn from_node(n: &XmlNode) -> (r: Result<Self, RecordError>)
        ensures
            r is Ok <==> Self::node_ok(n@),
            r matches Ok(rec) ==> Self::matches_node(n@, rec),
            r matches Err(e) ==> e == RecordError::MissingField || e == RecordError::InvalidFlag,
    ;
}

/// Whether every element of a sequence can be read as a `C` record.
pub open spec fn all_ok<C: ChildRecord>(cs: Seq<XmlTree>) -> bool {
    forall|i: int| 0 <= i < cs.len() ==> C::node_ok(#[trigger] cs[i])
}

/// Whether `rs` are exactly the records read from `cs`, in order.
pub open spec fn lists_match<C: ChildRecord>(cs: Seq<XmlTree>, rs: Seq<C>) -> bool {
    &&& rs.len() == cs.len()
    &&& forall|i: int| 0 <= i < cs.len() ==> C::matches_node(cs[i], #[trigger] rs[i])
}

/// Reads every child element of `parent` named `tag` into a record, in
/// document order.
pub fn children_records<C: ChildRecord>(parent: &XmlNode, tag: &str) -> (r: Result<
    Vec<C>,
    RecordError,
>)
    ensures
        r is Ok <==> all_ok::<C>(children_named(parent@, tag@)),
        r matches Ok(v) ==> lists_match::<C>(children_named(parent@, tag@), v@),
        r matches Err(e) ==> e == RecordError::MissingField || e == RecordError::InvalidFlag,
{
    let ghost cs = children_named(parent@, tag@);
    let ghost mut done: Seq<XmlTree> = Seq::empty();
    let mut out: Vec<C> = Vec::new();
    let mut i: usize = 0;
    assert(forall|j: int|
        0 <= j < parent.children@.len() ==> parent@.children[j] == #[trigger] parent.children@[
            j
        ]@);
    while i < parent.children.len()
        invariant
            0 <= i <= parent.children@.len(),
            parent@.children.len() == parent.children@.len(),
            forall|j: int|
                0 <= j < parent.children@.len() ==> parent@.children[j]
                    == #[trigger] parent.children@[j]@,
            cs == children_named(parent@, tag@),
            cs =~= done + children_named_from(parent@.children, tag@, i as int),
            out@.len() == done.len(),
            forall|k: int| 0 <= k < done.len() ==> C::node_ok(#[trigger] done[k]),
            forall|k: int| 0 <= k < done.len() ==> C::matches_node(done[k], #[trigger] out@[k]),
        decreases parent.children.len() - i,
    {
        let child = &parent.children[i];
        if crate::text::chars_eq_str(&child.name, tag) {
            assert(parent@.children[i as int] == child@ && child@.name == tag@);
            assert(children_named_from(parent@.children, tag@, i as int) == seq![
                parent@.children[i as int],
            ] + children_named_from(parent@.children, tag@, i as int + 1));
            match C::from_node(child) {
                Ok(rec) => {
                    out.push(rec);
                    proof {
                        done = done.push(child@);
                    }
                    assert(cs =~= done + children_named_from(
                        parent@.children,
                        tag@,
                        i as int + 1,
                    ));
                },
                Err(e) => {
                    proof {
                        let bad = done.len() as int;
                        assert(cs[bad] == child@);
                    }
                    return Err(e);
                },
            }
        } else {
            assert(parent@.children[i as int] == child@);
            assert(parent@.children[i as int].name != tag@);
            assert(children_named_from(parent@.children, tag@, i as int) == children_named_from(
                parent@.children,
                tag@,
                i as int + 1,
            ));
        }
        i = i + 1;
    }
    assert(children_named_from(parent@.children, tag@, parent@.children.len() as int)
        =~= Seq::<XmlTree>::empty());
    assert(cs =~= done);
    Ok(out)
}

/// One active-ingredient composition of a pharmaceutical form. Every field
/// is optional in the source.
pub struct ActiveIngredient {
    pub active_ingredient_code: Option<String>,
    pub order: Option<String>,
    pub dose: Option<String>,
    pub dose_unit: Option<String>,
    pub composition_dose: Option<String>,
    pub composition_unit: Option<String>,
    pub administration_dose: Option<String>,
    pub administration_unit: Option<String>,
    pub prescription_dose: Option<String>,
    pub prescription_unit: Option<String>,
}

impl ChildRecord for ActiveIngredient {
    open spec fn node_ok(n: XmlTree) -> bool {
        true
    }

    open spec fn matches_node(n: XmlTree, rec: Self) -> bool {
        &&& opt_matches(rec.active_ingredient_code, child_text(n, "cod_principio_activo"@))
        &&& opt_matches(rec.order, child_text(n, "orden_colacion"@))
        &&& opt_matches(rec.dose, child_text(n, "dosis_pa"@))
        &&& opt_matches(rec.dose_unit, child_text(n, "unidad_dosis_pa"@))
        &&& opt_matches(rec.composition_dose, child_text(n, "dosis_composicion"@))
        &&& opt_matches(rec.composition_unit, child_text(n, "unidad_composicion"@))
        &&& opt_matches(rec.administration_dose, child_text(n, "dosis_administracion"@))
        &&& opt_matches(rec.administration_unit, child_text(n, "unidad_administracion"@))
        &&& opt_matches(rec.prescription_dose, child_text(n, "dosis_prescripcion"@))
        &&& opt_matches(rec.prescription_unit, child_text(n, "unidad_prescripcion"@))
    }

    fn from_node(n: &XmlNode) -> (r: Result<Self, RecordError>) {
        Ok(ActiveIngredient {
            active_ingredient_code: find_child_text(n, "cod_principio_activo"),
            order: find_child_text(n, "orden_colacion"),
            dose: find_child_text(n, "dosis_pa"),
            dose_unit: find_child_text(n, "unidad_dosis_pa"),
            composition_dose: find_child_text(n, "dosis_composicion"),
            composition_unit: find_child_text(n, "unidad_composicion"),
            administration_dose: find_child_text(n, "dosis_administracion"),
            administration_unit: find_child_text(n, "unidad_administracion"),
            prescription_dose: find_child_text(n, "dosis_prescripcion"),
            prescription_unit: find_child_text(n, "unidad_prescripcion"),
        })
    }
}

/// One administration route of a pharmaceutical form.
pub struct AdminRoute {
    pub route_code: String,
}

impl ChildRecord for AdminRoute {
    open spec fn node_ok(n: XmlTree) -> bool {
        child_text(n, "cod_via_admin"@) is Some
    }

    open spec fn matches_node(n: XmlTree, rec: Self) -> bool {
        rec.route_code@ == child_text(n, "cod_via_admin"@)->0
    }

    fn from_node(n: &XmlNode) -> (r: Result<Self, RecordError>) {
        match find_child_text(n, "cod_via_admin") {
            Some(t) => Ok(AdminRoute { route_code: t }),
            None => Err(RecordError::MissingField),
        }
    }
}

/// One ATC duplicate warning: an overlapping classification with its
/// clinical effect and recommendation.
pub struct AtcDuplicate {
    pub duplicate_atc: String,
    pub description: Option<String>,
    pub effect: Option<String>,
    pub recommendation: Option<String>,
}

impl ChildRecord for AtcDuplicate {
    open spec fn node_ok(n: XmlTree) -> bool {
        child_text(n, "atc_duplicidad"@) is Some
    }

    open spec fn matches_node(n: XmlTree, rec: Self) -> bool {
        &&& rec.duplicate_atc@ == child_text(n, "atc_duplicidad"@)->0
        &&& opt_matches(rec.description, child_text(n, "descripcion_atc_duplicidad"@))
        &&& opt_matches(rec.effect, child_text(n, "efecto_duplicidad"@))
        &&& opt_matches(rec.recommendation, child_text(n, "recomendacion_duplicidad"@))
    }

    fn from_node(n: &XmlNode) -> (r: Result<Self, RecordError>) {
        let duplicate_atc = match find_child_text(n, "atc_duplicidad") {
            Some(t) => t,
            None => {
                return Err(RecordError::MissingField);
            },
        };
        Ok(AtcDuplicate {
            duplicate_atc,
            description: find_child_text(n, "descripcion_atc_duplicidad"),
            effect: find_child_text(n, "efecto_duplicidad"),
            recommendation: find_child_text(n, "recomendacion_duplicidad"),
        })
    }
}

/// One ATC assignment of a prescription, with its duplicate warnings.
pub struct PrescriptionAtc {
    pub atc_code: String,
    pub duplicates: Vec<AtcDuplicate>,
}

impl ChildRecord for PrescriptionAtc {
    open spec fn node_ok(n: XmlTree) -> bool {
        &&& child_text(n, "cod_atc"@) is Some
        &&& all_ok::<AtcDuplicate>(children_named(n, "duplicidades"@))
    }

    open spec fn matches_node(n: XmlTree, rec: Self) -> bool {
        &&& rec.atc_code@ == child_text(n, "cod_atc"@)->0
        &&& lists_match::<AtcDuplicate>(children_named(n, "duplicidades"@), rec.duplicates@)
    }

    fn from_node(n: &XmlNode) -> (r: Result<Self, RecordError>) {
        let atc_code = match find_child_text(n, "cod_atc") {
            Some(t) => t,
            None => {
                return Err(RecordError::MissingField);
            },
        };
        let duplicates = match children_records::<AtcDuplicate>(n, "duplicidades") {
            Ok(v) => v,
            Err(e) => {
                return Err(e);
            },
        };
        Ok(PrescriptionAtc { atc_code, duplicates })
    }
}

/// One supply problem of a prescription.
pub struct SupplyProblem {
    pub start_date: Option<String>,
    pub observations: Option<String>,
}

impl ChildRecord for SupplyProblem {
    open spec fn node_ok(n: XmlTree) -> bool {
        true
    }

    open spec fn matches_node(n: XmlTree, rec: Self) -> bool {
        &&& opt_matches(rec.start_date, child_text(n, "fecha_inicio"@))
        &&& opt_matches(rec.observations, child_text(n, "observaciones"@))
    }

    fn from_node(n: &XmlNode) -> (r: Result<Self, RecordError>) {
        Ok(SupplyProblem {
            start_date: find_child_text(n, "fecha_inicio"),
            observations: find_child_text(n, "observaciones"),
        })
    }
}

/// The pharmaceutical form of a prescription, with its compositions and
/// administration routes.
pub struct PrescriptionForm {
    pub form_code: String,
    pub simplified_form_code: String,
    pub num_active_ingredients: Option<String>,
    pub active_ingredients: Vec<ActiveIngredient>,
    pub admin_routes: Vec<AdminRoute>,
}

/// Whether a pharmaceutical-form element carries its required fields and
/// readable sub-elements.
pub open spec fn form_ok(n: XmlTree) -> bool {
    &&& child_text(n, "cod_forfar"@) is Some
    &&& child_text(n, "cod_forfar_simplificada"@) is Some
    &&& all_ok::<ActiveIngredient>(children_named(n, "composicion_pa"@))
    &&& all_ok::<AdminRoute>(children_named(n, "viasadministracion"@))
}

/// Whether `f` is exactly the form read from `n`.
pub open spec fn form_matches(n: XmlTree, f: PrescriptionForm) -> bool {
    &&& f.form_code@ == child_text(n, "cod_forfar"@)->0
    &&& f.simplified_form_code@ == child_text(n, "cod_forfar_simplificada"@)->0
    &&& opt_matches(f.num_active_ingredients, child_text(n, "nro_pactiv"@))
    &&& lists_match::<ActiveIngredient>(
        children_named(n, "composicion_pa"@),
        f.active_ingredients@,
    )
    &&& lists_match::<AdminRoute>(children_named(n, "viasadministracion"@), f.admin_routes@)
}

impl PrescriptionForm {
    /// Reads the pharmaceutical form from its element.
    pub fn from_node(n: &XmlNode) -> (r: Result<Self, RecordError>)
        ensures
            r is Ok <==> form_ok(n@),
            r matches Ok(f) ==> form_matches(n@, f),
            r matches Err(e) ==> e == RecordError::MissingField || e == RecordError::InvalidFlag,
    {
        let form_code = match find_child_text(n, "cod_forfar") {
            Some(t) => t,
            None => {
                return Err(RecordError::MissingField);
            },
        };
        let simplified_form_code = match find_child_text(n, "cod_forfar_simplificada") {
            Some(t) => t,
            None => {
                return Err(RecordError::MissingField);
            },
        };
        let num_active_ingredients = find_child_text(n, "nro_pactiv");
        let active_ingredients = match children_records::<ActiveIngredient>(n, "composicion_pa") {
            Ok(v) => v,
            Err(e) => {
                return Err(e);
            },
        };
        let admin_routes = match children_records::<AdminRoute>(n, "viasadministracion") {
            Ok(v) => v,
            Err(e) => {
                return Err(e);
            },
        };
        Ok(PrescriptionForm {
            form_code,
            simplified_form_code,
            num_active_ingredients,
            active_ingredients,
            admin_routes,
        })
    }
}

/// The header element of the prescription file.
pub struct Header {
    pub listprescriptiondate: String,
}

/// The CSV text of a boolean cell.
pub open spec fn bool_text(b: bool) -> Seq<char> {
    if b {
        "true"@
    } else {
        "false"@
    }
}

/// Renders a boolean cell.
pub fn bool_string(b: bool) -> (r: String)
    ensures
        r@ == bool_text(b),
{
    if b {
        String::from_str("true")
    } else {
        String::from_str("false")
    }
}

/// One prescribable item: the scalar attributes of a `prescription` element,
/// its boolean flags decoded from `"0"`/`"1"` texts, and the owned
/// sub-structures that are fanned out into the child tables.
pub struct PrescriptionRecord {
    pub cod_nacion: String,
    pub nro_definitivo: String,
    pub des_nomco: String,
    pub des_prese: String,
    pub cod_dcsa: Option<String>,
    pub cod_dcp: Option<String>,
    pub cod_dcpf: Option<String>,
    pub des_dosific: Option<String>,
    pub cod_envase: Option<String>,
    pub contenido: Option<String>,
    pub unid_contenido: Option<String>,
    pub nro_conte: Option<String>,
    pub sw_psicotropo: bool,
    pub sw_estupefaciente: bool,
    pub sw_afecta_conduccion: bool,
    pub sw_triangulo_negro: bool,
    pub url_fictec: Option<String>,
    pub url_prosp: Option<String>,
    pub sw_receta: bool,
    pub sw_generico: bool,
    pub sw_sustituible: bool,
    pub sw_envase_clinico: bool,
    pub sw_uso_hospitalario: bool,
    pub sw_diagnostico_hospitalario: bool,
    pub sw_tld: bool,
    pub sw_especial_control_medico: bool,
    pub sw_huerfano: bool,
    pub sw_base_a_plantas: bool,
    pub laboratorio_titular: Option<String>,
    pub laboratorio_comercializador: Option<String>,
    pub fecha_autorizacion: Option<String>,
    pub sw_comercializado: bool,
    pub fec_comer: Option<String>,
    pub cod_sitreg: Option<String>,
    pub cod_sitreg_presen: Option<String>,
    pub fecha_situacion_registro: Option<String>,
    pub fec_sitreg_presen: Option<String>,
    pub sw_tiene_excipientes_decl_obligatoria: bool,
    pub biosimilar: bool,
    pub importacion_paralela: bool,
    pub radiofarmaco: bool,
    pub serializacion: bool,
    pub forms: Option<PrescriptionForm>,
    pub atc_codes: Vec<PrescriptionAtc>,
    pub supply_problems: Vec<SupplyProblem>,
}

/// Whether the scalar fields of a prescription element are readable: the
/// required texts present and every flag a valid `"0"`/`"1"`.
pub open spec fn prescription_scalars_ok(n: XmlTree) -> bool {
        &&& child_text(n, "cod_nacion"@) is Some
        &&& child_text(n, "nro_definitivo"@) is Some
        &&& child_text(n, "des_nomco"@) is Some
        &&& child_text(n, "des_prese"@) is Some
        &&& flag_ok(n, "sw_psicotropo"@)
        &&& flag_ok(n, "sw_estupefaciente"@)
        &&& flag_ok(n, "sw_afecta_conduccion"@)
        &&& flag_ok(n, "sw_triangulo_negro"@)
        &&& flag_ok(n, "sw_receta"@)
        &&& flag_ok(n, "sw_generico"@)
        &&& flag_ok(n, "sw_sustituible"@)
        &&& flag_ok(n, "sw_envase_clinico"@)
        &&& flag_ok(n, "sw_uso_hospitalario"@)
        &&& flag_ok(n, "sw_diagnostico_hospitalario"@)
        &&& flag_ok(n, "sw_tld"@)
        &&& flag_ok(n, "sw_especial_control_medico"@)
        &&& flag_ok(n, "sw_huerfano"@)
        &&& flag_ok(n, "sw_base_a_plantas"@)
        &&& flag_ok(n, "sw_comercializado"@)
        &&& flag_ok(n, "sw_tiene_excipientes_decl_obligatoria"@)
        &&& flag_ok(n, "biosimilar"@)
        &&& flag_ok(n, "importacion_paralela"@)
        &&& flag_ok(n, "radiofarmaco"@)
        &&& flag_ok(n, "serializacion"@)
}

/// Whether the scalar fields of `rec` are exactly those read from `n`.
pub open spec fn prescription_scalars_match(n: XmlTree, rec: PrescriptionRecord) -> bool {
        &&& rec.cod_nacion@ == child_text(n, "cod_nacion"@)->0
        &&& rec.nro_definitivo@ == child_text(n, "nro_definitivo"@)->0
        &&& rec.des_nomco@ == child_text(n, "des_nomco"@)->0
        &&& rec.des_prese@ == child_text(n, "des_prese"@)->0
        &&& opt_matches(rec.cod_dcsa, child_text(n, "cod_dcsa"@))
        &&& opt_matches(rec.cod_dcp, child_text(n, "cod_dcp"@))
        &&& opt_matches(rec.cod_dcpf, child_text(n, "cod_dcpf"@))
        &&& opt_matches(rec.des_dosific, child_text(n, "des_dosific"@))
        &&& opt_matches(rec.cod_envase, child_text(n, "cod_envase"@))
        &&& opt_matches(rec.contenido, child_text(n, "contenido"@))
        &&& opt_matches(rec.unid_contenido, child_text(n, "unid_contenido"@))
        &&& opt_matches(rec.nro_conte, child_text(n, "nro_conte"@))
        &&& rec.sw_psicotropo == flag_of(n, "sw_psicotropo"@)
        &&& rec.sw_estupefaciente == flag_of(n, "sw_estupefaciente"@)
        &&& rec.sw_afecta_conduccion == flag_of(n, "sw_afecta_conduccion"@)
        &&& rec.sw_triangulo_negro == flag_of(n, "sw_triangulo_negro"@)
        &&& opt_matches(rec.url_fictec, child_text(n, "url_fictec"@))
        &&& opt_matches(rec.url_prosp, child_text(n, "url_prosp"@))
        &&& rec.sw_receta == flag_of(n, "sw_receta"@)
        &&& rec.sw_generico == flag_of(n, "sw_generico"@)
        &&& rec.sw_sustituible == flag_of(n, "sw_sustituible"@)
        &&& rec.sw_envase_clinico == flag_of(n, "sw_envase_clinico"@)
        &&& rec.sw_uso_hospitalario == flag_of(n, "sw_uso_hospitalario"@)
        &&& rec.sw_diagnostico_hospitalario == flag_of(n, "sw_diagnostico_hospitalario"@)
        &&& rec.sw_tld == flag_of(n, "sw_tld"@)
        &&& rec.sw_especial_control_medico == flag_of(n, "sw_especial_control_medico"@)
        &&& rec.sw_huerfano == flag_of(n, "sw_huerfano"@)
        &&& rec.sw_base_a_plantas == flag_of(n, "sw_base_a_plantas"@)
        &&& opt_matches(rec.laboratorio_titular, child_text(n, "laboratorio_titular"@))
        &&& opt_matches(rec.laboratorio_comercializador, child_text(n, "laboratorio_comercializador"@))
        &&& opt_matches(rec.fecha_autorizacion, child_text(n, "fecha_autorizacion"@))
        &&& rec.sw_comercializado == flag_of(n, "sw_comercializado"@)
        &&& opt_matches(rec.fec_comer, child_text(n, "fec_comer"@))
        &&& opt_matches(rec.cod_sitreg, child_text(n, "cod_sitreg"@))
        &&& opt_matches(rec.cod_sitreg_presen, child_text(n, "cod_sitreg_presen"@))
        &&& opt_matches(rec.fecha_situacion_registro, child_text(n, "fecha_situacion_registro"@))
        &&& opt_matches(rec.fec_sitreg_presen, child_text(n, "fec_sitreg_presen"@))
        &&& rec.sw_tiene_excipientes_decl_obligatoria == flag_of(n, "sw_tiene_excipientes_decl_obligatoria"@)
        &&& rec.biosimilar == flag_of(n, "biosimilar"@)
        &&& rec.importacion_paralela == flag_of(n, "importacion_paralela"@)
        &&& rec.radiofarmaco == flag_of(n, "radiofarmaco"@)
        &&& rec.serializacion == flag_of(n, "serializacion"@)
}


/// Reads the psychotropic, narcotic, driving and black-triangle flags.
fn read_flags_classification(n: &XmlNode) -> (r: Result<(bool, bool, bool, bool), RecordError>)
    ensures
        r is Ok <==> flag_ok(n@, "sw_psicotropo"@) && flag_ok(n@, "sw_estupefaciente"@) && flag_ok(n@, "sw_afecta_conduccion"@) && flag_ok(n@, "sw_triangulo_negro"@),
        r matches Ok(t) ==> {
            &&& t.0 == flag_of(n@, "sw_psicotropo"@)
            &&& t.1 == flag_of(n@, "sw_estupefaciente"@)
            &&& t.2 == flag_of(n@, "sw_afecta_conduccion"@)
            &&& t.3 == flag_of(n@, "sw_triangulo_negro"@)
        },
        r matches Err(e) ==> e == RecordError::MissingField || e == RecordError::InvalidFlag,
{
    let sw_psicotropo = match read_flag(n, "sw_psicotropo") {
        Ok(b) => b,
        Err(e) => {
            return Err(e);
        },
    };
    let sw_estupefaciente = match read_flag(n, "sw_estupefaciente") {
        Ok(b) => b,
        Err(e) => {
            return Err(e);
        },
    };
    let sw_afecta_conduccion = match read_flag(n, "sw_afecta_conduccion") {
        Ok(b) => b,
        Err(e) => {
            return Err(e);
        },
    };
    let sw_triangulo_negro = match read_flag(n, "sw_triangulo_negro") {
        Ok(b) => b,
        Err(e) => {
            return Err(e);
        },
    };
    Ok((sw_psicotropo, sw_estupefaciente, sw_afecta_conduccion, sw_triangulo_negro))
}

/// Reads the dispensing and classification flags.
fn read_flags_dispensing(n: &XmlNode) -> (r: Result<(bool, bool, bool, bool, bool, bool, bool, bool, bool, bool), RecordError>)
    ensures
        r is Ok <==> flag_ok(n@, "sw_receta"@) && flag_ok(n@, "sw_generico"@) && flag_ok(n@, "sw_sustituible"@) && flag_ok(n@, "sw_envase_clinico"@) && flag_ok(n@, "sw_uso_hospitalario"@) && flag_ok(n@, "sw_diagnostico_hospitalario"@) && flag_ok(n@, "sw_tld"@) && flag_ok(n@, "sw_especial_control_medico"@) && flag_ok(n@, "sw_huerfano"@) && flag_ok(n@, "sw_base_a_plantas"@),
        r matches Ok(t) ==> {
            &&& t.0 == flag_of(n@, "sw_receta"@)
            &&& t.1 == flag_of(n@, "sw_generico"@)
            &&& t.2 == flag_of(n@, "sw_sustituible"@)
            &&& t.3 == flag_of(n@, "sw_envase_clinico"@)
            &&& t.4 == flag_of(n@, "sw_uso_hospitalario"@)
            &&& t.5 == flag_of(n@, "sw_diagnostico_hospitalario"@)
            &&& t.6 == flag_of(n@, "sw_tld"@)
            &&& t.7 == flag_of(n@, "sw_especial_control_medico"@)
            &&& t.8 == flag_of(n@, "sw_huerfano"@)
            &&& t.9 == flag_of(n@, "sw_base_a_plantas"@)
        },
        r matches Err(e) ==> e == RecordError::MissingField || e == RecordError::InvalidFlag,
{
    let sw_receta = match read_flag(n, "sw_receta") {
        Ok(b) => b,
        Err(e) => {
            return Err(e);
        },
    };
    let sw_generico = match read_flag(n, "sw_generico") {
        Ok(b) => b,
        Err(e) => {
            return Err(e);
        },
    };
    let sw_sustituible = match read_flag(n, "sw_sustituible") {
        Ok(b) => b,
        Err(e) => {
            return Err(e);
        },
    };
    let sw_envase_clinico = match read_flag(n, "sw_envase_clinico") {
        Ok(b) => b,
        Err(e) => {
            return Err(e);
        },
    };
    let sw_uso_hospitalario = match read_flag(n, "sw_uso_hospitalario") {
        Ok(b) => b,
        Err(e) => {
            return Err(e);
        },
    };
    let sw_diagnostico_hospitalario = match read_flag(n, "sw_diagnostico_hospitalario") {
        Ok(b) => b,
        Err(e) => {
            return Err(e);
        },
    };
    let sw_tld = match read_flag(n, "sw_tld") {
        Ok(b) => b,
        Err(e) => {
            return Err(e);
        },
    };
    let sw_especial_control_medico = match read_flag(n, "sw_especial_control_medico") {
        Ok(b) => b,
        Err(e) => {
            return Err(e);
        },
    };
    let sw_huerfano = match read_flag(n, "sw_huerfano") {
        Ok(b) => b,
        Err(e) => {
            return Err(e);
        },
    };
    let sw_base_a_plantas = match read_flag(n, "sw_base_a_plantas") {
        Ok(b) => b,
        Err(e) => {
            return Err(e);
        },
    };
    Ok((sw_receta, sw_generico, sw_sustituible, sw_envase_clinico, sw_uso_hospitalario, sw_diagnostico_hospitalario, sw_tld, sw_especial_control_medico, sw_huerfano, sw_base_a_plantas))
}

/// Reads the commercialisation and remaining status flags.
fn read_flags_status(n: &XmlNode) -> (r: Result<(bool, bool, bool, bool, bool, bool), RecordError>)
    ensures
        r is Ok <==> flag_ok(n@, "sw_comercializado"@) && flag_ok(n@, "sw_tiene_excipientes_decl_obligatoria"@) && flag_ok(n@, "biosimilar"@) && flag_ok(n@, "importacion_paralela"@) && flag_ok(n@, "radiofarmaco"@) && flag_ok(n@, "serializacion"@),
        r matches Ok(t) ==> {
            &&& t.0 == flag_of(n@, "sw_comercializado"@)
            &&& t.1 == flag_of(n@, "sw_tiene_excipientes_decl_obligatoria"@)
            &&& t.2 == flag_of(n@, "biosimilar"@)
            &&& t.3 == flag_of(n@, "importacion_paralela"@)
            &&& t.4 == flag_of(n@, "radiofarmaco"@)
            &&& t.5 == flag_of(n@, "serializacion"@)
        },
        r matches Err(e) ==> e == RecordError::MissingField || e == RecordError::InvalidFlag,
{
    let sw_comercializado = match read_flag(n, "sw_comercializado") {
        Ok(b) => b,
        Err(e) => {
            return Err(e);
        },
    };
    let sw_tiene_excipientes_decl_obligatoria = match read_flag(n, "sw_tiene_excipientes_decl_obligatoria") {
        Ok(b) => b,
        Err(e) => {
            return Err(e);
        },
    };
    let biosimilar = match read_flag(n, "biosimilar") {
        Ok(b) => b,
        Err(e) => {
            return Err(e);
        },
    };
    let importacion_paralela = match read_flag(n, "importacion_paralela") {
        Ok(b) => b,
        Err(e) => {
            return Err(e);
        },
    };
    let radiofarmaco = match read_flag(n, "radiofarmaco") {
        Ok(b) => b,
        Err(e) => {
            return Err(e);
        },
    };
    let serializacion = match read_flag(n, "serializacion") {
        Ok(b) => b,
        Err(e) => {
            return Err(e);
        },
    };
    Ok((sw_comercializado, sw_tiene_excipientes_decl_obligatoria, biosimilar, importacion_paralela, radiofarmaco, serializacion))
}

/// Reads the four required identifying texts of a prescription element.
fn read_required_ids(n: &XmlNode) -> (r: Result<(String, String, String, String), RecordError>)
    ensures
        r is Ok <==> child_text(n@, "cod_nacion"@) is Some && child_text(n@, "nro_definitivo"@)
            is Some && child_text(n@, "des_nomco"@) is Some && child_text(n@, "des_prese"@)
            is Some,
        r matches Ok(t) ==> {
            &&& t.0@ == child_text(n@, "cod_nacion"@)->0
            &&& t.1@ == child_text(n@, "nro_definitivo"@)->0
            &&& t.2@ == child_text(n@, "des_nomco"@)->0
            &&& t.3@ == child_text(n@, "des_prese"@)->0
        },
        r matches Err(e) ==> e == RecordError::MissingField,
{
    let cod_nacion = match find_child_text(n, "cod_nacion") {
        Some(t) => t,
        None => {
            return Err(RecordError::MissingField);
        },
    };
    let nro_definitivo = match find_child_text(n, "nro_definitivo") {
        Some(t) => t,
        None => {
            return Err(RecordError::MissingField);
        },
    };
    let des_nomco = match find_child_text(n, "des_nomco") {
        Some(t) => t,
        None => {
            return Err(RecordError::MissingField);
        },
    };
    let des_prese = match find_child_text(n, "des_prese") {
        Some(t) => t,
        None => {
            return Err(RecordError::MissingField);
        },
    };
    Ok((cod_nacion, nro_definitivo, des_nomco, des_prese))
}

impl ChildRecord for PrescriptionRecord {
    open spec fn node_ok(n: XmlTree) -> bool {
        &&& prescription_scalars_ok(n)
        &&& match child_named(n, "formasfarmaceuticas"@) {
            Some(f) => form_ok(f),
            None => true,
        }
        &&& all_ok::<PrescriptionAtc>(children_named(n, "atc"@))
        &&& all_ok::<SupplyProblem>(children_named(n, "problemassuministro"@))
    }

    open spec fn matches_node(n: XmlTree, rec: Self) -> bool {
        &&& prescription_scalars_match(n, rec)
        &&& match rec.forms {
            Some(f) => child_named(n, "formasfarmaceuticas"@) is Some && form_matches(
                child_named(n, "formasfarmaceuticas"@)->0,
                f,
            ),
            None => child_named(n, "formasfarmaceuticas"@) is None,
        }
        &&& lists_match::<PrescriptionAtc>(children_named(n, "atc"@), rec.atc_codes@)
        &&& lists_match::<SupplyProblem>(
            children_named(n, "problemassuministro"@),
            rec.supply_problems@,
        )
    }

    #[verifier::rlimit(60)]
    #[verifier::spinoff_prover]
    fn from_node(n: &XmlNode) -> (r: Result<Self, RecordError>) {
        let mut rec = match scalars_from_node(n) {
            Ok(v) => v,
            Err(e) => {
                return Err(e);
            },
        };
        rec.forms = match find_child(n, "formasfarmaceuticas") {
            Some(f) => match PrescriptionForm::from_node(f) {
                Ok(v) => Some(v),
                Err(e) => {
                    return Err(e);
                },
            },
            None => None,
        };
        rec.atc_codes = match children_records::<PrescriptionAtc>(n, "atc") {
            Ok(v) => v,
            Err(e) => {
                return Err(e);
            },
        };
        rec.supply_problems = match children_records::<SupplyProblem>(n, "problemassuministro") {
            Ok(v) => v,
            Err(e) => {
                return Err(e);
            },
        };
        Ok(rec)
    }
}

/// Reads the scalar fields of a prescription element into a record whose
/// owned sub-structures are still empty.
#[verifier::rlimit(100)]
#[verifier::spinoff_prover]
fn scalars_from_node(n: &XmlNode) -> (r: Result<PrescriptionRecord, RecordError>)
    ensures
        r is Ok <==> prescription_scalars_ok(n@),
        r matches Ok(rec) ==> prescription_scalars_match(n@, rec) && rec.forms is None
            && rec.atc_codes@.len() == 0 && rec.supply_problems@.len() == 0,
        r matches Err(e) ==> e == RecordError::MissingField || e == RecordError::InvalidFlag,
{
        let (cod_nacion, nro_definitivo, des_nomco, des_prese) = match read_required_ids(n) {
            Ok(t) => t,
            Err(e) => {
                return Err(e);
            },
        };
        let (sw_psicotropo, sw_estupefaciente, sw_afecta_conduccion, sw_triangulo_negro) =
            match read_flags_classification(n) {
            Ok(t) => t,
            Err(e) => {
                return Err(e);
            },
        };
        let (
            sw_receta,
            sw_generico,
            sw_sustituible,
            sw_envase_clinico,
            sw_uso_hospitalario,
            sw_diagnostico_hospitalario,
            sw_tld,
            sw_especial_control_medico,
            sw_huerfano,
            sw_base_a_plantas,
        ) = match read_flags_dispensing(n) {
            Ok(t) => t,
            Err(e) => {
                return Err(e);
            },
        };
        let (
            sw_comercializado,
            sw_tiene_excipientes_decl_obligatoria,
            biosimilar,
            importacion_paralela,
            radiofarmaco,
            serializacion,
        ) = match read_flags_status(n) {
            Ok(t) => t,
            Err(e) => {
                return Err(e);
            },
        };
        let cod_dcsa = find_child_text(n, "cod_dcsa");
        let cod_dcp = find_child_text(n, "cod_dcp");
        let cod_dcpf = find_child_text(n, "cod_dcpf");
        let des_dosific = find_child_text(n, "des_dosific");
        let cod_envase = find_child_text(n, "cod_envase");
        let contenido = find_child_text(n, "contenido");
        let unid_contenido = find_child_text(n, "unid_contenido");
        let nro_conte = find_child_text(n, "nro_conte");
        let url_fictec = find_child_text(n, "url_fictec");
        let url_prosp = find_child_text(n, "url_prosp");
        let laboratorio_titular = find_child_text(n, "laboratorio_titular");
        let laboratorio_comercializador = find_child_text(n, "laboratorio_comercializador");
        let fecha_autorizacion = find_child_text(n, "fecha_autorizacion");
        let fec_comer = find_child_text(n, "fec_comer");
        let cod_sitreg = find_child_text(n, "cod_sitreg");
        let cod_sitreg_presen = find_child_text(n, "cod_sitreg_presen");
        let fecha_situacion_registro = find_child_text(n, "fecha_situacion_registro");
        let fec_sitreg_presen = find_child_text(n, "fec_sitreg_presen");
        Ok(PrescriptionRecord {
            cod_nacion,
            nro_definitivo,
            des_nomco,
            des_prese,
            cod_dcsa,
            cod_dcp,
            cod_dcpf,
            des_dosific,
            cod_envase,
            contenido,
            unid_contenido,
            nro_conte,
            sw_psicotropo,
            sw_estupefaciente,
            sw_afecta_conduccion,
            sw_triangulo_negro,
            url_fictec,
            url_prosp,
            sw_receta,
            sw_generico,
            sw_sustituible,
            sw_envase_clinico,
            sw_uso_hospitalario,
            sw_diagnostico_hospitalario,
            sw_tld,
            sw_especial_control_medico,
            sw_huerfano,
            sw_base_a_plantas,
            laboratorio_titular,
            laboratorio_comercializador,
            fecha_autorizacion,
            sw_comercializado,
            fec_comer,
            cod_sitreg,
            cod_sitreg_presen,
            fecha_situacion_registro,
            fec_sitreg_presen,
            sw_tiene_excipientes_decl_obligatoria,
            biosimilar,
            importacion_paralela,
            radiofarmaco,
            serializacion,
            forms: None,
            atc_codes: Vec::new(),
            supply_problems: Vec::new(),
        })
}

/// The main-table CSV row of a prescription record: its scalar fields in
/// declaration order, flags as `true`/`false`, absent optionals as empty
/// cells. The owned sub-structures are not part of this row.
pub open spec fn main_row_of(rec: PrescriptionRecord) -> Seq<Seq<char>> {
    seq![
        rec.cod_nacion@,
        rec.nro_definitivo@,
        rec.des_nomco@,
        rec.des_prese@,
        opt_view(rec.cod_dcsa),
        opt_view(rec.cod_dcp),
        opt_view(rec.cod_dcpf),
        opt_view(rec.des_dosific),
        opt_view(rec.cod_envase),
        opt_view(rec.contenido),
        opt_view(rec.unid_contenido),
        opt_view(rec.nro_conte),
        bool_text(rec.sw_psicotropo),
        bool_text(rec.sw_estupefaciente),
        bool_text(rec.sw_afecta_conduccion),
        bool_text(rec.sw_triangulo_negro),
        opt_view(rec.url_fictec),
        opt_view(rec.url_prosp),
        bool_text(rec.sw_receta),
        bool_text(rec.sw_generico),
        bool_text(rec.sw_sustituible),
        bool_text(rec.sw_envase_clinico),
        bool_text(rec.sw_uso_hospitalario),
        bool_text(rec.sw_diagnostico_hospitalario),
        bool_text(rec.sw_tld),
        bool_text(rec.sw_especial_control_medico),
        bool_text(rec.sw_huerfano),
        bool_text(rec.sw_base_a_plantas),
        opt_view(rec.laboratorio_titular),
        opt_view(rec.laboratorio_comercializador),
        opt_view(rec.fecha_autorizacion),
        bool_text(rec.sw_comercializado),
        opt_view(rec.fec_comer),
        opt_view(rec.cod_sitreg),
        opt_view(rec.cod_sitreg_presen),
        opt_view(rec.fecha_situacion_registro),
        opt_view(rec.fec_sitreg_presen),
        bool_text(rec.sw_tiene_excipientes_decl_obligatoria),
        bool_text(rec.biosimilar),
        bool_text(rec.importacion_paralela),
        bool_text(rec.radiofarmaco),
        bool_text(rec.serializacion),
    ]
}

/// The main-table header cells.
pub open spec fn main_header_spec() -> Seq<Seq<char>> {
    seq![
        "cod_nacion"@,
        "nro_definitivo"@,
        "des_nomco"@,
        "des_prese"@,
        "cod_dcsa"@,
        "cod_dcp"@,
        "cod_dcpf"@,
        "des_dosific"@,
        "cod_envase"@,
        "contenido"@,
        "unid_contenido"@,
        "nro_conte"@,
        "sw_psicotropo"@,
        "sw_estupefaciente"@,
        "sw_afecta_conduccion"@,
        "sw_triangulo_negro"@,
        "url_fictec"@,
        "url_prosp"@,
        "sw_receta"@,
        "sw_generico"@,
        "sw_sustituible"@,
        "sw_envase_clinico"@,
        "sw_uso_hospitalario"@,
        "sw_diagnostico_hospitalario"@,
        "sw_tld"@,
        "sw_especial_control_medico"@,
        "sw_huerfano"@,
        "sw_base_a_plantas"@,
        "laboratorio_titular"@,
        "laboratorio_comercializador"@,
        "fecha_autorizacion"@,
        "sw_comercializado"@,
        "fec_comer"@,
        "cod_sitreg"@,
        "cod_sitreg_presen"@,
        "fecha_situacion_registro"@,
        "fec_sitreg_presen"@,
        "sw_tiene_excipientes_decl_obligatoria"@,
        "biosimilar"@,
        "importacion_paralela"@,
        "radiofarmaco"@,
        "serializacion"@,
    ]
}


/// Appends every string of `src` to `dst`.
fn append_strings(dst: &mut Vec<String>, src: Vec<String>)
    ensures
        final(dst)@ == old(dst)@ + src@,
{
    let mut src = src;
    let mut i: usize = 0;
    let ghost all = src@;
    while i < src.len()
        invariant
            0 <= i <= all.len(),
            src@ == all,
            dst@ == old(dst)@ + all.subrange(0, i as int),
        decreases src.len() - i,
    {
        let item = src[i].clone();
        dst.push(item);
        i = i + 1;
        assert(dst@ =~= old(dst)@ + all.subrange(0, i as int));
    }
    assert(dst@ =~= old(dst)@ + all);
}

impl PrescriptionRecord {
    /// The main-table CSV cells of this record.
    #[verifier::rlimit(100)]
    #[verifier::spinoff_prover]
    pub fn fields(&self) -> (r: Vec<String>)
        ensures
            views_of(r@) == main_row_of(*self),
    {
        let mut r = self.fields_identity();
        let ghost s1 = r@;
        let seg_b = self.fields_classification();
        let ghost bv = seg_b@;
        append_strings(&mut r, seg_b);
        let seg_c = self.fields_dispensing();
        let ghost cv = seg_c@;
        append_strings(&mut r, seg_c);
        let seg_d = self.fields_status();
        let ghost dv = seg_d@;
        append_strings(&mut r, seg_d);
        proof {
            crate::csvfmt::lemma_views_of_concat(s1, bv);
            crate::csvfmt::lemma_views_of_concat(s1 + bv, cv);
            crate::csvfmt::lemma_views_of_concat(s1 + bv + cv, dv);
        }
        assert(views_of(r@) =~= main_row_of(*self));
        r
    }

    /// The identifying and packaging cells of the main row.
    fn fields_identity(&self) -> (r: Vec<String>)
        ensures
            views_of(r@) == seq![
                self.cod_nacion@,
            self.nro_definitivo@,
            self.des_nomco@,
            self.des_prese@,
            opt_view(self.cod_dcsa),
            opt_view(self.cod_dcp),
            opt_view(self.cod_dcpf),
            opt_view(self.des_dosific),
            opt_view(self.cod_envase),
            opt_view(self.contenido),
            opt_view(self.unid_contenido),
            opt_view(self.nro_conte),
            ],
    {
        let mut r: Vec<String> = Vec::new();
        r.push(self.cod_nacion.clone());
        r.push(self.nro_definitivo.clone());
        r.push(self.des_nomco.clone());
        r.push(self.des_prese.clone());
        r.push(clone_or_empty(&self.cod_dcsa));
        r.push(clone_or_empty(&self.cod_dcp));
        r.push(clone_or_empty(&self.cod_dcpf));
        r.push(clone_or_empty(&self.des_dosific));
        r.push(clone_or_empty(&self.cod_envase));
        r.push(clone_or_empty(&self.contenido));
        r.push(clone_or_empty(&self.unid_contenido));
        r.push(clone_or_empty(&self.nro_conte));
        assert(views_of(r@) =~= seq![
            self.cod_nacion@,
            self.nro_definitivo@,
            self.des_nomco@,
            self.des_prese@,
            opt_view(self.cod_dcsa),
            opt_view(self.cod_dcp),
            opt_view(self.cod_dcpf),
            opt_view(self.des_dosific),
            opt_view(self.cod_envase),
            opt_view(self.contenido),
            opt_view(self.unid_contenido),
            opt_view(self.nro_conte),
        ]);
        r
    }

    /// The classification flag and document-link cells.
    fn fields_classification(&self) -> (r: Vec<String>)
        ensures
            views_of(r@) == seq![
                bool_text(self.sw_psicotropo),
            bool_text(self.sw_estupefaciente),
            bool_text(self.sw_afecta_conduccion),
            bool_text(self.sw_triangulo_negro),
            opt_view(self.url_fictec),
            opt_view(self.url_prosp),
            ],
    {
        let mut r: Vec<String> = Vec::new();
        r.push(bool_string(self.sw_psicotropo));
        r.push(bool_string(self.sw_estupefaciente));
        r.push(bool_string(self.sw_afecta_conduccion));
        r.push(bool_string(self.sw_triangulo_negro));
        r.push(clone_or_empty(&self.url_fictec));
        r.push(clone_or_empty(&self.url_prosp));
        assert(views_of(r@) =~= seq![
            bool_text(self.sw_psicotropo),
            bool_text(self.sw_estupefaciente),
            bool_text(self.sw_afecta_conduccion),
            bool_text(self.sw_triangulo_negro),
            opt_view(self.url_fictec),
            opt_view(self.url_prosp),
        ]);
        r
    }

    /// The dispensing flag cells.
    fn fields_dispensing(&self) -> (r: Vec<String>)
        ensures
            views_of(r@) == seq![
                bool_text(self.sw_receta),
            bool_text(self.sw_generico),
            bool_text(self.sw_sustituible),
            bool_text(self.sw_envase_clinico),
            bool_text(self.sw_uso_hospitalario),
            bool_text(self.sw_diagnostico_hospitalario),
            bool_text(self.sw_tld),
            bool_text(self.sw_especial_control_medico),
            bool_text(self.sw_huerfano),
            bool_text(self.sw_base_a_plantas),
            ],
    {
        let mut r: Vec<String> = Vec::new();
        r.push(bool_string(self.sw_receta));
        r.push(bool_string(self.sw_generico));
        r.push(bool_string(self.sw_sustituible));
        r.push(bool_string(self.sw_envase_clinico));
        r.push(bool_string(self.sw_uso_hospitalario));
        r.push(bool_string(self.sw_diagnostico_hospitalario));
        r.push(bool_string(self.sw_tld));
        r.push(bool_string(self.sw_especial_control_medico));
        r.push(bool_string(self.sw_huerfano));
        r.push(bool_string(self.sw_base_a_plantas));
        assert(views_of(r@) =~= seq![
            bool_text(self.sw_receta),
            bool_text(self.sw_generico),
            bool_text(self.sw_sustituible),
            bool_text(self.sw_envase_clinico),
            bool_text(self.sw_uso_hospitalario),
            bool_text(self.sw_diagnostico_hospitalario),
            bool_text(self.sw_tld),
            bool_text(self.sw_especial_control_medico),
            bool_text(self.sw_huerfano),
            bool_text(self.sw_base_a_plantas),
        ]);
        r
    }

    /// The laboratory, date and status cells.
    fn fields_status(&self) -> (r: Vec<String>)
        ensures
            views_of(r@) == seq![
                opt_view(self.laboratorio_titular),
            opt_view(self.laboratorio_comercializador),
            opt_view(self.fecha_autorizacion),
            bool_text(self.sw_comercializado),
            opt_view(self.fec_comer),
            opt_view(self.cod_sitreg),
            opt_view(self.cod_sitreg_presen),
            opt_view(self.fecha_situacion_registro),
            opt_view(self.fec_sitreg_presen),
            bool_text(self.sw_tiene_excipientes_decl_obligatoria),
            bool_text(self.biosimilar),
            bool_text(self.importacion_paralela),
            bool_text(self.radiofarmaco),
            bool_text(self.serializacion),
            ],
    {
        let mut r: Vec<String> = Vec::new();
        r.push(clone_or_empty(&self.laboratorio_titular));
        r.push(clone_or_empty(&self.laboratorio_comercializador));
        r.push(clone_or_empty(&self.fecha_autorizacion));
        r.push(bool_string(self.sw_comercializado));
        r.push(clone_or_empty(&self.fec_comer));
        r.push(clone_or_empty(&self.cod_sitreg));
        r.push(clone_or_empty(&self.cod_sitreg_presen));
        r.push(clone_or_empty(&self.fecha_situacion_registro));
        r.push(clone_or_empty(&self.fec_sitreg_presen));
        r.push(bool_string(self.sw_tiene_excipientes_decl_obligatoria));
        r.push(bool_string(self.biosimilar));
        r.push(bool_string(self.importacion_paralela));
        r.push(bool_string(self.radiofarmaco));
        r.push(bool_string(self.serializacion));
        assert(views_of(r@) =~= seq![
            opt_view(self.laboratorio_titular),
            opt_view(self.laboratorio_comercializador),
            opt_view(self.fecha_autorizacion),
            bool_text(self.sw_comercializado),
            opt_view(self.fec_comer),
            opt_view(self.cod_sitreg),
            opt_view(self.cod_sitreg_presen),
            opt_view(self.fecha_situacion_registro),
            opt_view(self.fec_sitreg_presen),
            bool_text(self.sw_tiene_excipientes_decl_obligatoria),
            bool_text(self.biosimilar),
            bool_text(self.importacion_paralela),
            bool_text(self.radiofarmaco),
            bool_text(self.serializacion),
        ]);
        r
    }

    /// The main-table header row.
    pub fn header() -> (r: Vec<String>)
        ensures
            views_of(r@) == main_header_spec(),
    {
        let mut r: Vec<String> = Vec::new();
        r.push(String::from_str("cod_nacion"));
        r.push(String::from_str("nro_definitivo"));
        r.push(String::from_str("des_nomco"));
        r.push(String::from_str("des_prese"));
        r.push(String::from_str("cod_dcsa"));
        r.push(String::from_str("cod_dcp"));
        r.push(String::from_str("cod_dcpf"));
        r.push(String::from_str("des_dosific"));
        r.push(String::from_str("cod_envase"));
        r.push(String::from_str("contenido"));
        r.push(String::from_str("unid_contenido"));
        r.push(String::from_str("nro_conte"));
        r.push(String::from_str("sw_psicotropo"));
        r.push(String::from_str("sw_estupefaciente"));
        r.push(String::from_str("sw_afecta_conduccion"));
        r.push(String::from_str("sw_triangulo_negro"));
        r.push(String::from_str("url_fictec"));
        r.push(String::from_str("url_prosp"));
        r.push(String::from_str("sw_receta"));
        r.push(String::from_str("sw_generico"));
        r.push(String::from_str("sw_sustituible"));
        r.push(String::from_str("sw_envase_clinico"));
        r.push(String::from_str("sw_uso_hospitalario"));
        r.push(String::from_str("sw_diagnostico_hospitalario"));
        r.push(String::from_str("sw_tld"));
        r.push(String::from_str("sw_especial_control_medico"));
        r.push(String::from_str("sw_huerfano"));
        r.push(String::from_str("sw_base_a_plantas"));
        r.push(String::from_str("laboratorio_titular"));
        r.push(String::from_str("laboratorio_comercializador"));
        r.push(String::from_str("fecha_autorizacion"));
        r.push(String::from_str("sw_comercializado"));
        r.push(String::from_str("fec_comer"));
        r.push(String::from_str("cod_sitreg"));
        r.push(String::from_str("cod_sitreg_presen"));
        r.push(String::from_str("fecha_situacion_registro"));
        r.push(String::from_str("fec_sitreg_presen"));
        r.push(String::from_str("sw_tiene_excipientes_decl_obligatoria"));
        r.push(String::from_str("biosimilar"));
        r.push(String::from_str("importacion_paralela"));
        r.push(String::from_str("radiofarmaco"));
        r.push(String::from_str("serializacion"));
        assert(views_of(r@) =~= main_header_spec());
        r
    }
}

// ---------------------------------------------------------------------------
// The seven-table fan-out.
// ---------------------------------------------------------------------------

/// The forms-table row of one record's pharmaceutical form, keyed by the
/// national code.
pub open spec fn form_row(key: Seq<char>, f: PrescriptionForm) -> Seq<Seq<char>> {
    seq![key, f.form_code@, f.simplified_form_code@, opt_view(f.num_active_ingredients)]
}

/// The active-ingredients-table row of one composition, keyed by the
/// national code.
pub open spec fn ai_row(key: Seq<char>, a: ActiveIngredient) -> Seq<Seq<char>> {
    seq![
        key,
        opt_view(a.active_ingredient_code),
        opt_view(a.order),
        opt_view(a.dose),
        opt_view(a.dose_unit),
        opt_view(a.composition_dose),
        opt_view(a.composition_unit),
        opt_view(a.administration_dose),
        opt_view(a.administration_unit),
        opt_view(a.prescription_dose),
        opt_view(a.prescription_unit),
    ]
}

/// The routes-table row of one administration route.
pub open spec fn route_row(key: Seq<char>, rt: AdminRoute) -> Seq<Seq<char>> {
    seq![key, rt.route_code@]
}

/// The ATC-table row of one assignment.
pub open spec fn atc_row(key: Seq<char>, a: PrescriptionAtc) -> Seq<Seq<char>> {
    seq![key, a.atc_code@]
}

/// The duplicates-table row of one warning, keyed by the national code and
/// the parent ATC code.
pub open spec fn dup_row(key: Seq<char>, atc_code: Seq<char>, d: AtcDuplicate) -> Seq<Seq<char>> {
    seq![
        key,
        atc_code,
        d.duplicate_atc@,
        opt_view(d.description),
        opt_view(d.effect),
        opt_view(d.recommendation),
    ]
}

/// The supply-problems-table row of one shortage record.
pub open spec fn supply_row(key: Seq<char>, sp: SupplyProblem) -> Seq<Seq<char>> {
    seq![key, opt_view(sp.start_date), opt_view(sp.observations)]
}

/// The main-table rows of a record sequence, in order.
pub open spec fn main_rows(rs: Seq<PrescriptionRecord>) -> Seq<Seq<Seq<char>>> {
    rs.map_values(|rec: PrescriptionRecord| main_row_of(rec))
}

/// The forms-table rows contributed by one record: one row when it has a
/// pharmaceutical form, none otherwise.
pub open spec fn form_rows_one(rec: PrescriptionRecord) -> Seq<Seq<Seq<char>>> {
    match rec.forms {
        Some(f) => seq![form_row(rec.cod_nacion@, f)],
        None => Seq::empty(),
    }
}

/// The active-ingredient rows contributed by one record, in document order.
pub open spec fn ai_rows_one(rec: PrescriptionRecord) -> Seq<Seq<Seq<char>>> {
    match rec.forms {
        Some(f) => f.active_ingredients@.map_values(
            |a: ActiveIngredient| ai_row(rec.cod_nacion@, a),
        ),
        None => Seq::empty(),
    }
}

/// The administration-route rows contributed by one record.
pub open spec fn route_rows_one(rec: PrescriptionRecord) -> Seq<Seq<Seq<char>>> {
    match rec.forms {
        Some(f) => f.admin_routes@.map_values(|rt: AdminRoute| route_row(rec.cod_nacion@, rt)),
        None => Seq::empty(),
    }
}

/// The ATC rows contributed by one record.
pub open spec fn atc_rows_one(rec: PrescriptionRecord) -> Seq<Seq<Seq<char>>> {
    rec.atc_codes@.map_values(|a: PrescriptionAtc| atc_row(rec.cod_nacion@, a))
}

/// The duplicate-warning rows of the assignments from position `j` on: a
/// duplicate that appears under two assignments is written twice.
pub open spec fn dup_rows_of_atcs(key: Seq<char>, atcs: Seq<PrescriptionAtc>, j: int) -> Seq<
    Seq<Seq<char>>,
>
    decreases atcs.len() - j,
{
    if j < 0 || j >= atcs.len() {
        Seq::empty()
    } else {
        atcs[j].duplicates@.map_values(|d: AtcDuplicate| dup_row(key, atcs[j].atc_code@, d))
            + dup_rows_of_atcs(key, atcs, j + 1)
    }
}

/// The duplicate-warning rows contributed by one record.
pub open spec fn dup_rows_one(rec: PrescriptionRecord) -> Seq<Seq<Seq<char>>> {
    dup_rows_of_atcs(rec.cod_nacion@, rec.atc_codes@, 0)
}

/// The supply-problem rows contributed by one record.
pub open spec fn supply_rows_one(rec: PrescriptionRecord) -> Seq<Seq<Seq<char>>> {
    rec.supply_problems@.map_values(|sp: SupplyProblem| supply_row(rec.cod_nacion@, sp))
}

/// The rows of one child table for the records from position `i` on.
pub open spec fn table_rows_from(
    rs: Seq<PrescriptionRecord>,
    i: int,
    one: spec_fn(PrescriptionRecord) -> Seq<Seq<Seq<char>>>,
) -> Seq<Seq<Seq<char>>>
    decreases rs.len() - i,
{
    if i < 0 || i >= rs.len() {
        Seq::empty()
    } else {
        one(rs[i]) + table_rows_from(rs, i + 1, one)
    }
}

/// The seven CSV tables produced from one prescription file: the main flat
/// table and the six child tables keyed by the national code. Every table
/// opens with a header row of its column names.
#[derive(Debug)]
pub struct PrescriptionTables {
    pub prescriptions: String,
    pub forms: String,
    pub active_ingredients: String,
    pub admin_routes: String,
    pub atc: String,
    pub atc_duplicates: String,
    pub supply_problems: String,
}


/// The header cells of the forms table.
pub open spec fn form_table_header() -> Seq<Seq<char>> {
    seq!["cod_nacion"@, "form_code"@, "simplified_form_code"@, "num_active_ingredients"@]
}

/// The header cells of the active-ingredients table.
pub open spec fn ai_table_header() -> Seq<Seq<char>> {
    seq![
        "cod_nacion"@,
        "active_ingredient_code"@,
        "order"@,
        "dose"@,
        "dose_unit"@,
        "composition_dose"@,
        "composition_unit"@,
        "administration_dose"@,
        "administration_unit"@,
        "prescription_dose"@,
        "prescription_unit"@,
    ]
}

/// The header cells of the administration-routes table.
pub open spec fn route_table_header() -> Seq<Seq<char>> {
    seq!["cod_nacion"@, "route_code"@]
}

/// The header cells of the ATC table.
pub open spec fn atc_table_header() -> Seq<Seq<char>> {
    seq!["cod_nacion"@, "atc_code"@]
}

/// The header cells of the ATC-duplicates table.
pub open spec fn dup_table_header() -> Seq<Seq<char>> {
    seq!["cod_nacion"@, "atc_code"@, "duplicate_atc"@, "description"@, "effect"@,
        "recommendation"@]
}

/// The header cells of the supply-problems table.
pub open spec fn supply_table_header() -> Seq<Seq<char>> {
    seq!["cod_nacion"@, "start_date"@, "observations"@]
}

/// The forms-table header row.
fn form_header() -> (r: Vec<String>)
    ensures
        views_of(r@) == form_table_header(),
{
    let mut r: Vec<String> = Vec::new();
    r.push(String::from_str("cod_nacion"));
    r.push(String::from_str("form_code"));
    r.push(String::from_str("simplified_form_code"));
    r.push(String::from_str("num_active_ingredients"));
    assert(views_of(r@) =~= form_table_header());
    r
}

/// The active-ingredients-table header row.
fn ai_header() -> (r: Vec<String>)
    ensures
        views_of(r@) == ai_table_header(),
{
    let mut r: Vec<String> = Vec::new();
    r.push(String::from_str("cod_nacion"));
    r.push(String::from_str("active_ingredient_code"));
    r.push(String::from_str("order"));
    r.push(String::from_str("dose"));
    r.push(String::from_str("dose_unit"));
    r.push(String::from_str("composition_dose"));
    r.push(String::from_str("composition_unit"));
    r.push(String::from_str("administration_dose"));
    r.push(String::from_str("administration_unit"));
    r.push(String::from_str("prescription_dose"));
    r.push(String::from_str("prescription_unit"));
    assert(views_of(r@) =~= ai_table_header());
    r
}

/// The administration-routes-table header row.
fn route_header() -> (r: Vec<String>)
    ensures
        views_of(r@) == route_table_header(),
{
    let mut r: Vec<String> = Vec::new();
    r.push(String::from_str("cod_nacion"));
    r.push(String::from_str("route_code"));
    assert(views_of(r@) =~= route_table_header());
    r
}

/// The ATC-table header row.
fn atc_header() -> (r: Vec<String>)
    ensures
        views_of(r@) == atc_table_header(),
{
    let mut r: Vec<String> = Vec::new();
    r.push(String::from_str("cod_nacion"));
    r.push(String::from_str("atc_code"));
    assert(views_of(r@) =~= atc_table_header());
    r
}

/// The ATC-duplicates-table header row.
fn dup_header() -> (r: Vec<String>)
    ensures
        views_of(r@) == dup_table_header(),
{
    let mut r: Vec<String> = Vec::new();
    r.push(String::from_str("cod_nacion"));
    r.push(String::from_str("atc_code"));
    r.push(String::from_str("duplicate_atc"));
    r.push(String::from_str("description"));
    r.push(String::from_str("effect"));
    r.push(String::from_str("recommendation"));
    assert(views_of(r@) =~= dup_table_header());
    r
}

/// The supply-problems-table header row.
fn supply_header() -> (r: Vec<String>)
    ensures
        views_of(r@) == supply_table_header(),
{
    let mut r: Vec<String> = Vec::new();
    r.push(String::from_str("cod_nacion"));
    r.push(String::from_str("start_date"));
    r.push(String::from_str("observations"));
    assert(views_of(r@) =~= supply_table_header());
    r
}

/// Appends one record's main-table row.
fn push_main_row(out: &mut Vec<Vec<String>>, rec: &PrescriptionRecord)
    ensures
        table_views(final(out)@) =~= table_views(old(out)@) + seq![main_row_of(*rec)],
{
    let row = rec.fields();
    let ghost rowg = row;
    let ghost pre = out@;
    out.push(row);
    proof {
        crate::csvfmt::lemma_table_views_push(pre, rowg);
    }
}

/// Appends one record's forms-table row, when it has a form.
fn push_form_rows(out: &mut Vec<Vec<String>>, rec: &PrescriptionRecord)
    ensures
        table_views(final(out)@) =~= table_views(old(out)@) + form_rows_one(*rec),
{
    match &rec.forms {
        Some(f) => {
            let mut row: Vec<String> = Vec::new();
            row.push(rec.cod_nacion.clone());
            row.push(f.form_code.clone());
            row.push(f.simplified_form_code.clone());
            row.push(clone_or_empty(&f.num_active_ingredients));
            assert(views_of(row@) =~= form_row(rec.cod_nacion@, *f));
            let ghost rowg = row;
            let ghost pre = out@;
            out.push(row);
            proof {
                crate::csvfmt::lemma_table_views_push(pre, rowg);
            }
        },
        None => {},
    }
}

/// Appends one record's active-ingredient rows, in document order.
fn push_ai_rows(out: &mut Vec<Vec<String>>, rec: &PrescriptionRecord)
    ensures
        table_views(final(out)@) =~= table_views(old(out)@) + ai_rows_one(*rec),
{
    match &rec.forms {
        Some(f) => {
            let ghost base = table_views(out@);
            let ghost rows = ai_rows_one(*rec);
            let mut j: usize = 0;
            while j < f.active_ingredients.len()
                invariant
                    0 <= j <= f.active_ingredients@.len(),
                    rec.forms == Some(*f),
                    rows == ai_rows_one(*rec),
                    rows.len() == f.active_ingredients@.len(),
                    table_views(out@) =~= base + rows.subrange(0, j as int),
                decreases f.active_ingredients.len() - j,
            {
                let a = &f.active_ingredients[j];
                let mut row: Vec<String> = Vec::new();
                row.push(rec.cod_nacion.clone());
                row.push(clone_or_empty(&a.active_ingredient_code));
                row.push(clone_or_empty(&a.order));
                row.push(clone_or_empty(&a.dose));
                row.push(clone_or_empty(&a.dose_unit));
                row.push(clone_or_empty(&a.composition_dose));
                row.push(clone_or_empty(&a.composition_unit));
                row.push(clone_or_empty(&a.administration_dose));
                row.push(clone_or_empty(&a.administration_unit));
                row.push(clone_or_empty(&a.prescription_dose));
                row.push(clone_or_empty(&a.prescription_unit));
                assert(views_of(row@) =~= ai_row(rec.cod_nacion@, *a));
                let ghost rowg = row;
                let ghost pre = out@;
                out.push(row);
                proof {
                    crate::csvfmt::lemma_table_views_push(pre, rowg);
                    assert(rows[j as int] == ai_row(
                        rec.cod_nacion@,
                        f.active_ingredients@[j as int],
                    ));
                }
                j = j + 1;
                assert(table_views(out@) =~~= base + rows.subrange(0, j as int));
            }
            assert(rows.subrange(0, rows.len() as int) =~= rows);
        },
        None => {},
    }
}

/// Appends one record's administration-route rows.
fn push_route_rows(out: &mut Vec<Vec<String>>, rec: &PrescriptionRecord)
    ensures
        table_views(final(out)@) =~= table_views(old(out)@) + route_rows_one(*rec),
{
    match &rec.forms {
        Some(f) => {
            let ghost base = table_views(out@);
            let ghost rows = route_rows_one(*rec);
            let mut j: usize = 0;
            while j < f.admin_routes.len()
                invariant
                    0 <= j <= f.admin_routes@.len(),
                    rec.forms == Some(*f),
                    rows == route_rows_one(*rec),
                    rows.len() == f.admin_routes@.len(),
                    table_views(out@) =~= base + rows.subrange(0, j as int),
                decreases f.admin_routes.len() - j,
            {
                let rt = &f.admin_routes[j];
                let mut row: Vec<String> = Vec::new();
                row.push(rec.cod_nacion.clone());
                row.push(rt.route_code.clone());
                assert(views_of(row@) =~= route_row(rec.cod_nacion@, *rt));
                let ghost rowg = row;
                let ghost pre = out@;
                out.push(row);
                proof {
                    crate::csvfmt::lemma_table_views_push(pre, rowg);
                    assert(rows[j as int] == route_row(
                        rec.cod_nacion@,
                        f.admin_routes@[j as int],
                    ));
                }
                j = j + 1;
                assert(table_views(out@) =~~= base + rows.subrange(0, j as int));
            }
            assert(rows.subrange(0, rows.len() as int) =~= rows);
        },
        None => {},
    }
}

/// Appends one record's ATC rows.
fn push_atc_rows(out: &mut Vec<Vec<String>>, rec: &PrescriptionRecord)
    ensures
        table_views(final(out)@) =~= table_views(old(out)@) + atc_rows_one(*rec),
{
    let ghost base = table_views(out@);
    let ghost rows = atc_rows_one(*rec);
    let mut j: usize = 0;
    while j < rec.atc_codes.len()
        invariant
            0 <= j <= rec.atc_codes@.len(),
            rows == atc_rows_one(*rec),
            rows.len() == rec.atc_codes@.len(),
            table_views(out@) =~= base + rows.subrange(0, j as int),
        decreases rec.atc_codes.len() - j,
    {
        let a = &rec.atc_codes[j];
        let mut row: Vec<String> = Vec::new();
        row.push(rec.cod_nacion.clone());
        row.push(a.atc_code.clone());
        assert(views_of(row@) =~= atc_row(rec.cod_nacion@, *a));
        let ghost rowg = row;
        let ghost pre = out@;
        out.push(row);
        proof {
            crate::csvfmt::lemma_table_views_push(pre, rowg);
            assert(rows[j as int] == atc_row(rec.cod_nacion@, rec.atc_codes@[j as int]));
        }
        j = j + 1;
        assert(table_views(out@) =~~= base + rows.subrange(0, j as int));
    }
    assert(rows.subrange(0, rows.len() as int) =~= rows);
}

/// Appends one record's duplicate-warning rows: for each assignment, one row
/// per duplicate, keyed by the national code and the assignment's ATC code.
fn push_dup_rows(out: &mut Vec<Vec<String>>, rec: &PrescriptionRecord)
    ensures
        table_views(final(out)@) =~= table_views(old(out)@) + dup_rows_one(*rec),
{
    let ghost base = table_views(out@);
    let ghost key = rec.cod_nacion@;
    let ghost atcs = rec.atc_codes@;
    let mut j: usize = 0;
    while j < rec.atc_codes.len()
        invariant
            0 <= j <= atcs.len(),
            atcs == rec.atc_codes@,
            key == rec.cod_nacion@,
            dup_rows_of_atcs(key, atcs, 0) =~= table_views(out@).skip(base.len() as int)
                + dup_rows_of_atcs(key, atcs, j as int),
            table_views(out@).len() >= base.len(),
            table_views(out@).take(base.len() as int) =~= base,
        decreases rec.atc_codes.len() - j,
    {
        let a = &rec.atc_codes[j];
        let ghost arows = a.duplicates@.map_values(
            |d: AtcDuplicate| dup_row(key, a.atc_code@, d),
        );
        let ghost mid = table_views(out@);
        let mut k: usize = 0;
        while k < a.duplicates.len()
            invariant
                0 <= k <= a.duplicates@.len(),
                key == rec.cod_nacion@,
                arows == a.duplicates@.map_values(
                    |d: AtcDuplicate| dup_row(key, a.atc_code@, d),
                ),
                arows.len() == a.duplicates@.len(),
                table_views(out@) =~= mid + arows.subrange(0, k as int),
            decreases a.duplicates.len() - k,
        {
            let d = &a.duplicates[k];
            let mut row: Vec<String> = Vec::new();
            row.push(rec.cod_nacion.clone());
            row.push(a.atc_code.clone());
            row.push(d.duplicate_atc.clone());
            row.push(clone_or_empty(&d.description));
            row.push(clone_or_empty(&d.effect));
            row.push(clone_or_empty(&d.recommendation));
            assert(views_of(row@) =~= dup_row(key, a.atc_code@, *d));
            let ghost rowg = row;
            let ghost pre = out@;
            out.push(row);
            proof {
                crate::csvfmt::lemma_table_views_push(pre, rowg);
                assert(arows[k as int] == dup_row(key, a.atc_code@, a.duplicates@[k as int]));
            }
            k = k + 1;
            assert(table_views(out@) =~~= mid + arows.subrange(0, k as int));
        }
        assert(arows.subrange(0, arows.len() as int) =~= arows);
        proof {
            assert(dup_rows_of_atcs(key, atcs, j as int) == arows + dup_rows_of_atcs(
                key,
                atcs,
                j as int + 1,
            ));
        }
        j = j + 1;
        assert(dup_rows_of_atcs(key, atcs, 0) =~= table_views(out@).skip(base.len() as int)
            + dup_rows_of_atcs(key, atcs, j as int));
        assert(table_views(out@).take(base.len() as int) =~= base);
    }
    assert(table_views(out@) =~= base + dup_rows_one(*rec));
}

/// Appends one record's supply-problem rows.
fn push_supply_rows(out: &mut Vec<Vec<String>>, rec: &PrescriptionRecord)
    ensures
        table_views(final(out)@) =~= table_views(old(out)@) + supply_rows_one(*rec),
{
    let ghost base = table_views(out@);
    let ghost rows = supply_rows_one(*rec);
    let mut j: usize = 0;
    while j < rec.supply_problems.len()
        invariant
            0 <= j <= rec.supply_problems@.len(),
            rows == supply_rows_one(*rec),
            rows.len() == rec.supply_problems@.len(),
            table_views(out@) =~= base + rows.subrange(0, j as int),
        decreases rec.supply_problems.len() - j,
    {
        let sp = &rec.supply_problems[j];
        let mut row: Vec<String> = Vec::new();
        row.push(rec.cod_nacion.clone());
        row.push(clone_or_empty(&sp.start_date));
        row.push(clone_or_empty(&sp.observations));
        assert(views_of(row@) =~= supply_row(rec.cod_nacion@, *sp));
        let ghost rowg = row;
        let ghost pre = out@;
        out.push(row);
        proof {
            crate::csvfmt::lemma_table_views_push(pre, rowg);
            assert(rows[j as int] == supply_row(
                rec.cod_nacion@,
                rec.supply_problems@[j as int],
            ));
        }
        j = j + 1;
        assert(table_views(out@) =~~= base + rows.subrange(0, j as int));
    }
    assert(rows.subrange(0, rows.len() as int) =~= rows);
}

/// Renders the main prescription table alone: a header row and one row per
/// record; an empty record list yields an empty table.
pub fn main_csv_of_records(records: &Vec<PrescriptionRecord>) -> (r: String)
    ensures
        r@ == crate::catalog::catalog_csv(main_header_spec(), main_rows(records@)),
{
    if records.len() == 0 {
        return String::new();
    }
    let mut rows: Vec<Vec<String>> = Vec::new();
    rows.push(PrescriptionRecord::header());
    let mut i: usize = 0;
    while i < records.len()
        invariant
            0 <= i <= records@.len(),
            rows@.len() == i + 1,
            views_of(rows@[0]@) == main_header_spec(),
            forall|k: int|
                0 <= k < i ==> views_of(#[trigger] rows@[k + 1]@) == main_row_of(records@[k]),
        decreases records.len() - i,
    {
        let row = records[i].fields();
        rows.push(row);
        i = i + 1;
    }
    let csv = csv_table_string(&rows);
    proof {
        let tv = table_views(rows@);
        let expected = seq![main_header_spec()] + main_rows(records@);
        assert forall|k: int| 0 <= k < tv.len() implies tv[k] == expected[k] by {
            if k > 0 {
                let j = k - 1;
                assert(views_of(rows@[j + 1]@) == main_row_of(records@[j]));
            }
        }
        assert(tv =~= expected);
    }
    csv
}

/// Fans a record list out into the seven tables in one pass, in document
/// order: the main table and each of the six child tables open with a header
/// row of their column names, and every child row is keyed by the national
/// code.
pub fn decompose_prescriptions(records: &Vec<PrescriptionRecord>) -> (t: PrescriptionTables)
    ensures
        t.prescriptions@ == crate::catalog::catalog_csv(main_header_spec(), main_rows(records@)),
        t.forms@ == csv_table(
            seq![form_table_header()] + table_rows_from(records@, 0, |rec| form_rows_one(rec)),
        ),
        t.active_ingredients@ == csv_table(
            seq![ai_table_header()] + table_rows_from(records@, 0, |rec| ai_rows_one(rec)),
        ),
        t.admin_routes@ == csv_table(
            seq![route_table_header()] + table_rows_from(records@, 0, |rec| route_rows_one(rec)),
        ),
        t.atc@ == csv_table(
            seq![atc_table_header()] + table_rows_from(records@, 0, |rec| atc_rows_one(rec)),
        ),
        t.atc_duplicates@ == csv_table(
            seq![dup_table_header()] + table_rows_from(records@, 0, |rec| dup_rows_one(rec)),
        ),
        t.supply_problems@ == csv_table(
            seq![supply_table_header()] + table_rows_from(
                records@,
                0,
                |rec| supply_rows_one(rec),
            ),
        ),
{
    let ghost rs = records@;
    let mut forms_rows: Vec<Vec<String>> = Vec::new();
    forms_rows.push(form_header());
    assert(table_views(forms_rows@) =~= seq![form_table_header()]);
    let mut ai_rows_v: Vec<Vec<String>> = Vec::new();
    ai_rows_v.push(ai_header());
    assert(table_views(ai_rows_v@) =~= seq![ai_table_header()]);
    let mut route_rows_v: Vec<Vec<String>> = Vec::new();
    route_rows_v.push(route_header());
    assert(table_views(route_rows_v@) =~= seq![route_table_header()]);
    let mut atc_rows_v: Vec<Vec<String>> = Vec::new();
    atc_rows_v.push(atc_header());
    assert(table_views(atc_rows_v@) =~= seq![atc_table_header()]);
    let mut dup_rows_v: Vec<Vec<String>> = Vec::new();
    dup_rows_v.push(dup_header());
    assert(table_views(dup_rows_v@) =~= seq![dup_table_header()]);
    let mut supply_rows_v: Vec<Vec<String>> = Vec::new();
    supply_rows_v.push(supply_header());
    assert(table_views(supply_rows_v@) =~= seq![supply_table_header()]);
    let mut i: usize = 0;
    while i < records.len()
        invariant
            0 <= i <= rs.len(),
            rs == records@,
            seq![form_table_header()] + table_rows_from(rs, 0, |rec| form_rows_one(rec))
                =~= table_views(forms_rows@) + table_rows_from(
                rs,
                i as int,
                |rec| form_rows_one(rec),
            ),
            seq![ai_table_header()] + table_rows_from(rs, 0, |rec| ai_rows_one(rec))
                =~= table_views(ai_rows_v@) + table_rows_from(rs, i as int, |rec| ai_rows_one(rec)),
            seq![route_table_header()] + table_rows_from(rs, 0, |rec| route_rows_one(rec))
                =~= table_views(route_rows_v@) + table_rows_from(
                rs,
                i as int,
                |rec| route_rows_one(rec),
            ),
            seq![atc_table_header()] + table_rows_from(rs, 0, |rec| atc_rows_one(rec))
                =~= table_views(atc_rows_v@) + table_rows_from(
                rs,
                i as int,
                |rec| atc_rows_one(rec),
            ),
            seq![dup_table_header()] + table_rows_from(rs, 0, |rec| dup_rows_one(rec))
                =~= table_views(dup_rows_v@) + table_rows_from(
                rs,
                i as int,
                |rec| dup_rows_one(rec),
            ),
            seq![supply_table_header()] + table_rows_from(rs, 0, |rec| supply_rows_one(rec))
                =~= table_views(supply_rows_v@) + table_rows_from(
                rs,
                i as int,
                |rec| supply_rows_one(rec),
            ),
        decreases records.len() - i,
    {
        let rec = &records[i];
        push_form_rows(&mut forms_rows, rec);
        push_ai_rows(&mut ai_rows_v, rec);
        push_route_rows(&mut route_rows_v, rec);
        push_atc_rows(&mut atc_rows_v, rec);
        push_dup_rows(&mut dup_rows_v, rec);
        push_supply_rows(&mut supply_rows_v, rec);
        proof {
            assert(table_rows_from(rs, i as int, |rec| form_rows_one(rec)) == form_rows_one(
                rs[i as int],
            ) + table_rows_from(rs, i as int + 1, |rec| form_rows_one(rec)));
            assert(table_rows_from(rs, i as int, |rec| ai_rows_one(rec)) == ai_rows_one(
                rs[i as int],
            ) + table_rows_from(rs, i as int + 1, |rec| ai_rows_one(rec)));
            assert(table_rows_from(rs, i as int, |rec| route_rows_one(rec)) == route_rows_one(
                rs[i as int],
            ) + table_rows_from(rs, i as int + 1, |rec| route_rows_one(rec)));
            assert(table_rows_from(rs, i as int, |rec| atc_rows_one(rec)) == atc_rows_one(
                rs[i as int],
            ) + table_rows_from(rs, i as int + 1, |rec| atc_rows_one(rec)));
            assert(table_rows_from(rs, i as int, |rec| dup_rows_one(rec)) == dup_rows_one(
                rs[i as int],
            ) + table_rows_from(rs, i as int + 1, |rec| dup_rows_one(rec)));
            assert(table_rows_from(rs, i as int, |rec| supply_rows_one(rec)) == supply_rows_one(
                rs[i as int],
            ) + table_rows_from(rs, i as int + 1, |rec| supply_rows_one(rec)));
        }
        i = i + 1;
    }
    let prescriptions = main_csv_of_records(records);
    let forms = csv_table_string(&forms_rows);
    let active_ingredients = csv_table_string(&ai_rows_v);
    let admin_routes = csv_table_string(&route_rows_v);
    let atc = csv_table_string(&atc_rows_v);
    let atc_duplicates = csv_table_string(&dup_rows_v);
    let supply_problems = csv_table_string(&supply_rows_v);
    PrescriptionTables {
        prescriptions,
        forms,
        active_ingredients,
        admin_routes,
        atc,
        atc_duplicates,
        supply_problems,
    }
}

/// The parsed prescription file: its optional header and its records in
/// document order.
pub struct PrescriptionList {
    pub header: Option<Header>,
    pub records: Vec<PrescriptionRecord>,
}

/// Whether the optional header element is readable: absent, or present with
/// its date.
pub open spec fn header_elem_ok(root: XmlTree) -> bool {
    match child_named(root, "header"@) {
        Some(h) => child_text(h, "listprescriptiondate"@) is Some,
        None => true,
    }
}

/// Whether `h` is exactly the header read from the document.
pub open spec fn header_matches(root: XmlTree, h: Option<Header>) -> bool {
    match h {
        Some(hh) => child_named(root, "header"@) is Some && child_text(
            child_named(root, "header"@)->0,
            "listprescriptiondate"@,
        ) == Some(hh.listprescriptiondate@),
        None => child_named(root, "header"@) is None,
    }
}

/// Whether the whole document is readable: the header, at least one
/// `prescription` element, and every one of them.
pub open spec fn list_ok(root: XmlTree) -> bool {
    &&& header_elem_ok(root)
    &&& children_named(root, "prescription"@).len() > 0
    &&& all_ok::<PrescriptionRecord>(children_named(root, "prescription"@))
}

/// Reads the whole prescription document: the optional header and every
/// `prescription` element, in document order. A document without a single
/// `prescription` element is a schema error; the first unreadable element
/// fails the whole document.
pub fn prescription_list_from_document(root: &XmlNode) -> (r: Result<
    PrescriptionList,
    RecordError,
>)
    ensures
        r is Ok <==> list_ok(root@),
        r matches Ok(l) ==> header_matches(root@, l.header) && lists_match::<PrescriptionRecord>(
            children_named(root@, "prescription"@),
            l.records@,
        ),
        (r is Err && r->Err_0 == RecordError::MissingList) ==> children_named(root@, "prescription"@).len() == 0,
        r matches Err(e) ==> e == RecordError::MissingField || e == RecordError::InvalidFlag || e
            == RecordError::MissingList,
{
    let header = match find_child(root, "header") {
        Some(h) => match find_child_text(h, "listprescriptiondate") {
            Some(t) => Some(Header { listprescriptiondate: t }),
            None => {
                return Err(RecordError::MissingField);
            },
        },
        None => None,
    };
    let records = match children_records::<PrescriptionRecord>(root, "prescription") {
        Ok(v) => v,
        Err(e) => {
            return Err(e);
        },
    };
    if records.len() == 0 {
        return Err(RecordError::MissingList);
    }
    Ok(PrescriptionList { header, records })
}

/// Renders the seven tables of a parsed prescription document. The tables
/// are exactly those of the record list read from the document.
pub fn prescription_tables_from_document(root: &XmlNode) -> (r: Result<
    PrescriptionTables,
    RecordError,
>)
    ensures
        r is Ok <==> list_ok(root@),
        r matches Ok(t) ==> exists|rs: Seq<PrescriptionRecord>|
            {
                &&& #[trigger] lists_match::<PrescriptionRecord>(
                    children_named(root@, "prescription"@),
                    rs,
                )
                &&& t.prescriptions@ == crate::catalog::catalog_csv(
                    main_header_spec(),
                    main_rows(rs),
                )
                &&& t.forms@ == csv_table(
                    seq![form_table_header()] + table_rows_from(rs, 0, |rec| form_rows_one(rec)),
                )
                &&& t.active_ingredients@ == csv_table(
                    seq![ai_table_header()] + table_rows_from(rs, 0, |rec| ai_rows_one(rec)),
                )
                &&& t.admin_routes@ == csv_table(
                    seq![route_table_header()] + table_rows_from(
                        rs,
                        0,
                        |rec| route_rows_one(rec),
                    ),
                )
                &&& t.atc@ == csv_table(
                    seq![atc_table_header()] + table_rows_from(rs, 0, |rec| atc_rows_one(rec)),
                )
                &&& t.atc_duplicates@ == csv_table(
                    seq![dup_table_header()] + table_rows_from(rs, 0, |rec| dup_rows_one(rec)),
                )
                &&& t.supply_problems@ == csv_table(
                    seq![supply_table_header()] + table_rows_from(
                        rs,
                        0,
                        |rec| supply_rows_one(rec),
                    ),
                )
            },
{
    let list = match prescription_list_from_document(root) {
        Ok(v) => v,
        Err(e) => {
            return Err(e);
        },
    };
    let tables = decompose_prescriptions(&list.records);
    proof {
        let rs = list.records@;
        assert(lists_match::<PrescriptionRecord>(children_named(root@, "prescription"@), rs));
    }
    Ok(tables)
}

/// Whether a prescription text converts: it parses as a document whose root
/// holds a readable header and at least one readable prescription element.
pub open spec fn prescription_text_ok(s: Seq<char>) -> bool {
    &&& spec_parse_document(s) is Ok
    &&& list_ok(spec_parse_document(s)->Ok_0)
}

/// What a prescription conversion error says of the input text: an XML error
/// is exactly the parse model's verdict; a record error means the document
/// parsed but its record list does not, with the missing-list error only for
/// a document without a single prescription element.
pub open spec fn prescription_err_ok(s: Seq<char>, e: ConvertError) -> bool {
    match e {
        ConvertError::Xml(xe) => spec_parse_document(s) == Err::<XmlTree, XmlError>(xe),
        ConvertError::Record(re) => {
            &&& spec_parse_document(s) is Ok
            &&& !list_ok(spec_parse_document(s)->Ok_0)
            &&& (re == RecordError::MissingList ==> children_named(
                spec_parse_document(s)->Ok_0,
                "prescription"@,
            ).len() == 0)
        },
    }
}

/// Parses the prescription XML text and renders the flat main table alone:
/// a header row and one row per record of the document the parse model
/// assigns to the text.
pub fn parse_prescription_xml_to_csv(xml: &str) -> (r: Result<String, ConvertError>)
    ensures
        r is Ok <==> prescription_text_ok(xml@),
        r matches Ok(csv) ==> exists|rs: Seq<PrescriptionRecord>|
            {
                &&& #[trigger] lists_match::<PrescriptionRecord>(
                    children_named(spec_parse_document(xml@)->Ok_0, "prescription"@),
                    rs,
                )
                &&& csv@ == crate::catalog::catalog_csv(main_header_spec(), main_rows(rs))
            },
        r matches Err(e) ==> prescription_err_ok(xml@, e),
{
    let root = match crate::xml::parse_document(xml) {
        Ok(v) => v,
        Err(e) => {
            return Err(ConvertError::Xml(e));
        },
    };
    let list = match prescription_list_from_document(&root) {
        Ok(v) => v,
        Err(e) => {
            return Err(ConvertError::Record(e));
        },
    };
    let csv = main_csv_of_records(&list.records);
    proof {
        let rs = list.records@;
        assert(lists_match::<PrescriptionRecord>(
            children_named(spec_parse_document(xml@)->Ok_0, "prescription"@),
            rs,
        ));
    }
    Ok(csv)
}

/// Parses the prescription XML text and fans it out into the seven tables.
/// The whole document must parse before any table is produced, and the
/// tables are exactly those of the record list the parse model assigns to
/// the text.
pub fn parse_prescription_xml_to_csvs(xml: &str) -> (r: Result<PrescriptionTables, ConvertError>)
    ensures
        r is Ok <==> prescription_text_ok(xml@),
        r matches Ok(t) ==> exists|rs: Seq<PrescriptionRecord>|
            {
                &&& #[trigger] lists_match::<PrescriptionRecord>(
                    children_named(spec_parse_document(xml@)->Ok_0, "prescription"@),
                    rs,
                )
                &&& t.prescriptions@ == crate::catalog::catalog_csv(
                    main_header_spec(),
                    main_rows(rs),
                )
                &&& t.forms@ == csv_table(
                    seq![form_table_header()] + table_rows_from(rs, 0, |rec| form_rows_one(rec)),
                )
                &&& t.active_ingredients@ == csv_table(
                    seq![ai_table_header()] + table_rows_from(rs, 0, |rec| ai_rows_one(rec)),
                )
                &&& t.admin_routes@ == csv_table(
                    seq![route_table_header()] + table_rows_from(
                        rs,
                        0,
                        |rec| route_rows_one(rec),
                    ),
                )
                &&& t.atc@ == csv_table(
                    seq![atc_table_header()] + table_rows_from(rs, 0, |rec| atc_rows_one(rec)),
                )
                &&& t.atc_duplicates@ == csv_table(
                    seq![dup_table_header()] + table_rows_from(rs, 0, |rec| dup_rows_one(rec)),
                )
                &&& t.supply_problems@ == csv_table(
                    seq![supply_table_header()] + table_rows_from(
                        rs,
                        0,
                        |rec| supply_rows_one(rec),
                    ),
                )
            },
        r matches Err(e) ==> prescription_err_ok(xml@, e),
{
    let root = match crate::xml::parse_document(xml) {
        Ok(v) => v,
        Err(e) => {
            return Err(ConvertError::Xml(e));
        },
    };
    let list = match prescription_list_from_document(&root) {
        Ok(v) => v,
        Err(e) => {
            return Err(ConvertError::Record(e));
        },
    };
    let tables = decompose_prescriptions(&list.records);
    proof {
        let rs = list.records@;
        assert(lists_match::<PrescriptionRecord>(
            children_named(spec_parse_document(xml@)->Ok_0, "prescription"@),
            rs,
        ));
    }
    Ok(tables)
}

/// How many records from position `i` on own a pharmaceutical form.
pub open spec fn forms_count_from(rs: Seq<PrescriptionRecord>, i: int) -> nat
    decreases rs.len() - i,
{
    if i < 0 || i >= rs.len() {
        0
    } else {
        (if rs[i].forms is Some {
            1nat
        } else {
            0nat
        }) + forms_count_from(rs, i + 1)
    }
}

/// The total number of ATC assignments of the records from position `i` on.
pub open spec fn atc_count_from(rs: Seq<PrescriptionRecord>, i: int) -> nat
    decreases rs.len() - i,
{
    if i < 0 || i >= rs.len() {
        0
    } else {
        rs[i].atc_codes@.len() + atc_count_from(rs, i + 1)
    }
}

/// The fan-out writes one main row per record, one forms row per record
/// that owns a pharmaceutical form, and one ATC row per assignment.
pub proof fn lemma_fan_out_row_counts(rs: Seq<PrescriptionRecord>)
    ensures
        main_rows(rs).len() == rs.len(),
        table_rows_from(rs, 0, |rec| form_rows_one(rec)).len() == forms_count_from(rs, 0),
        table_rows_from(rs, 0, |rec| atc_rows_one(rec)).len() == atc_count_from(rs, 0),
{
    lemma_form_rows_count_from(rs, 0);
    lemma_atc_rows_count_from(rs, 0);
}

/// The forms table from position `i` has one row per record with a form.
proof fn lemma_form_rows_count_from(rs: Seq<PrescriptionRecord>, i: int)
    ensures
        table_rows_from(rs, i, |rec| form_rows_one(rec)).len() == forms_count_from(rs, i),
    decreases rs.len() - i,
{
    if 0 <= i < rs.len() {
        lemma_form_rows_count_from(rs, i + 1);
    }
}

/// The ATC table from position `i` has one row per assignment.
proof fn lemma_atc_rows_count_from(rs: Seq<PrescriptionRecord>, i: int)
    ensures
        table_rows_from(rs, i, |rec| atc_rows_one(rec)).len() == atc_count_from(rs, i),
    decreases rs.len() - i,
{
    if 0 <= i < rs.len() {
        lemma_atc_rows_count_from(rs, i + 1);
    }
}

} // verus!
