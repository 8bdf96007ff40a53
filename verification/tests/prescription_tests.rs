//! The composite prescription file: record reading, flag decoding and the
//! seven-table fan-out.

use cima_rs::catalog::RecordError;
use cima_rs::prescription::parse_flag;
use cima_rs::prescription::parse_prescription_xml_to_csvs;
use cima_rs::prescription::prescription_list_from_document;
use cima_rs::xml::parse_document;

fn prescription_xml(extra: &str) -> String {
    format!(
        r#"<aemps_prescripcion>
                <prescription>
                    <cod_nacion>600000</cod_nacion>
                    <nro_definitivo>66337</nro_definitivo>
                    <des_nomco>TEST</des_nomco>
                    <des_prese>TEST</des_prese>
                    <sw_psicotropo>0</sw_psicotropo>
                    <sw_estupefaciente>0</sw_estupefaciente>
                    <sw_afecta_conduccion>0</sw_afecta_conduccion>
                    <sw_triangulo_negro>0</sw_triangulo_negro>
                    <sw_receta>1</sw_receta>
                    <sw_generico>1</sw_generico>
                    <sw_sustituible>1</sw_sustituible>
                    <sw_envase_clinico>1</sw_envase_clinico>
                    <sw_uso_hospitalario>1</sw_uso_hospitalario>
                    <sw_diagnostico_hospitalario>0</sw_diagnostico_hospitalario>
                    <sw_tld>0</sw_tld>
                    <sw_especial_control_medico>0</sw_especial_control_medico>
                    <sw_huerfano>0</sw_huerfano>
                    <sw_base_a_plantas>0</sw_base_a_plantas>
                    <sw_comercializado>0</sw_comercializado>
                    <sw_tiene_excipientes_decl_obligatoria>0</sw_tiene_excipientes_decl_obligatoria>
                    <biosimilar>0</biosimilar>
                    <importacion_paralela>0</importacion_paralela>
                    <radiofarmaco>0</radiofarmaco>
                    <serializacion>1</serializacion>
                    <formasfarmaceuticas>
                        <cod_forfar>288</cod_forfar>
                        <cod_forfar_simplificada>34</cod_forfar_simplificada>
                        <nro_pactiv>1</nro_pactiv>
                        <composicion_pa>
                            <cod_principio_activo>160</cod_principio_activo>
                        </composicion_pa>
                        <viasadministracion>
                            <cod_via_admin>49</cod_via_admin>
                        </viasadministracion>
                    </formasfarmaceuticas>{extra}
                </prescription>
            </aemps_prescripcion>"#
    )
}

#[test]
fn test_parse_prescription_with_nested() {
    let xml = prescription_xml("");
    let root = parse_document(&xml).expect("document must parse");
    let list = prescription_list_from_document(&root).expect("records must be readable");
    assert_eq!(list.records.len(), 1);
    let record = &list.records[0];
    assert_eq!(record.cod_nacion, "600000");
    assert!(record.forms.is_some());
}

#[test]
fn test_parse_prescription_to_multi_csv() {
    let xml = prescription_xml(
        r#"
                    <atc>
                        <cod_atc>J01CR02</cod_atc>
                    </atc>"#,
    );
    let result = parse_prescription_xml_to_csvs(&xml);
    assert!(result.is_ok(), "Multi-CSV parsing failed: {:?}", result.err());

    // All 7 tables were produced
    let tables = result.unwrap();
    assert!(tables.prescriptions.contains("600000"));
    assert!(tables.forms.contains("600000"));
    assert!(tables.active_ingredients.contains("600000"));
    assert!(tables.admin_routes.contains("600000"));
    assert!(tables.atc.contains("600000"));
    // tables without data rows still carry their header row
    assert_eq!(
        tables.atc_duplicates,
        "cod_nacion,atc_code,duplicate_atc,description,effect,recommendation\n"
    );
    assert_eq!(tables.supply_problems, "cod_nacion,start_date,observations\n");
}

fn rows_of(table: &str) -> Vec<csv::StringRecord> {
    // every table opens with a header row; these are the data rows
    let mut reader = csv::Reader::from_reader(table.as_bytes());
    reader.records().map(|r| r.unwrap()).collect()
}

#[test]
fn decomposition_round_trip_counts_and_keys() {
    let xml = prescription_xml(
        r#"
                    <atc>
                        <cod_atc>J01CR02</cod_atc>
                    </atc>"#,
    );
    let tables = parse_prescription_xml_to_csvs(&xml).unwrap();

    // main table: one header row plus one data row
    let mut main_reader = csv::Reader::from_reader(tables.prescriptions.as_bytes());
    let headers = main_reader.headers().unwrap();
    assert_eq!(headers.get(0).unwrap(), "cod_nacion");
    let main_rows: Vec<csv::StringRecord> = main_reader.records().map(|r| r.unwrap()).collect();
    assert_eq!(main_rows.len(), 1);
    assert_eq!(main_rows[0].get(0).unwrap(), "600000");

    // one form row keyed by the national code, after the header row
    let mut form_reader = csv::Reader::from_reader(tables.forms.as_bytes());
    let form_headers = form_reader.headers().unwrap();
    assert_eq!(form_headers.get(0).unwrap(), "cod_nacion");
    assert_eq!(form_headers.get(1).unwrap(), "form_code");
    let form_rows = rows_of(&tables.forms);
    assert_eq!(form_rows.len(), 1);
    assert_eq!(form_rows[0].get(0).unwrap(), "600000");
    assert_eq!(form_rows[0].get(1).unwrap(), "288");
    assert_eq!(form_rows[0].get(2).unwrap(), "34");
    assert_eq!(form_rows[0].get(3).unwrap(), "1");

    // one active-ingredient row keyed by the national code
    let ai_rows = rows_of(&tables.active_ingredients);
    assert_eq!(ai_rows.len(), 1);
    assert_eq!(ai_rows[0].get(0).unwrap(), "600000");
    assert_eq!(ai_rows[0].get(1).unwrap(), "160");
    assert_eq!(ai_rows[0].len(), 11);

    // one administration-route row keyed by the national code
    let route_rows = rows_of(&tables.admin_routes);
    assert_eq!(route_rows.len(), 1);
    assert_eq!(route_rows[0].get(0).unwrap(), "600000");
    assert_eq!(route_rows[0].get(1).unwrap(), "49");

    // one ATC row keyed by the national code
    let atc_rows = rows_of(&tables.atc);
    assert_eq!(atc_rows.len(), 1);
    assert_eq!(atc_rows[0].get(0).unwrap(), "600000");
    assert_eq!(atc_rows[0].get(1).unwrap(), "J01CR02");

    // no duplicate-warning rows and no supply-problem rows
    assert_eq!(rows_of(&tables.atc_duplicates).len(), 0);
    assert_eq!(rows_of(&tables.supply_problems).len(), 0);
}

#[test]
fn atc_duplicates_and_supply_problems_fan_out() {
    let xml = prescription_xml(
        r#"
                    <atc>
                        <cod_atc>J01CR02</cod_atc>
                        <duplicidades>
                            <atc_duplicidad>J01CA04</atc_duplicidad>
                            <descripcion_atc_duplicidad>AMOXICILINA</descripcion_atc_duplicidad>
                            <efecto_duplicidad>E1</efecto_duplicidad>
                            <recomendacion_duplicidad>R1</recomendacion_duplicidad>
                        </duplicidades>
                        <duplicidades>
                            <atc_duplicidad>J01CA08</atc_duplicidad>
                        </duplicidades>
                    </atc>
                    <problemassuministro>
                        <fecha_inicio>01/01/2024</fecha_inicio>
                        <observaciones>OBS</observaciones>
                    </problemassuministro>"#,
    );
    let tables = parse_prescription_xml_to_csvs(&xml).unwrap();

    let dup_rows = rows_of(&tables.atc_duplicates);
    assert_eq!(dup_rows.len(), 2);
    assert_eq!(dup_rows[0].get(0).unwrap(), "600000");
    assert_eq!(dup_rows[0].get(1).unwrap(), "J01CR02");
    assert_eq!(dup_rows[0].get(2).unwrap(), "J01CA04");
    assert_eq!(dup_rows[0].get(3).unwrap(), "AMOXICILINA");
    assert_eq!(dup_rows[0].get(4).unwrap(), "E1");
    assert_eq!(dup_rows[0].get(5).unwrap(), "R1");
    // absent optional fields of the second warning are empty cells
    assert_eq!(dup_rows[1].get(2).unwrap(), "J01CA08");
    assert_eq!(dup_rows[1].get(3).unwrap(), "");
    assert_eq!(dup_rows[1].len(), 6);

    let supply_rows = rows_of(&tables.supply_problems);
    assert_eq!(supply_rows.len(), 1);
    assert_eq!(supply_rows[0].get(0).unwrap(), "600000");
    assert_eq!(supply_rows[0].get(1).unwrap(), "01/01/2024");
    assert_eq!(supply_rows[0].get(2).unwrap(), "OBS");
}

#[test]
fn flag_text_one_is_true_and_zero_is_false() {
    assert_eq!(parse_flag("1"), Ok(true));
    assert_eq!(parse_flag("0"), Ok(false));
}

#[test]
fn other_flag_texts_are_rejected() {
    assert_eq!(parse_flag("2"), Err(RecordError::InvalidFlag));
    assert_eq!(parse_flag("yes"), Err(RecordError::InvalidFlag));
    assert_eq!(parse_flag(""), Err(RecordError::InvalidFlag));
    assert_eq!(parse_flag("10"), Err(RecordError::InvalidFlag));
}

#[test]
fn invalid_flag_in_record_fails_the_document() {
    let xml = prescription_xml("").replace(
        "<sw_psicotropo>0</sw_psicotropo>",
        "<sw_psicotropo>2</sw_psicotropo>",
    );
    let result = parse_prescription_xml_to_csvs(&xml);
    assert_eq!(
        result.unwrap_err(),
        cima_rs::catalog::ConvertError::Record(RecordError::InvalidFlag)
    );
}

#[test]
fn missing_required_field_fails_the_document() {
    let xml = prescription_xml("").replace(
        "<cod_nacion>600000</cod_nacion>",
        "",
    );
    let result = parse_prescription_xml_to_csvs(&xml);
    assert_eq!(
        result.unwrap_err(),
        cima_rs::catalog::ConvertError::Record(RecordError::MissingField)
    );
}

#[test]
fn a_document_without_prescriptions_is_a_schema_error() {
    let xml = "<aemps_prescripcion><header>\
               <listprescriptiondate>20240101</listprescriptiondate>\
               </header></aemps_prescripcion>";
    let result = parse_prescription_xml_to_csvs(xml);
    assert_eq!(
        result.unwrap_err(),
        cima_rs::catalog::ConvertError::Record(RecordError::MissingList)
    );
}

#[test]
fn main_table_has_constant_column_count() {
    let xml = prescription_xml("");
    let tables = parse_prescription_xml_to_csvs(&xml).unwrap();
    let mut reader = csv::Reader::from_reader(tables.prescriptions.as_bytes());
    let header_len = reader.headers().unwrap().len();
    assert_eq!(header_len, 42);
    for record in reader.records() {
        assert_eq!(record.unwrap().len(), header_len);
    }
}
