//! The thirteen dictionary converters, exercised on minimal XML fixtures.

use cima_rs::catalog::parse_atc_xml_to_csv;
use cima_rs::catalog::parse_dcp_xml_to_csv;
use cima_rs::catalog::parse_dcpf_xml_to_csv;
use cima_rs::catalog::parse_dcsa_xml_to_csv;
use cima_rs::catalog::parse_envases_xml_to_csv;
use cima_rs::catalog::parse_excipientes_xml_to_csv;
use cima_rs::catalog::parse_forma_farmaceutica_simplificada_xml_to_csv;
use cima_rs::catalog::parse_forma_farmaceutica_xml_to_csv;
use cima_rs::catalog::parse_laboratorio_xml_to_csv;
use cima_rs::catalog::parse_principio_activo_xml_to_csv;
use cima_rs::catalog::parse_situacion_registro_xml_to_csv;
use cima_rs::catalog::parse_unidad_contenido_xml_to_csv;
use cima_rs::catalog::parse_via_administracion_xml_to_csv;

#[test]
fn test_parse_atc_xml() {
    let xml = r#"<aemps_prescripcion_atc>
                <atc>
                    <nroatc>1</nroatc>
                    <codigoatc>A01</codigoatc>
                    <descatc>A01 - DIGESTIVE</descatc>
                </atc>
                <atc>
                    <nroatc>2</nroatc>
                    <codigoatc>B01</codigoatc>
                    <descatc>B01 - BLOOD</descatc>
                </atc>
            </aemps_prescripcion_atc>"#;

    let result = parse_atc_xml_to_csv(xml);
    assert!(result.is_ok());
    let csv_text = result.unwrap();

    let mut csv_reader = csv::Reader::from_reader(csv_text.as_bytes());

    // Verify CSV headers use the semantic field names
    let headers = csv_reader.headers().unwrap();
    assert_eq!(headers.get(0).unwrap(), "number");
    assert_eq!(headers.get(1).unwrap(), "code");
    assert_eq!(headers.get(2).unwrap(), "description");

    // Verify CSV data
    let records: Vec<csv::StringRecord> = csv_reader.records().map(|r| r.unwrap()).collect();
    assert_eq!(records.len(), 2);
    assert_eq!(records[0].get(1).unwrap(), "A01");
    assert_eq!(records[0].get(2).unwrap(), "DIGESTIVE");
    assert_eq!(records[1].get(1).unwrap(), "B01");
    assert_eq!(records[1].get(2).unwrap(), "BLOOD");
}

#[test]
fn test_parse_dcp_xml() {
    let xml = r#"<aemps_prescripcion_dcp>
                <dcp>
                    <codigodcp>D01</codigodcp>
                    <nombredcp>DCP NAME</nombredcp>
                    <codigodcsa>S01</codigodcsa>
                </dcp>
            </aemps_prescripcion_dcp>"#;

    let result = parse_dcp_xml_to_csv(xml);
    assert!(result.is_ok());
    let csv_text = result.unwrap();

    let mut csv_reader = csv::Reader::from_reader(csv_text.as_bytes());

    let headers = csv_reader.headers().unwrap();
    assert_eq!(headers.get(0).unwrap(), "code");
    assert_eq!(headers.get(1).unwrap(), "name");
    assert_eq!(headers.get(2).unwrap(), "dcsa_code");

    let records: Vec<csv::StringRecord> = csv_reader.records().map(|r| r.unwrap()).collect();
    assert_eq!(records.len(), 1);
    assert_eq!(records[0].get(0).unwrap(), "D01");
    assert_eq!(records[0].get(1).unwrap(), "DCP NAME");
}

#[test]
fn test_parse_dcpf_xml() {
    let xml = r#"<aemps_prescripcion_dcpf>
                <dcpf>
                    <codigodcpf>DF01</codigodcpf>
                    <nombredcpf>DCPF NAME</nombredcpf>
                    <codigodcp>D01</codigodcp>
                </dcpf>
            </aemps_prescripcion_dcpf>"#;

    let result = parse_dcpf_xml_to_csv(xml);
    assert!(result.is_ok());
    let csv_text = result.unwrap();

    let mut csv_reader = csv::Reader::from_reader(csv_text.as_bytes());

    let headers = csv_reader.headers().unwrap();
    assert_eq!(headers.get(0).unwrap(), "code");
    assert_eq!(headers.get(1).unwrap(), "name");
    assert_eq!(headers.get(2).unwrap(), "dcp_code");

    let records: Vec<csv::StringRecord> = csv_reader.records().map(|r| r.unwrap()).collect();
    assert_eq!(records.len(), 1);
    assert_eq!(records[0].get(0).unwrap(), "DF01");
    assert_eq!(records[0].get(1).unwrap(), "DCPF NAME");
}

#[test]
fn test_parse_dcsa_xml() {
    let xml = r#"<aemps_prescripcion_dcsa>
                <dcsa>
                    <codigodcsa>S01</codigodcsa>
                    <nombredcsa>DCSA NAME</nombredcsa>
                </dcsa>
            </aemps_prescripcion_dcsa>"#;

    let result = parse_dcsa_xml_to_csv(xml);
    assert!(result.is_ok());
    let csv_text = result.unwrap();

    let mut csv_reader = csv::Reader::from_reader(csv_text.as_bytes());

    let headers = csv_reader.headers().unwrap();
    assert_eq!(headers.get(0).unwrap(), "code");
    assert_eq!(headers.get(1).unwrap(), "name");

    let records: Vec<csv::StringRecord> = csv_reader.records().map(|r| r.unwrap()).collect();
    assert_eq!(records.len(), 1);
    assert_eq!(records[0].get(0).unwrap(), "S01");
    assert_eq!(records[0].get(1).unwrap(), "DCSA NAME");
}

#[test]
fn test_parse_envases_xml() {
    let xml = r#"<aemps_prescripcion_envases>
                <envases>
                    <codigoenvase>E01</codigoenvase>
                    <envase>ENVASE NAME</envase>
                </envases>
            </aemps_prescripcion_envases>"#;

    let result = parse_envases_xml_to_csv(xml);
    assert!(result.is_ok());
    let csv_text = result.unwrap();

    let mut csv_reader = csv::Reader::from_reader(csv_text.as_bytes());

    let headers = csv_reader.headers().unwrap();
    assert_eq!(headers.get(0).unwrap(), "code");
    assert_eq!(headers.get(1).unwrap(), "name");

    let records: Vec<csv::StringRecord> = csv_reader.records().map(|r| r.unwrap()).collect();
    assert_eq!(records.len(), 1);
    assert_eq!(records[0].get(0).unwrap(), "E01");
    assert_eq!(records[0].get(1).unwrap(), "ENVASE NAME");
}

#[test]
fn test_parse_excipientes_xml() {
    let xml = r#"<aemps_prescripcion_excipientes>
                <excipientes>
                    <codigoedo>X01</codigoedo>
                    <edo>EXCIPIENTE NAME</edo>
                </excipientes>
            </aemps_prescripcion_excipientes>"#;

    let result = parse_excipientes_xml_to_csv(xml);
    assert!(result.is_ok());
    let csv_text = result.unwrap();

    let mut csv_reader = csv::Reader::from_reader(csv_text.as_bytes());

    let headers = csv_reader.headers().unwrap();
    assert_eq!(headers.get(0).unwrap(), "code");
    assert_eq!(headers.get(1).unwrap(), "name");

    let records: Vec<csv::StringRecord> = csv_reader.records().map(|r| r.unwrap()).collect();
    assert_eq!(records.len(), 1);
    assert_eq!(records[0].get(0).unwrap(), "X01");
    assert_eq!(records[0].get(1).unwrap(), "EXCIPIENTE NAME");
}

#[test]
fn test_parse_forma_farmaceutica_xml() {
    let xml = r#"<aemps_prescripcion_formas_farmaceuticas>
                <formasfarmaceuticas>
                    <codigoformafarmaceutica>FF01</codigoformafarmaceutica>
                    <formafarmaceutica>FORMA NAME</formafarmaceutica>
                    <codigoformafarmaceuticasimplificada>SFF01</codigoformafarmaceuticasimplificada>
                </formasfarmaceuticas>
            </aemps_prescripcion_formas_farmaceuticas>"#;

    let result = parse_forma_farmaceutica_xml_to_csv(xml);
    assert!(result.is_ok());
    let csv_text = result.unwrap();

    let mut csv_reader = csv::Reader::from_reader(csv_text.as_bytes());

    let headers = csv_reader.headers().unwrap();
    assert_eq!(headers.get(0).unwrap(), "code");
    assert_eq!(headers.get(1).unwrap(), "name");
    assert_eq!(headers.get(2).unwrap(), "simplified_code");

    let records: Vec<csv::StringRecord> = csv_reader.records().map(|r| r.unwrap()).collect();
    assert_eq!(records.len(), 1);
    assert_eq!(records[0].get(0).unwrap(), "FF01");
    assert_eq!(records[0].get(1).unwrap(), "FORMA NAME");
    assert_eq!(records[0].get(2).unwrap(), "SFF01");
}

#[test]
fn test_parse_forma_farmaceutica_simplificada_xml() {
    let xml = r#"<aemps_prescripcion_formas_farmaceuticas_simplificadas>
                <formasfarmaceuticassimplificadas>
                    <codigoformafarmaceuticasimplificada>SFF01</codigoformafarmaceuticasimplificada>
                    <formafarmaceuticasimplificada>SIMPLIFIED NAME</formafarmaceuticasimplificada>
                </formasfarmaceuticassimplificadas>
            </aemps_prescripcion_formas_farmaceuticas_simplificadas>"#;

    let result = parse_forma_farmaceutica_simplificada_xml_to_csv(xml);
    assert!(result.is_ok());
    let csv_text = result.unwrap();

    let mut csv_reader = csv::Reader::from_reader(csv_text.as_bytes());

    let headers = csv_reader.headers().unwrap();
    assert_eq!(headers.get(0).unwrap(), "code");
    assert_eq!(headers.get(1).unwrap(), "name");

    let records: Vec<csv::StringRecord> = csv_reader.records().map(|r| r.unwrap()).collect();
    assert_eq!(records.len(), 1);
    assert_eq!(records[0].get(0).unwrap(), "SFF01");
    assert_eq!(records[0].get(1).unwrap(), "SIMPLIFIED NAME");
}

#[test]
fn test_parse_laboratorio_xml() {
    let xml = r#"<aemps_prescripcion_laboratorios>
                <laboratorios>
                    <codigolaboratorio>L01</codigolaboratorio>
                    <laboratorio>LAB NAME</laboratorio>
                    <direccion>ADDR</direccion>
                    <codigopostal>ZIP</codigopostal>
                    <localidad>CITY</localidad>
                    <cif>VAT</cif>
                </laboratorios>
                <laboratorios>
                    <codigolaboratorio>L02</codigolaboratorio>
                    <laboratorio>LAB NAME 2</laboratorio>
                </laboratorios>
            </aemps_prescripcion_laboratorios>"#;

    let result = parse_laboratorio_xml_to_csv(xml);
    assert!(result.is_ok());
    let csv_text = result.unwrap();

    let mut csv_reader = csv::Reader::from_reader(csv_text.as_bytes());

    let headers = csv_reader.headers().unwrap();
    assert_eq!(headers.get(0).unwrap(), "code");
    assert_eq!(headers.get(1).unwrap(), "name");
    assert_eq!(headers.get(2).unwrap(), "address");
    assert_eq!(headers.get(3).unwrap(), "zip");
    assert_eq!(headers.get(4).unwrap(), "city");
    assert_eq!(headers.get(5).unwrap(), "vat");

    let records: Vec<csv::StringRecord> = csv_reader.records().map(|r| r.unwrap()).collect();
    assert_eq!(records.len(), 2);
    assert_eq!(records[0].get(0).unwrap(), "L01");
    assert_eq!(records[0].get(1).unwrap(), "LAB NAME");
    assert_eq!(records[0].get(2).unwrap(), "ADDR");
    assert_eq!(records[0].get(3).unwrap(), "ZIP");
    assert_eq!(records[0].get(4).unwrap(), "CITY");
    assert_eq!(records[0].get(5).unwrap(), "VAT");

    assert_eq!(records[1].get(0).unwrap(), "L02");
    assert_eq!(records[1].get(1).unwrap(), "LAB NAME 2");
    // Second record has empty strings for optional fields
    assert_eq!(records[1].get(2).unwrap(), "");
    assert_eq!(records[1].get(3).unwrap(), "");
    assert_eq!(records[1].get(4).unwrap(), "");
    assert_eq!(records[1].get(5).unwrap(), "");
}

#[test]
fn test_parse_principio_activo_xml() {
    let xml = r#"<aemps_prescripcion_principios_activos>
                <principiosactivos>
                    <nroprincipioactivo>1</nroprincipioactivo>
                    <codigoprincipioactivo>PA01</codigoprincipioactivo>
                    <principioactivo>PRINCIPIO NAME</principioactivo>
                </principiosactivos>
            </aemps_prescripcion_principios_activos>"#;

    let result = parse_principio_activo_xml_to_csv(xml);
    assert!(result.is_ok());
    let csv_text = result.unwrap();

    let mut csv_reader = csv::Reader::from_reader(csv_text.as_bytes());

    let headers = csv_reader.headers().unwrap();
    assert_eq!(headers.get(0).unwrap(), "number");
    assert_eq!(headers.get(1).unwrap(), "code");
    assert_eq!(headers.get(2).unwrap(), "name");

    let records: Vec<csv::StringRecord> = csv_reader.records().map(|r| r.unwrap()).collect();
    assert_eq!(records.len(), 1);
    assert_eq!(records[0].get(0).unwrap(), "1");
    assert_eq!(records[0].get(1).unwrap(), "PA01");
    assert_eq!(records[0].get(2).unwrap(), "PRINCIPIO NAME");
}

#[test]
fn test_parse_situacion_registro_xml() {
    let xml = r#"<aemps_prescripcion_situacion_registro>
                <situacionesregistro>
                    <codigosituacionregistro>1</codigosituacionregistro>
                    <situacionregistro>Autorizado</situacionregistro>
                </situacionesregistro>
            </aemps_prescripcion_situacion_registro>"#;

    let result = parse_situacion_registro_xml_to_csv(xml);
    assert!(result.is_ok());
    let csv_text = result.unwrap();

    let mut csv_reader = csv::Reader::from_reader(csv_text.as_bytes());

    let headers = csv_reader.headers().unwrap();
    assert_eq!(headers.get(0).unwrap(), "code");
    assert_eq!(headers.get(1).unwrap(), "name");

    let records: Vec<csv::StringRecord> = csv_reader.records().map(|r| r.unwrap()).collect();
    assert_eq!(records.len(), 1);
    assert_eq!(records[0].get(0).unwrap(), "1");
    assert_eq!(records[0].get(1).unwrap(), "Autorizado");
}

#[test]
fn test_parse_unidad_contenido_xml() {
    let xml = "<aemps_prescripcion_unidad_contenido>
                <unidadescontenido>
                    <codigounidadcontenido>1</codigounidadcontenido>
                    <unidadcontenido>ampolla para inyecci\u{f3}n</unidadcontenido>
                </unidadescontenido>
            </aemps_prescripcion_unidad_contenido>";

    let result = parse_unidad_contenido_xml_to_csv(xml);
    assert!(result.is_ok());
    let csv_text = result.unwrap();

    let mut csv_reader = csv::Reader::from_reader(csv_text.as_bytes());

    let headers = csv_reader.headers().unwrap();
    assert_eq!(headers.get(0).unwrap(), "code");
    assert_eq!(headers.get(1).unwrap(), "name");

    let records: Vec<csv::StringRecord> = csv_reader.records().map(|r| r.unwrap()).collect();
    assert_eq!(records.len(), 1);
    assert_eq!(records[0].get(0).unwrap(), "1");
    assert_eq!(records[0].get(1).unwrap(), "ampolla para inyecci\u{f3}n");
}

#[test]
fn test_parse_via_administracion_xml() {
    let xml = "<aemps_prescripcion_vias_administracion>
                <viasadministracion>
                    <codigoviaadministracion>7</codigoviaadministracion>
                    <viaadministracion>HEMODI\u{c1}LISIS</viaadministracion>
                </viasadministracion>
            </aemps_prescripcion_vias_administracion>";

    let result = parse_via_administracion_xml_to_csv(xml);
    assert!(result.is_ok());
    let csv_text = result.unwrap();

    let mut csv_reader = csv::Reader::from_reader(csv_text.as_bytes());

    let headers = csv_reader.headers().unwrap();
    assert_eq!(headers.get(0).unwrap(), "code");
    assert_eq!(headers.get(1).unwrap(), "name");

    let records: Vec<csv::StringRecord> = csv_reader.records().map(|r| r.unwrap()).collect();
    assert_eq!(records.len(), 1);
    assert_eq!(records[0].get(0).unwrap(), "7");
    assert_eq!(records[0].get(1).unwrap(), "HEMODI\u{c1}LISIS");
}

#[test]
fn atc_description_without_prefix_is_unchanged() {
    let cleaned = cima_rs::catalog::clean_atc_description("A01", "A01 - DIGESTIVE");
    assert_eq!(cleaned, "DIGESTIVE");
    let untouched = cima_rs::catalog::clean_atc_description("A01", "DIGESTIVE SYSTEM");
    assert_eq!(untouched, "DIGESTIVE SYSTEM");
    let other_code = cima_rs::catalog::clean_atc_description("B01", "A01 - DIGESTIVE");
    assert_eq!(other_code, "A01 - DIGESTIVE");
}

#[test]
fn atc_description_that_is_only_the_prefix_cleans_to_empty() {
    assert_eq!(cima_rs::catalog::clean_atc_description("A01", "A01 - "), "");
    assert_eq!(cima_rs::catalog::clean_atc_description("", " - X"), "X");
}

#[test]
fn dcp_table_text_is_exact() {
    let xml = r#"<aemps_prescripcion_dcp>
                <dcp>
                    <codigodcp>D01</codigodcp>
                    <nombredcp>DCP NAME</nombredcp>
                    <codigodcsa>S01</codigodcsa>
                </dcp>
            </aemps_prescripcion_dcp>"#;
    let csv_text = parse_dcp_xml_to_csv(xml).unwrap();
    assert_eq!(csv_text, "code,name,dcsa_code\nD01,DCP NAME,S01\n");
}

#[test]
fn catalog_with_missing_required_field_fails() {
    let xml = r#"<aemps_prescripcion_dcsa>
                <dcsa>
                    <codigodcsa>S01</codigodcsa>
                </dcsa>
            </aemps_prescripcion_dcsa>"#;
    let result = parse_dcsa_xml_to_csv(xml);
    assert_eq!(
        result.unwrap_err(),
        cima_rs::catalog::ConvertError::Record(cima_rs::catalog::RecordError::MissingField)
    );
}

#[test]
fn atc_with_unreadable_number_fails() {
    let xml = r#"<aemps_prescripcion_atc>
                <atc>
                    <nroatc>abc</nroatc>
                    <codigoatc>A01</codigoatc>
                    <descatc>DIGESTIVE</descatc>
                </atc>
            </aemps_prescripcion_atc>"#;
    let result = parse_atc_xml_to_csv(xml);
    assert_eq!(
        result.unwrap_err(),
        cima_rs::catalog::ConvertError::Record(cima_rs::catalog::RecordError::InvalidNumber)
    );
}

#[test]
fn truncated_xml_is_an_xml_error() {
    let xml = "<aemps_prescripcion_dcsa><dcsa><codigodcsa>S01";
    let result = parse_dcsa_xml_to_csv(xml);
    assert_eq!(
        result.unwrap_err(),
        cima_rs::catalog::ConvertError::Xml(cima_rs::xml::XmlError::Truncated)
    );
}

#[test]
fn catalog_without_its_record_list_is_a_schema_error() {
    // an empty dictionary
    let empty = "<aemps_prescripcion_dcsa></aemps_prescripcion_dcsa>";
    assert_eq!(
        parse_dcsa_xml_to_csv(empty).unwrap_err(),
        cima_rs::catalog::ConvertError::Record(cima_rs::catalog::RecordError::MissingList)
    );
    // the wrong dictionary fed to a parser
    let atc = r#"<aemps_prescripcion_atc>
                <atc>
                    <nroatc>1</nroatc>
                    <codigoatc>A01</codigoatc>
                    <descatc>DIGESTIVE</descatc>
                </atc>
            </aemps_prescripcion_atc>"#;
    assert_eq!(
        parse_dcsa_xml_to_csv(atc).unwrap_err(),
        cima_rs::catalog::ConvertError::Record(cima_rs::catalog::RecordError::MissingList)
    );
}

#[test]
fn catalog_fields_with_commas_and_quotes_are_escaped() {
    let xml = r#"<aemps_prescripcion_dcsa>
                <dcsa>
                    <codigodcsa>S01</codigodcsa>
                    <nombredcsa>NAME, WITH "QUOTES"</nombredcsa>
                </dcsa>
            </aemps_prescripcion_dcsa>"#;
    let csv_text = parse_dcsa_xml_to_csv(xml).unwrap();
    assert_eq!(csv_text, "code,name\nS01,\"NAME, WITH \"\"QUOTES\"\"\"\n");
}
