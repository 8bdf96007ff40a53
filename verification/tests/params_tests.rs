//! Query-parameter builders, URL construction and decimal formatting.

use cima_rs::api::build_url;
use cima_rs::api::percent_encode;
use cima_rs::api::request_url;
use cima_rs::endpoints::maestras::MaestraParams;
use cima_rs::endpoints::maestras::TipoMaestra;
use cima_rs::endpoints::medicamentos::SearchMedicamentosParams;
use cima_rs::endpoints::medications::medication_identifier_params;
use cima_rs::endpoints::presentaciones::SearchPresentacionesParams;
use cima_rs::endpoints::vmpp::SearchVmppParams;
use cima_rs::MasterDataParams;
use cima_rs::MasterDataType;
use cima_rs::SearchClinicalDescriptionParams;
use cima_rs::SearchMedicationsParams;
use cima_rs::SearchPresentationsParams;
use cima_rs::text::i64_to_chars;
use cima_rs::text::parse_i32_chars;
use cima_rs::text::parse_u64_digits;
use cima_rs::text::str_to_chars;
use cima_rs::text::u64_to_chars;

#[test]
fn medicamentos_test_search_params_to_query() {
    let params = SearchMedicamentosParams {
        nombre: Some("Paracetamol".to_string()),
        triangulo: Some(1),
        pagina: Some(2),
        ..Default::default()
    };

    let query = params.to_query_params();
    assert_eq!(query.len(), 3);
    assert!(
        query
            .iter()
            .any(|(k, v)| k == &"nombre" && v == "Paracetamol")
    );
    assert!(query.iter().any(|(k, v)| k == &"triangulo" && v == "1"));
    assert!(query.iter().any(|(k, v)| k == &"pagina" && v == "2"));
}

#[test]
fn medications_test_search_params_to_query() {
    let params = SearchMedicationsParams {
        name: Some("Paracetamol".to_string()),
        black_triangle: Some(1),
        page: Some(2),
        ..Default::default()
    };

    let query = params.to_query_params();
    assert_eq!(query.len(), 3);
    assert!(
        query
            .iter()
            .any(|(k, v)| k == &"nombre" && v == "Paracetamol")
    );
    assert!(query.iter().any(|(k, v)| k == &"triangulo" && v == "1"));
    assert!(query.iter().any(|(k, v)| k == &"pagina" && v == "2"));
}

#[test]
fn query_params_keep_declaration_order() {
    let params = SearchPresentationsParams {
        national_code: Some("712345".to_string()),
        narcotic: Some(1),
        page: Some(3),
        ..Default::default()
    };
    let query = params.to_query_params();
    let keys: Vec<&str> = query.iter().map(|(k, _)| *k).collect();
    assert_eq!(keys, vec!["cn", "estupefaciente", "pagina"]);
}

#[test]
fn empty_params_build_no_pairs() {
    assert_eq!(SearchVmppParams::new().to_query_params().len(), 0);
    assert_eq!(SearchPresentacionesParams::new().to_query_params().len(), 0);
    assert_eq!(
        SearchClinicalDescriptionParams::new().to_query_params().len(),
        0
    );
}

#[test]
fn tree_mode_flag_becomes_literal_true() {
    let params = SearchVmppParams {
        modo_arbol: true,
        ..Default::default()
    };
    let query = params.to_query_params();
    assert_eq!(query.len(), 1);
    assert_eq!(query[0].0, "modoArbol");
    assert_eq!(query[0].1, "true");
}

#[test]
fn maestra_selector_leads_the_query() {
    let params = MaestraParams {
        nombre: Some("IBUPROFENO".to_string()),
        ..Default::default()
    };
    let query = params.to_query_params(TipoMaestra::PrincipiosActivos);
    assert_eq!(query[0], ("maestra", "1".to_string()));
    assert_eq!(query[1], ("nombre", "IBUPROFENO".to_string()));

    let params = MasterDataParams {
        id: Some(42),
        ..Default::default()
    };
    let query = params.to_query_params(MasterDataType::AtcCodes);
    assert_eq!(query[0], ("maestra", "7".to_string()));
    assert_eq!(query[1], ("id", "42".to_string()));
}

#[test]
fn master_data_type_codes() {
    assert_eq!(MasterDataType::ActiveIngredients.as_u8(), 1);
    assert_eq!(MasterDataType::PharmaceuticalForms.as_u8(), 3);
    assert_eq!(MasterDataType::AdministrationRoutes.as_u8(), 4);
    assert_eq!(MasterDataType::Laboratories.as_u8(), 6);
    assert_eq!(MasterDataType::AtcCodes.as_u8(), 7);
    assert_eq!(MasterDataType::ActiveIngredientsSNOMED.as_u8(), 11);
    assert_eq!(
        MasterDataType::SimplifiedPharmaceuticalFormsSNOMED.as_u8(),
        13
    );
    assert_eq!(MasterDataType::AdministrationRoutesSNOMED.as_u8(), 14);
    assert_eq!(MasterDataType::Medications.as_u8(), 15);
    assert_eq!(MasterDataType::CommercializedMedicationsSNOMED.as_u8(), 16);
}

#[test]
fn medication_identifier_needs_one_of_the_two() {
    assert!(medication_identifier_params(None, None).is_none());
    let by_nr = medication_identifier_params(Some("66337"), None).unwrap();
    assert_eq!(by_nr, vec![("nregistro", "66337".to_string())]);
    let by_both = medication_identifier_params(Some("66337"), Some("600000")).unwrap();
    assert_eq!(
        by_both,
        vec![
            ("nregistro", "66337".to_string()),
            ("cn", "600000".to_string())
        ]
    );
}

#[test]
fn build_url_joins_with_one_slash() {
    assert_eq!(
        build_url("https://cima.aemps.es/cima/rest", "medicamento"),
        "https://cima.aemps.es/cima/rest/medicamento"
    );
    assert_eq!(build_url("http://localhost:8080", "test"), "http://localhost:8080/test");
}

#[test]
fn request_url_percent_encodes_values() {
    let params = vec![
        ("nombre", "acido ascorbico".to_string()),
        ("pagina", "2".to_string()),
    ];
    let url = request_url("https://cima.aemps.es/cima/rest", "medicamentos", &params);
    assert_eq!(
        url,
        "https://cima.aemps.es/cima/rest/medicamentos?nombre=acido%20ascorbico&pagina=2"
    );

    let no_params: Vec<(&str, String)> = Vec::new();
    let url = request_url("https://cima.aemps.es/cima/rest", "maestras", &no_params);
    assert_eq!(url, "https://cima.aemps.es/cima/rest/maestras");
}

#[test]
fn percent_encoding_is_uppercase_and_utf8_aware() {
    assert_eq!(percent_encode("abc-XYZ_0.9~"), "abc-XYZ_0.9~");
    assert_eq!(percent_encode("a b/c&d=e"), "a%20b%2Fc%26d%3De");
    assert_eq!(percent_encode("ca\u{f1}a"), "ca%C3%B1a");
}

fn text_of(chars: Vec<char>) -> String {
    chars.iter().collect()
}

#[test]
fn decimal_formatting_matches_expected_text() {
    assert_eq!(text_of(u64_to_chars(0)), "0");
    assert_eq!(text_of(u64_to_chars(907)), "907");
    assert_eq!(text_of(i64_to_chars(-42)), "-42");
    assert_eq!(text_of(i64_to_chars(2147483647)), "2147483647");
    assert_eq!(text_of(i64_to_chars(-2147483648)), "-2147483648");
}

#[test]
fn decimal_parsing_accepts_exactly_digit_strings() {
    assert_eq!(parse_u64_digits(&str_to_chars("907")), Some(907));
    assert_eq!(parse_u64_digits(&str_to_chars("0007")), Some(7));
    assert_eq!(parse_u64_digits(&str_to_chars("")), None);
    assert_eq!(parse_u64_digits(&str_to_chars("9a7")), None);
    assert_eq!(parse_i32_chars(&str_to_chars("-12")), Some(-12));
    assert_eq!(parse_i32_chars(&str_to_chars("2147483647")), Some(2147483647));
    assert_eq!(parse_i32_chars(&str_to_chars("2147483648")), None);
    assert_eq!(parse_i32_chars(&str_to_chars("-2147483648")), Some(-2147483648));
}
