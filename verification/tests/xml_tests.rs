//! The XML reader on its own: structure, entities and rejection cases.

use cima_rs::xml::parse_document;
use cima_rs::xml::XmlError;

#[test]
fn a_document_parses_into_its_element_tree() {
    let root = parse_document(
        "<?xml version=\"1.0\" encoding=\"UTF-8\"?>\n<root a=\"1\"><item>one</item><item>two</item></root>",
    )
    .unwrap();
    assert_eq!(root.name, vec!['r', 'o', 'o', 't']);
    assert_eq!(root.children.len(), 2);
    assert_eq!(root.children[0].text, vec!['o', 'n', 'e']);
    assert_eq!(root.children[1].text, vec!['t', 'w', 'o']);
}

#[test]
fn entities_are_decoded_in_text() {
    let root = parse_document("<r>&lt;a&gt; &amp; &quot;b&quot; &apos;c&apos;</r>").unwrap();
    let text: String = root.text.iter().collect();
    assert_eq!(text, "<a> & \"b\" 'c'");
}

#[test]
fn comments_and_self_closing_elements_are_accepted() {
    let root = parse_document("<r><!-- a > b --><e/><f></f></r>").unwrap();
    assert_eq!(root.children.len(), 2);
}

#[test]
fn malformed_documents_are_rejected() {
    assert_eq!(parse_document("").unwrap_err(), XmlError::MissingRoot);
    assert_eq!(parse_document("   ").unwrap_err(), XmlError::MissingRoot);
    assert_eq!(parse_document("<r><a></r>").unwrap_err(), XmlError::MismatchedTag);
    assert_eq!(parse_document("<r>").unwrap_err(), XmlError::Truncated);
    assert_eq!(parse_document("<r></r><x/>").unwrap_err(), XmlError::TrailingContent);
    assert_eq!(parse_document("<r>&unknown;</r>").unwrap_err(), XmlError::UnknownEntity);
    assert_eq!(parse_document("plain text").unwrap_err(), XmlError::Malformed);
}
