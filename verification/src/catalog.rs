//! The thirteen dictionary converters: each reads the item elements of one
//! flat XML catalog into typed records and renders them as one CSV table
//! whose header holds the semantic field names. All thirteen share one
//! generic conversion pinned down by the [`CatalogRecord`] trait; the ATC
//! catalog additionally strips a repeated `"{code} - "` prefix from its
//! description field.

use vstd::prelude::*;
use vstd::string::StringExecFns;
use crate::csvfmt::csv_table;
use crate::csvfmt::csv_table_string;
use crate::csvfmt::views_of;
use crate::csvfmt::table_views;
use crate::text::append_str_chars;
use crate::text::chars_to_string;
use crate::text::dec_rep_signed;
use crate::text::signed_value;
use crate::text::str_to_chars;
use crate::text::valid_i32_text;
use crate::text::parse_i32_chars;
use crate::xml::XmlNode;
use crate::xml::XmlTree;
use crate::xml::XmlError;
use crate::xml::spec_parse_document;
use crate::xml::child_text;
use crate::xml::children_named;
use crate::xml::children_named_from;
use crate::xml::find_child_text;
use crate::xml::parse_document;

verus! {

/// Why an item element could not be read as a record.
#[derive(Debug, Clone, Copy, PartialEq, Eq, Structural)]
pub enum RecordError {
    /// A required field element was absent.
    MissingField,
    /// A boolean flag held a text other than "0" or "1".
    InvalidFlag,
    /// A numeric field did not hold a decimal in range.
    InvalidNumber,
    /// The document holds no record list of the expected kind — an empty or
    /// wrong dictionary is a schema error, not an empty table.
    MissingList,
}

/// Why a conversion failed: the document did not parse, or one of its item
/// elements could not be read.
#[derive(Debug, Clone, Copy, PartialEq, Eq, Structural)]
pub enum ConvertError {
    Xml(XmlError),
    Record(RecordError),
}

/// The text of an optional field as it is written to CSV: absent fields
/// become empty cells.
pub open spec fn opt_text(t: Option<Seq<char>>) -> Seq<char> {
    match t {
        Some(s) => s,
        None => Seq::empty(),
    }
}

/// Whether an optional string field holds exactly an optional text.
pub open spec fn opt_matches(field: Option<String>, t: Option<Seq<char>>) -> bool {
    match field {
        Some(s) => t == Some(s@),
        None => t is None,
    }
}

/// The description with an exact `"{code} - "` prefix removed; anything else
/// is returned unchanged.
pub open spec fn cleaned_description(code: Seq<char>, desc: Seq<char>) -> Seq<char> {
    let p = code + " - "@;
    if p.len() <= desc.len() && desc.subrange(0, p.len() as int) == p {
        desc.subrange(p.len() as int, desc.len() as int)
    } else {
        desc
    }
}

/// Strips an exact `"{code} - "` prefix from a catalog description; a
/// description without that prefix is returned unchanged.
pub fn clean_atc_description(code: &str, description: &str) -> (r: String)
    ensures
        r@ == cleaned_description(code@, description@),
{
    let mut prefix = str_to_chars(code);
    append_str_chars(&mut prefix, " - ");
    let desc = str_to_chars(description);
    if prefix.len() > desc.len() {
        return String::from_str(description);
    }
    let mut i: usize = 0;
    while i < prefix.len()
        invariant
            0 <= i <= prefix@.len() <= desc@.len(),
            desc@ == description@,
            prefix@ == code@ + " - "@,
            forall|j: int| 0 <= j < i ==> desc@[j] == prefix@[j],
        decreases prefix.len() - i,
    {
        if desc[i] != prefix[i] {
            assert(desc@.subrange(0, prefix@.len() as int) != prefix@);
            return String::from_str(description);
        }
        i = i + 1;
    }
    assert(desc@.subrange(0, prefix@.len() as int) =~= prefix@);
    let mut out: Vec<char> = Vec::new();
    let mut k: usize = prefix.len();
    while k < desc.len()
        invariant
            prefix@.len() <= k <= desc@.len(),
            out@ == desc@.subrange(prefix@.len() as int, k as int),
        decreases desc.len() - k,
    {
        out.push(desc[k]);
        k = k + 1;
        assert(out@ =~= desc@.subrange(prefix@.len() as int, k as int));
    }
    chars_to_string(&out)
}

/// One catalog record type: how an item element is read into a record, which
/// elements it requires, and how the record appears as a CSV row.
pub trait CatalogRecord: Sized {
    /// Whether an item element carries everything this record requires.
    spec fn node_ok(n: XmlTree) -> bool;

    /// Whether `rec` is exactly the record read from `n`.
    spec fn matches_node(n: XmlTree, rec: Self) -> bool;

    /// The error reported for an item element that cannot be read.
    spec fn err_of(n: XmlTree) -> RecordError;

    /// The CSV cells of a record.
    spec fn row_of(rec: Self) -> Seq<Seq<char>>;

    /// The CSV cells read off an item element directly.
    spec fn row_of_node(n: XmlTree) -> Seq<Seq<char>>;

    /// The CSV header cells: the semantic field names.
    spec fn header_spec() -> Seq<Seq<char>>;

    /// A record read from an element has that element's row.
    proof fn row_of_matching(n: XmlTree, rec: Self)
        requires
            Self::node_ok(n),
            Self::matches_node(n, rec),
        ensures
            Self::row_of(rec) == Self::row_of_node(n),
    ;

    /// Reads one record from one item element.
    fn from_node(n: &XmlNode) -> (r: Result<Self, RecordError>)
        ensures
            r is Ok <==> Self::node_ok(n@),
            r matches Ok(rec) ==> Self::matches_node(n@, rec),
            r matches Err(e) ==> e == Self::err_of(n@),
            r matches Err(e) ==> e == RecordError::MissingField || e == RecordError::InvalidFlag
                || e == RecordError::InvalidNumber,
    ;

    /// The CSV cells of this record.
    fn fields(&self) -> (r: Vec<String>)
        ensures
            views_of(r@) == Self::row_of(*self),
    ;

    /// The CSV header row.
    fn header() -> (r: Vec<String>)
        ensures
            views_of(r@) == Self::header_spec(),
    ;
}

/// Whether every item element of a sequence can be read as a `C` record.
pub open spec fn all_nodes_ok<C: CatalogRecord>(cs: Seq<XmlTree>) -> bool {
    forall|i: int| 0 <= i < cs.len() ==> C::node_ok(#[trigger] cs[i])
}

/// The CSV rows of a sequence of item elements.
pub open spec fn rows_of_nodes<C: CatalogRecord>(cs: Seq<XmlTree>) -> Seq<Seq<Seq<char>>> {
    cs.map_values(|n: XmlTree| C::row_of_node(n))
}

/// A catalog table: a header row followed by the record rows, or nothing at
/// all when there are no records.
pub open spec fn catalog_csv(header: Seq<Seq<char>>, rows: Seq<Seq<Seq<char>>>) -> Seq<char> {
    if rows.len() == 0 {
        Seq::empty()
    } else {
        csv_table(seq![header] + rows)
    }
}

/// Reads every item element named `tag` under the root into a record, in
/// document order. A document without a single item of the expected kind is
/// a schema error; otherwise the first unreadable item fails the read, with
/// every item before it readable.
pub fn records_from_document<C: CatalogRecord>(root: &XmlNode, tag: &str) -> (r: Result<
    Vec<C>,
    RecordError,
>)
    ensures
        r is Ok <==> children_named(root@, tag@).len() > 0 && all_nodes_ok::<C>(
            children_named(root@, tag@),
        ),
        r matches Ok(v) ==> {
            let cs = children_named(root@, tag@);
            &&& v@.len() == cs.len()
            &&& forall|i: int| 0 <= i < cs.len() ==> C::matches_node(cs[i], #[trigger] v@[i])
        },
        (r is Err && r->Err_0 == RecordError::MissingList) <==> children_named(root@, tag@).len() == 0,
        r matches Err(e) ==> e == RecordError::MissingList || {
            let cs = children_named(root@, tag@);
            exists|i: int|
                0 <= i < cs.len() && !C::node_ok(#[trigger] cs[i]) && e == C::err_of(cs[i])
                    && (forall|j: int| 0 <= j < i ==> C::node_ok(#[trigger] cs[j]))
        },
{
    let ghost cs = children_named(root@, tag@);
    let ghost mut done: Seq<XmlTree> = Seq::empty();
    let mut out: Vec<C> = Vec::new();
    let mut i: usize = 0;
    assert(forall|j: int|
        0 <= j < root.children@.len() ==> root@.children[j] == #[trigger] root.children@[j]@);
    while i < root.children.len()
        invariant
            0 <= i <= root.children@.len(),
            root@.children.len() == root.children@.len(),
            forall|j: int|
                0 <= j < root.children@.len() ==> root@.children[j] == #[trigger] root.children@[
                    j
                ]@,
            cs == children_named(root@, tag@),
            cs =~= done + children_named_from(root@.children, tag@, i as int),
            out@.len() == done.len(),
            forall|k: int| 0 <= k < done.len() ==> C::node_ok(#[trigger] done[k]),
            forall|k: int| 0 <= k < done.len() ==> C::matches_node(done[k], #[trigger] out@[k]),
        decreases root.children.len() - i,
    {
        let child = &root.children[i];
        if crate::text::chars_eq_str(&child.name, tag) {
            assert(root@.children[i as int] == child@ && child@.name == tag@);
            assert(children_named_from(root@.children, tag@, i as int) == seq![
                root@.children[i as int],
            ] + children_named_from(root@.children, tag@, i as int + 1));
            match C::from_node(child) {
                Ok(rec) => {
                    out.push(rec);
                    proof {
                        done = done.push(child@);
                    }
                    assert(cs =~= done + children_named_from(
                        root@.children,
                        tag@,
                        i as int + 1,
                    ));
                },
                Err(e) => {
                    proof {
                        let bad = done.len() as int;
                        assert(cs[bad] == child@);
                        assert(forall|j: int| 0 <= j < bad ==> cs[j] == done[j]);
                    }
                    return Err(e);
                },
            }
        } else {
            assert(root@.children[i as int] == child@);
            assert(root@.children[i as int].name != tag@);
            assert(children_named_from(root@.children, tag@, i as int) == children_named_from(
                root@.children,
                tag@,
                i as int + 1,
            ));
        }
        i = i + 1;
    }
    assert(children_named_from(root@.children, tag@, root@.children.len() as int)
        =~= Seq::<XmlTree>::empty());
    assert(cs =~= done);
    if out.len() == 0 {
        return Err(RecordError::MissingList);
    }
    Ok(out)
}

/// Renders the catalog table of a parsed document: one row per item element
/// named `tag`, after a header of the semantic field names. A document
/// without a single item of the expected kind is a schema error.
pub fn catalog_csv_from_document<C: CatalogRecord>(root: &XmlNode, tag: &str) -> (r: Result<
    String,
    RecordError,
>)
    ensures
        r is Ok <==> children_named(root@, tag@).len() > 0 && all_nodes_ok::<C>(
            children_named(root@, tag@),
        ),
        r matches Ok(csv) ==> csv@ == catalog_csv(
            C::header_spec(),
            rows_of_nodes::<C>(children_named(root@, tag@)),
        ),
        (r is Err && r->Err_0 == RecordError::MissingList) <==> children_named(root@, tag@).len() == 0,
        r matches Err(e) ==> e == RecordError::MissingList || {
            let cs = children_named(root@, tag@);
            exists|i: int|
                0 <= i < cs.len() && !C::node_ok(#[trigger] cs[i]) && e == C::err_of(cs[i])
        },
{
    let ghost cs = children_named(root@, tag@);
    let records = match records_from_document::<C>(root, tag) {
        Ok(v) => v,
        Err(e) => {
            return Err(e);
        },
    };
    let mut rows: Vec<Vec<String>> = Vec::new();
    rows.push(C::header());
    let mut i: usize = 0;
    while i < records.len()
        invariant
            0 <= i <= records@.len(),
            cs == children_named(root@, tag@),
            records@.len() == cs.len(),
            forall|k: int|
                0 <= k < cs.len() ==> C::matches_node(cs[k], #[trigger] records@[k]),
            all_nodes_ok::<C>(cs),
            rows@.len() == i + 1,
            views_of(rows@[0]@) == C::header_spec(),
            forall|k: int|
                0 <= k < i ==> views_of(#[trigger] rows@[k + 1]@) == C::row_of_node(cs[k]),
        decreases records.len() - i,
    {
        let row = records[i].fields();
        proof {
            C::row_of_matching(cs[i as int], records@[i as int]);
        }
        rows.push(row);
        i = i + 1;
    }
    let csv = csv_table_string(&rows);
    proof {
        let tv = table_views(rows@);
        let expected = seq![C::header_spec()] + rows_of_nodes::<C>(cs);
        assert forall|k: int| 0 <= k < tv.len() implies tv[k] == expected[k] by {
            if k > 0 {
                let j = k - 1;
                assert(views_of(rows@[j + 1]@) == C::row_of_node(cs[j]));
            }
        }
        assert(tv =~= expected);
    }
    Ok(csv)
}

// ---------------------------------------------------------------------------
// ATC: Anatomical Therapeutic Chemical classification codes.
// ---------------------------------------------------------------------------

/// One ATC classification entry.
pub struct AtcRecord {
    pub number: i32,
    pub code: String,
    pub description: String,
}

impl CatalogRecord for AtcRecord {
    open spec fn node_ok(n: XmlTree) -> bool {
        &&& child_text(n, "nroatc"@) is Some
        &&& valid_i32_text(child_text(n, "nroatc"@)->0)
        &&& child_text(n, "codigoatc"@) is Some
        &&& child_text(n, "descatc"@) is Some
    }

    open spec fn matches_node(n: XmlTree, rec: Self) -> bool {
        &&& rec.number as int == signed_value(child_text(n, "nroatc"@)->0)
        &&& rec.code@ == child_text(n, "codigoatc"@)->0
        &&& rec.description@ == child_text(n, "descatc"@)->0
    }

    open spec fn err_of(n: XmlTree) -> RecordError {
        if child_text(n, "nroatc"@) is Some && child_text(n, "codigoatc"@) is Some && child_text(
            n,
            "descatc"@,
        ) is Some {
            RecordError::InvalidNumber
        } else {
            RecordError::MissingField
        }
    }

    open spec fn row_of(rec: Self) -> Seq<Seq<char>> {
        seq![dec_rep_signed(rec.number as int), rec.code@, rec.description@]
    }

    open spec fn row_of_node(n: XmlTree) -> Seq<Seq<char>> {
        seq![
            dec_rep_signed(signed_value(child_text(n, "nroatc"@)->0)),
            child_text(n, "codigoatc"@)->0,
            child_text(n, "descatc"@)->0,
        ]
    }

    open spec fn header_spec() -> Seq<Seq<char>> {
        seq!["number"@, "code"@, "description"@]
    }

    proof fn row_of_matching(n: XmlTree, rec: Self) {
        assert(Self::row_of(rec) =~= Self::row_of_node(n));
    }

    fn from_node(n: &XmlNode) -> (r: Result<Self, RecordError>) {
        let number_text = match find_child_text(n, "nroatc") {
            Some(t) => t,
            None => {
                return Err(RecordError::MissingField);
            },
        };
        let code = match find_child_text(n, "codigoatc") {
            Some(t) => t,
            None => {
                return Err(RecordError::MissingField);
            },
        };
        let description = match find_child_text(n, "descatc") {
            Some(t) => t,
            None => {
                return Err(RecordError::MissingField);
            },
        };
        let digits = str_to_chars(number_text.as_str());
        match parse_i32_chars(&digits) {
            Some(v) => Ok(AtcRecord { number: v, code, description }),
            None => Err(RecordError::InvalidNumber),
        }
    }

    fn fields(&self) -> (r: Vec<String>) {
        let number = chars_to_string(&crate::text::i64_to_chars(self.number as i64));
        let mut r: Vec<String> = Vec::new();
        r.push(number);
        r.push(self.code.clone());
        r.push(self.description.clone());
        assert(views_of(r@) =~= Self::row_of(*self));
        r
    }

    fn header() -> (r: Vec<String>) {
        let mut r: Vec<String> = Vec::new();
        r.push(String::from_str("number"));
        r.push(String::from_str("code"));
        r.push(String::from_str("description"));
        assert(views_of(r@) =~= Self::header_spec());
        r
    }
}

/// The CSV row of an ATC item element after description cleaning.
pub open spec fn atc_clean_row_of_node(n: XmlTree) -> Seq<Seq<char>> {
    let code = child_text(n, "codigoatc"@)->0;
    seq![
        dec_rep_signed(signed_value(child_text(n, "nroatc"@)->0)),
        code,
        cleaned_description(code, child_text(n, "descatc"@)->0),
    ]
}

/// The cleaned CSV rows of a sequence of ATC item elements.
pub open spec fn atc_clean_rows(cs: Seq<XmlTree>) -> Seq<Seq<Seq<char>>> {
    cs.map_values(|n: XmlTree| atc_clean_row_of_node(n))
}

/// Renders the ATC catalog table of a parsed document, stripping the
/// `"{code} - "` prefix from each description. A document without a single
/// ATC item is a schema error.
pub fn atc_csv_from_document(root: &XmlNode) -> (r: Result<String, RecordError>)
    ensures
        r is Ok <==> children_named(root@, "atc"@).len() > 0 && all_nodes_ok::<AtcRecord>(
            children_named(root@, "atc"@),
        ),
        r matches Ok(csv) ==> csv@ == catalog_csv(
            AtcRecord::header_spec(),
            atc_clean_rows(children_named(root@, "atc"@)),
        ),
        (r is Err && r->Err_0 == RecordError::MissingList) <==> children_named(root@, "atc"@).len() == 0,
        r matches Err(e) ==> e == RecordError::MissingList || {
            let cs = children_named(root@, "atc"@);
            exists|i: int|
                0 <= i < cs.len() && !AtcRecord::node_ok(#[trigger] cs[i]) && e
                    == AtcRecord::err_of(cs[i])
        },
{
    let ghost cs = children_named(root@, "atc"@);
    let records = match records_from_document::<AtcRecord>(root, "atc") {
        Ok(v) => v,
        Err(e) => {
            return Err(e);
        },
    };
    let mut rows: Vec<Vec<String>> = Vec::new();
    rows.push(AtcRecord::header());
    let mut i: usize = 0;
    while i < records.len()
        invariant
            0 <= i <= records@.len(),
            cs == children_named(root@, "atc"@),
            records@.len() == cs.len(),
            forall|k: int|
                0 <= k < cs.len() ==> AtcRecord::matches_node(cs[k], #[trigger] records@[k]),
            all_nodes_ok::<AtcRecord>(cs),
            rows@.len() == i + 1,
            views_of(rows@[0]@) == AtcRecord::header_spec(),
            forall|k: int|
                0 <= k < i ==> views_of(#[trigger] rows@[k + 1]@) == atc_clean_row_of_node(cs[k]),
        decreases records.len() - i,
    {
        let rec = &records[i];
        let description = clean_atc_description(rec.code.as_str(), rec.description.as_str());
        let number = chars_to_string(&crate::text::i64_to_chars(rec.number as i64));
        let mut row: Vec<String> = Vec::new();
        row.push(number);
        row.push(rec.code.clone());
        row.push(description);
        assert(views_of(row@) =~= atc_clean_row_of_node(cs[i as int]));
        rows.push(row);
        i = i + 1;
    }
    let csv = csv_table_string(&rows);
    proof {
        let tv = table_views(rows@);
        let expected = seq![AtcRecord::header_spec()] + atc_clean_rows(cs);
        assert forall|k: int| 0 <= k < tv.len() implies tv[k] == expected[k] by {
            if k > 0 {
                let j = k - 1;
                assert(views_of(rows@[j + 1]@) == atc_clean_row_of_node(cs[j]));
            }
        }
        assert(tv =~= expected);
    }
    Ok(csv)
}

/// Whether an ATC text converts: it parses as a document whose root holds
/// at least one readable ATC item element.
pub open spec fn atc_text_ok(s: Seq<char>) -> bool {
    &&& spec_parse_document(s) is Ok
    &&& children_named(spec_parse_document(s)->Ok_0, "atc"@).len() > 0
    &&& all_nodes_ok::<AtcRecord>(children_named(spec_parse_document(s)->Ok_0, "atc"@))
}

/// The cleaned ATC table of a text that converts.
pub open spec fn atc_csv_of_text(s: Seq<char>) -> Seq<char> {
    catalog_csv(
        AtcRecord::header_spec(),
        atc_clean_rows(children_named(spec_parse_document(s)->Ok_0, "atc"@)),
    )
}

/// What a conversion error says of the input text: an XML error is exactly
/// the parse model's verdict; a record error means the document parsed, and
/// it is the missing-list error exactly when the root holds no item of the
/// expected tag.
pub open spec fn convert_err_ok(s: Seq<char>, tag: Seq<char>, e: ConvertError) -> bool {
    match e {
        ConvertError::Xml(xe) => spec_parse_document(s) == Err::<XmlTree, XmlError>(xe),
        ConvertError::Record(re) => spec_parse_document(s) is Ok && ((re
            == RecordError::MissingList) <==> children_named(
            spec_parse_document(s)->Ok_0,
            tag,
        ).len() == 0),
    }
}

/// Parses the ATC XML text and renders its CSV table, with description
/// cleaning: the table is exactly the cleaned catalog table of the document
/// the parse model assigns to the text.
pub fn parse_atc_xml_to_csv(xml: &str) -> (r: Result<String, ConvertError>)
    ensures
        r is Ok <==> atc_text_ok(xml@),
        r matches Ok(csv) ==> csv@ == atc_csv_of_text(xml@),
        r matches Err(e) ==> convert_err_ok(xml@, "atc"@, e),
{
    let root = match parse_document(xml) {
        Ok(v) => v,
        Err(e) => {
            return Err(ConvertError::Xml(e));
        },
    };
    match atc_csv_from_document(&root) {
        Ok(csv) => Ok(csv),
        Err(e) => Err(ConvertError::Record(e)),
    }
}

/// The view of an optional string field as written to CSV.
pub open spec fn opt_view(field: Option<String>) -> Seq<char> {
    match field {
        Some(s) => s@,
        None => Seq::empty(),
    }
}

/// The held string, or a fresh empty one.
pub fn clone_or_empty(field: &Option<String>) -> (r: String)
    ensures
        r@ == opt_view(*field),
{
    match field {
        Some(s) => s.clone(),
        None => String::new(),
    }
}

/// One chemical-pharmaceutical denomination (DCP) entry.
pub struct DcpRecord {
    pub code: String,
    pub name: String,
    pub dcsa_code: String,
}

impl CatalogRecord for DcpRecord {
    open spec fn node_ok(n: XmlTree) -> bool {
        &&& child_text(n, "codigodcp"@) is Some
        &&& child_text(n, "nombredcp"@) is Some
        &&& child_text(n, "codigodcsa"@) is Some
    }

    open spec fn matches_node(n: XmlTree, rec: Self) -> bool {
        &&& rec.code@ == child_text(n, "codigodcp"@)->0
        &&& rec.name@ == child_text(n, "nombredcp"@)->0
        &&& rec.dcsa_code@ == child_text(n, "codigodcsa"@)->0
    }

    open spec fn err_of(n: XmlTree) -> RecordError {
        RecordError::MissingField
    }

    open spec fn row_of(rec: Self) -> Seq<Seq<char>> {
        seq![rec.code@, rec.name@, rec.dcsa_code@]
    }

    open spec fn row_of_node(n: XmlTree) -> Seq<Seq<char>> {
        seq![child_text(n, "codigodcp"@)->0, child_text(n, "nombredcp"@)->0, child_text(n, "codigodcsa"@)->0]
    }

    open spec fn header_spec() -> Seq<Seq<char>> {
        seq!["code"@, "name"@, "dcsa_code"@]
    }

    proof fn row_of_matching(n: XmlTree, rec: Self) {
        assert(Self::row_of(rec) =~= Self::row_of_node(n));
    }

    fn from_node(n: &XmlNode) -> (r: Result<Self, RecordError>) {
        let code = match find_child_text(n, "codigodcp") {
            Some(t) => t,
            None => {
                return Err(RecordError::MissingField);
            },
        };
        let name = match find_child_text(n, "nombredcp") {
            Some(t) => t,
            None => {
                return Err(RecordError::MissingField);
            },
        };
        let dcsa_code = match find_child_text(n, "codigodcsa") {
            Some(t) => t,
            None => {
                return Err(RecordError::MissingField);
            },
        };
        Ok(DcpRecord { code, name, dcsa_code })
    }

    fn fields(&self) -> (r: Vec<String>) {
        let mut r: Vec<String> = Vec::new();
        r.push(self.code.clone());
        r.push(self.name.clone());
        r.push(self.dcsa_code.clone());
        assert(views_of(r@) =~= Self::row_of(*self));
        r
    }

    fn header() -> (r: Vec<String>) {
        let mut r: Vec<String> = Vec::new();
        r.push(String::from_str("code"));
        r.push(String::from_str("name"));
        r.push(String::from_str("dcsa_code"));
        assert(views_of(r@) =~= Self::header_spec());
        r
    }
}

/// One pharmaceutical-form-specific denomination (DCPF) entry.
pub struct DcpfRecord {
    pub code: String,
    pub name: String,
    pub dcp_code: String,
}

impl CatalogRecord for DcpfRecord {
    open spec fn node_ok(n: XmlTree) -> bool {
        &&& child_text(n, "codigodcpf"@) is Some
        &&& child_text(n, "nombredcpf"@) is Some
        &&& child_text(n, "codigodcp"@) is Some
    }

    open spec fn matches_node(n: XmlTree, rec: Self) -> bool {
        &&& rec.code@ == child_text(n, "codigodcpf"@)->0
        &&& rec.name@ == child_text(n, "nombredcpf"@)->0
        &&& rec.dcp_code@ == child_text(n, "codigodcp"@)->0
    }

    open spec fn err_of(n: XmlTree) -> RecordError {
        RecordError::MissingField
    }

    open spec fn row_of(rec: Self) -> Seq<Seq<char>> {
        seq![rec.code@, rec.name@, rec.dcp_code@]
    }

    open spec fn row_of_node(n: XmlTree) -> Seq<Seq<char>> {
        seq![child_text(n, "codigodcpf"@)->0, child_text(n, "nombredcpf"@)->0, child_text(n, "codigodcp"@)->0]
    }

    open spec fn header_spec() -> Seq<Seq<char>> {
        seq!["code"@, "name"@, "dcp_code"@]
    }

    proof fn row_of_matching(n: XmlTree, rec: Self) {
        assert(Self::row_of(rec) =~= Self::row_of_node(n));
    }

    fn from_node(n: &XmlNode) -> (r: Result<Self, RecordError>) {
        let code = match find_child_text(n, "codigodcpf") {
            Some(t) => t,
            None => {
                return Err(RecordError::MissingField);
            },
        };
        let name = match find_child_text(n, "nombredcpf") {
            Some(t) => t,
            None => {
                return Err(RecordError::MissingField);
            },
        };
        let dcp_code = match find_child_text(n, "codigodcp") {
            Some(t) => t,
            None => {
                return Err(RecordError::MissingField);
            },
        };
        Ok(DcpfRecord { code, name, dcp_code })
    }

    fn fields(&self) -> (r: Vec<String>) {
        let mut r: Vec<String> = Vec::new();
        r.push(self.code.clone());
        r.push(self.name.clone());
        r.push(self.dcp_code.clone());
        assert(views_of(r@) =~= Self::row_of(*self));
        r
    }

    fn header() -> (r: Vec<String>) {
        let mut r: Vec<String> = Vec::new();
        r.push(String::from_str("code"));
        r.push(String::from_str("name"));
        r.push(String::from_str("dcp_code"));
        assert(views_of(r@) =~= Self::header_spec());
        r
    }
}

/// One substance-denomination (DCSA) entry.
pub struct DcsaRecord {
    pub code: String,
    pub name: String,
}

impl CatalogRecord for DcsaRecord {
    open spec fn node_ok(n: XmlTree) -> bool {
        &&& child_text(n, "codigodcsa"@) is Some
        &&& child_text(n, "nombredcsa"@) is Some
    }

    open spec fn matches_node(n: XmlTree, rec: Self) -> bool {
        &&& rec.code@ == child_text(n, "codigodcsa"@)->0
        &&& rec.name@ == child_text(n, "nombredcsa"@)->0
    }

    open spec fn err_of(n: XmlTree) -> RecordError {
        RecordError::MissingField
    }

    open spec fn row_of(rec: Self) -> Seq<Seq<char>> {
        seq![rec.code@, rec.name@]
    }

    open spec fn row_of_node(n: XmlTree) -> Seq<Seq<char>> {
        seq![child_text(n, "codigodcsa"@)->0, child_text(n, "nombredcsa"@)->0]
    }

    open spec fn header_spec() -> Seq<Seq<char>> {
        seq!["code"@, "name"@]
    }

    proof fn row_of_matching(n: XmlTree, rec: Self) {
        assert(Self::row_of(rec) =~= Self::row_of_node(n));
    }

    fn from_node(n: &XmlNode) -> (r: Result<Self, RecordError>) {
        let code = match find_child_text(n, "codigodcsa") {
            Some(t) => t,
            None => {
                return Err(RecordError::MissingField);
            },
        };
        let name = match find_child_text(n, "nombredcsa") {
            Some(t) => t,
            None => {
                return Err(RecordError::MissingField);
            },
        };
        Ok(DcsaRecord { code, name })
    }

    fn fields(&self) -> (r: Vec<String>) {
        let mut r: Vec<String> = Vec::new();
        r.push(self.code.clone());
        r.push(self.name.clone());
        assert(views_of(r@) =~= Self::row_of(*self));
        r
    }

    fn header() -> (r: Vec<String>) {
        let mut r: Vec<String> = Vec::new();
        r.push(String::from_str("code"));
        r.push(String::from_str("name"));
        assert(views_of(r@) =~= Self::header_spec());
        r
    }
}

/// One container-type entry.
pub struct ContainerRecord {
    pub code: String,
    pub name: String,
}

impl CatalogRecord for ContainerRecord {
    open spec fn node_ok(n: XmlTree) -> bool {
        &&& child_text(n, "codigoenvase"@) is Some
        &&& child_text(n, "envase"@) is Some
    }

    open spec fn matches_node(n: XmlTree, rec: Self) -> bool {
        &&& rec.code@ == child_text(n, "codigoenvase"@)->0
        &&& rec.name@ == child_text(n, "envase"@)->0
    }

    open spec fn err_of(n: XmlTree) -> RecordError {
        RecordError::MissingField
    }

    open spec fn row_of(rec: Self) -> Seq<Seq<char>> {
        seq![rec.code@, rec.name@]
    }

    open spec fn row_of_node(n: XmlTree) -> Seq<Seq<char>> {
        seq![child_text(n, "codigoenvase"@)->0, child_text(n, "envase"@)->0]
    }

    open spec fn header_spec() -> Seq<Seq<char>> {
        seq!["code"@, "name"@]
    }

    proof fn row_of_matching(n: XmlTree, rec: Self) {
        assert(Self::row_of(rec) =~= Self::row_of_node(n));
    }

    fn from_node(n: &XmlNode) -> (r: Result<Self, RecordError>) {
        let code = match find_child_text(n, "codigoenvase") {
            Some(t) => t,
            None => {
                return Err(RecordError::MissingField);
            },
        };
        let name = match find_child_text(n, "envase") {
            Some(t) => t,
            None => {
                return Err(RecordError::MissingField);
            },
        };
        Ok(ContainerRecord { code, name })
    }

    fn fields(&self) -> (r: Vec<String>) {
        let mut r: Vec<String> = Vec::new();
        r.push(self.code.clone());
        r.push(self.name.clone());
        assert(views_of(r@) =~= Self::row_of(*self));
        r
    }

    fn header() -> (r: Vec<String>) {
        let mut r: Vec<String> = Vec::new();
        r.push(String::from_str("code"));
        r.push(String::from_str("name"));
        assert(views_of(r@) =~= Self::header_spec());
        r
    }
}

/// One mandatory-declaration excipient entry.
pub struct ExcipientRecord {
    pub code: String,
    pub name: String,
}

impl CatalogRecord for ExcipientRecord {
    open spec fn node_ok(n: XmlTree) -> bool {
        &&& child_text(n, "codigoedo"@) is Some
        &&& child_text(n, "edo"@) is Some
    }

    open spec fn matches_node(n: XmlTree, rec: Self) -> bool {
        &&& rec.code@ == child_text(n, "codigoedo"@)->0
        &&& rec.name@ == child_text(n, "edo"@)->0
    }

    open spec fn err_of(n: XmlTree) -> RecordError {
        RecordError::MissingField
    }

    open spec fn row_of(rec: Self) -> Seq<Seq<char>> {
        seq![rec.code@, rec.name@]
    }

    open spec fn row_of_node(n: XmlTree) -> Seq<Seq<char>> {
        seq![child_text(n, "codigoedo"@)->0, child_text(n, "edo"@)->0]
    }

    open spec fn header_spec() -> Seq<Seq<char>> {
        seq!["code"@, "name"@]
    }

    proof fn row_of_matching(n: XmlTree, rec: Self) {
        assert(Self::row_of(rec) =~= Self::row_of_node(n));
    }

    fn from_node(n: &XmlNode) -> (r: Result<Self, RecordError>) {
        let code = match find_child_text(n, "codigoedo") {
            Some(t) => t,
            None => {
                return Err(RecordError::MissingField);
            },
        };
        let name = match find_child_text(n, "edo") {
            Some(t) => t,
            None => {
                return Err(RecordError::MissingField);
            },
        };
        Ok(ExcipientRecord { code, name })
    }

    fn fields(&self) -> (r: Vec<String>) {
        let mut r: Vec<String> = Vec::new();
        r.push(self.code.clone());
        r.push(self.name.clone());
        assert(views_of(r@) =~= Self::row_of(*self));
        r
    }

    fn header() -> (r: Vec<String>) {
        let mut r: Vec<String> = Vec::new();
        r.push(String::from_str("code"));
        r.push(String::from_str("name"));
        assert(views_of(r@) =~= Self::header_spec());
        r
    }
}

/// One pharmaceutical-form entry.
pub struct PharmaceuticalFormRecord {
    pub code: String,
    pub name: String,
    pub simplified_code: String,
}

impl CatalogRecord for PharmaceuticalFormRecord {
    open spec fn node_ok(n: XmlTree) -> bool {
        &&& child_text(n, "codigoformafarmaceutica"@) is Some
        &&& child_text(n, "formafarmaceutica"@) is Some
        &&& child_text(n, "codigoformafarmaceuticasimplificada"@) is Some
    }

    open spec fn matches_node(n: XmlTree, rec: Self) -> bool {
        &&& rec.code@ == child_text(n, "codigoformafarmaceutica"@)->0
        &&& rec.name@ == child_text(n, "formafarmaceutica"@)->0
        &&& rec.simplified_code@ == child_text(n, "codigoformafarmaceuticasimplificada"@)->0
    }

    open spec fn err_of(n: XmlTree) -> RecordError {
        RecordError::MissingField
    }

    open spec fn row_of(rec: Self) -> Seq<Seq<char>> {
        seq![rec.code@, rec.name@, rec.simplified_code@]
    }

    open spec fn row_of_node(n: XmlTree) -> Seq<Seq<char>> {
        seq![child_text(n, "codigoformafarmaceutica"@)->0, child_text(n, "formafarmaceutica"@)->0, child_text(n, "codigoformafarmaceuticasimplificada"@)->0]
    }

    open spec fn header_spec() -> Seq<Seq<char>> {
        seq!["code"@, "name"@, "simplified_code"@]
    }

    proof fn row_of_matching(n: XmlTree, rec: Self) {
        assert(Self::row_of(rec) =~= Self::row_of_node(n));
    }

    fn from_node(n: &XmlNode) -> (r: Result<Self, RecordError>) {
        let code = match find_child_text(n, "codigoformafarmaceutica") {
            Some(t) => t,
            None => {
                return Err(RecordError::MissingField);
            },
        };
        let name = match find_child_text(n, "formafarmaceutica") {
            Some(t) => t,
            None => {
                return Err(RecordError::MissingField);
            },
        };
        let simplified_code = match find_child_text(n, "codigoformafarmaceuticasimplificada") {
            Some(t) => t,
            None => {
                return Err(RecordError::MissingField);
            },
        };
        Ok(PharmaceuticalFormRecord { code, name, simplified_code })
    }

    fn fields(&self) -> (r: Vec<String>) {
        let mut r: Vec<String> = Vec::new();
        r.push(self.code.clone());
        r.push(self.name.clone());
        r.push(self.simplified_code.clone());
        assert(views_of(r@) =~= Self::row_of(*self));
        r
    }

    fn header() -> (r: Vec<String>) {
        let mut r: Vec<String> = Vec::new();
        r.push(String::from_str("code"));
        r.push(String::from_str("name"));
        r.push(String::from_str("simplified_code"));
        assert(views_of(r@) =~= Self::header_spec());
        r
    }
}

/// One simplified pharmaceutical-form entry.
pub struct SimplifiedPharmaceuticalFormRecord {
    pub code: String,
    pub name: String,
}

impl CatalogRecord for SimplifiedPharmaceuticalFormRecord {
    open spec fn node_ok(n: XmlTree) -> bool {
        &&& child_text(n, "codigoformafarmaceuticasimplificada"@) is Some
        &&& child_text(n, "formafarmaceuticasimplificada"@) is Some
    }

    open spec fn matches_node(n: XmlTree, rec: Self) -> bool {
        &&& rec.code@ == child_text(n, "codigoformafarmaceuticasimplificada"@)->0
        &&& rec.name@ == child_text(n, "formafarmaceuticasimplificada"@)->0
    }

    open spec fn err_of(n: XmlTree) -> RecordError {
        RecordError::MissingField
    }

    open spec fn row_of(rec: Self) -> Seq<Seq<char>> {
        seq![rec.code@, rec.name@]
    }

    open spec fn row_of_node(n: XmlTree) -> Seq<Seq<char>> {
        seq![child_text(n, "codigoformafarmaceuticasimplificada"@)->0, child_text(n, "formafarmaceuticasimplificada"@)->0]
    }

    open spec fn header_spec() -> Seq<Seq<char>> {
        seq!["code"@, "name"@]
    }

    proof fn row_of_matching(n: XmlTree, rec: Self) {
        assert(Self::row_of(rec) =~= Self::row_of_node(n));
    }

    fn from_node(n: &XmlNode) -> (r: Result<Self, RecordError>) {
        let code = match find_child_text(n, "codigoformafarmaceuticasimplificada") {
            Some(t) => t,
            None => {
                return Err(RecordError::MissingField);
            },
        };
        let name = match find_child_text(n, "formafarmaceuticasimplificada") {
            Some(t) => t,
            None => {
                return Err(RecordError::MissingField);
            },
        };
        Ok(SimplifiedPharmaceuticalFormRecord { code, name })
    }

    fn fields(&self) -> (r: Vec<String>) {
        let mut r: Vec<String> = Vec::new();
        r.push(self.code.clone());
        r.push(self.name.clone());
        assert(views_of(r@) =~= Self::row_of(*self));
        r
    }

    fn header() -> (r: Vec<String>) {
        let mut r: Vec<String> = Vec::new();
        r.push(String::from_str("code"));
        r.push(String::from_str("name"));
        assert(views_of(r@) =~= Self::header_spec());
        r
    }
}

/// One active-ingredient dictionary entry.
pub struct ActiveIngridientRecord {
    pub number: String,
    pub code: String,
    pub name: String,
}

impl CatalogRecord for ActiveIngridientRecord {
    open spec fn node_ok(n: XmlTree) -> bool {
        &&& child_text(n, "nroprincipioactivo"@) is Some
        &&& child_text(n, "codigoprincipioactivo"@) is Some
        &&& child_text(n, "principioactivo"@) is Some
    }

    open spec fn matches_node(n: XmlTree, rec: Self) -> bool {
        &&& rec.number@ == child_text(n, "nroprincipioactivo"@)->0
        &&& rec.code@ == child_text(n, "codigoprincipioactivo"@)->0
        &&& rec.name@ == child_text(n, "principioactivo"@)->0
    }

    open spec fn err_of(n: XmlTree) -> RecordError {
        RecordError::MissingField
    }

    open spec fn row_of(rec: Self) -> Seq<Seq<char>> {
        seq![rec.number@, rec.code@, rec.name@]
    }

    open spec fn row_of_node(n: XmlTree) -> Seq<Seq<char>> {
        seq![child_text(n, "nroprincipioactivo"@)->0, child_text(n, "codigoprincipioactivo"@)->0, child_text(n, "principioactivo"@)->0]
    }

    open spec fn header_spec() -> Seq<Seq<char>> {
        seq!["number"@, "code"@, "name"@]
    }

    proof fn row_of_matching(n: XmlTree, rec: Self) {
        assert(Self::row_of(rec) =~= Self::row_of_node(n));
    }

    fn from_node(n: &XmlNode) -> (r: Result<Self, RecordError>) {
        let number = match find_child_text(n, "nroprincipioactivo") {
            Some(t) => t,
            None => {
                return Err(RecordError::MissingField);
            },
        };
        let code = match find_child_text(n, "codigoprincipioactivo") {
            Some(t) => t,
            None => {
                return Err(RecordError::MissingField);
            },
        };
        let name = match find_child_text(n, "principioactivo") {
            Some(t) => t,
            None => {
                return Err(RecordError::MissingField);
            },
        };
        Ok(ActiveIngridientRecord { number, code, name })
    }

    fn fields(&self) -> (r: Vec<String>) {
        let mut r: Vec<String> = Vec::new();
        r.push(self.number.clone());
        r.push(self.code.clone());
        r.push(self.name.clone());
        assert(views_of(r@) =~= Self::row_of(*self));
        r
    }

    fn header() -> (r: Vec<String>) {
        let mut r: Vec<String> = Vec::new();
        r.push(String::from_str("number"));
        r.push(String::from_str("code"));
        r.push(String::from_str("name"));
        assert(views_of(r@) =~= Self::header_spec());
        r
    }
}

/// One registration-status entry.
pub struct RegistrationStatusRecord {
    pub code: String,
    pub name: String,
}

impl CatalogRecord for RegistrationStatusRecord {
    open spec fn node_ok(n: XmlTree) -> bool {
        &&& child_text(n, "codigosituacionregistro"@) is Some
        &&& child_text(n, "situacionregistro"@) is Some
    }

    open spec fn matches_node(n: XmlTree, rec: Self) -> bool {
        &&& rec.code@ == child_text(n, "codigosituacionregistro"@)->0
        &&& rec.name@ == child_text(n, "situacionregistro"@)->0
    }

    open spec fn err_of(n: XmlTree) -> RecordError {
        RecordError::MissingField
    }

    open spec fn row_of(rec: Self) -> Seq<Seq<char>> {
        seq![rec.code@, rec.name@]
    }

    open spec fn row_of_node(n: XmlTree) -> Seq<Seq<char>> {
        seq![child_text(n, "codigosituacionregistro"@)->0, child_text(n, "situacionregistro"@)->0]
    }

    open spec fn header_spec() -> Seq<Seq<char>> {
        seq!["code"@, "name"@]
    }

    proof fn row_of_matching(n: XmlTree, rec: Self) {
        assert(Self::row_of(rec) =~= Self::row_of_node(n));
    }

    fn from_node(n: &XmlNode) -> (r: Result<Self, RecordError>) {
        let code = match find_child_text(n, "codigosituacionregistro") {
            Some(t) => t,
            None => {
                return Err(RecordError::MissingField);
            },
        };
        let name = match find_child_text(n, "situacionregistro") {
            Some(t) => t,
            None => {
                return Err(RecordError::MissingField);
            },
        };
        Ok(RegistrationStatusRecord { code, name })
    }

    fn fields(&self) -> (r: Vec<String>) {
        let mut r: Vec<String> = Vec::new();
        r.push(self.code.clone());
        r.push(self.name.clone());
        assert(views_of(r@) =~= Self::row_of(*self));
        r
    }

    fn header() -> (r: Vec<String>) {
        let mut r: Vec<String> = Vec::new();
        r.push(String::from_str("code"));
        r.push(String::from_str("name"));
        assert(views_of(r@) =~= Self::header_spec());
        r
    }
}

/// One content-unit entry.
pub struct ContainerUnitRecord {
    pub code: String,
    pub name: String,
}

impl CatalogRecord for ContainerUnitRecord {
    open spec fn node_ok(n: XmlTree) -> bool {
        &&& child_text(n, "codigounidadcontenido"@) is Some
        &&& child_text(n, "unidadcontenido"@) is Some
    }

    open spec fn matches_node(n: XmlTree, rec: Self) -> bool {
        &&& rec.code@ == child_text(n, "codigounidadcontenido"@)->0
        &&& rec.name@ == child_text(n, "unidadcontenido"@)->0
    }

    open spec fn err_of(n: XmlTree) -> RecordError {
        RecordError::MissingField
    }

    open spec fn row_of(rec: Self) -> Seq<Seq<char>> {
        seq![rec.code@, rec.name@]
    }

    open spec fn row_of_node(n: XmlTree) -> Seq<Seq<char>> {
        seq![child_text(n, "codigounidadcontenido"@)->0, child_text(n, "unidadcontenido"@)->0]
    }

    open spec fn header_spec() -> Seq<Seq<char>> {
        seq!["code"@, "name"@]
    }

    proof fn row_of_matching(n: XmlTree, rec: Self) {
        assert(Self::row_of(rec) =~= Self::row_of_node(n));
    }

    fn from_node(n: &XmlNode) -> (r: Result<Self, RecordError>) {
        let code = match find_child_text(n, "codigounidadcontenido") {
            Some(t) => t,
            None => {
                return Err(RecordError::MissingField);
            },
        };
        let name = match find_child_text(n, "unidadcontenido") {
            Some(t) => t,
            None => {
                return Err(RecordError::MissingField);
            },
        };
        Ok(ContainerUnitRecord { code, name })
    }

    fn fields(&self) -> (r: Vec<String>) {
        let mut r: Vec<String> = Vec::new();
        r.push(self.code.clone());
        r.push(self.name.clone());
        assert(views_of(r@) =~= Self::row_of(*self));
        r
    }

    fn header() -> (r: Vec<String>) {
        let mut r: Vec<String> = Vec::new();
        r.push(String::from_str("code"));
        r.push(String::from_str("name"));
        assert(views_of(r@) =~= Self::header_spec());
        r
    }
}

/// One administration-route entry.
pub struct AdministrationRouteRecord {
    pub code: String,
    pub name: String,
}

impl CatalogRecord for AdministrationRouteRecord {
    open spec fn node_ok(n: XmlTree) -> bool {
        &&& child_text(n, "codigoviaadministracion"@) is Some
        &&& child_text(n, "viaadministracion"@) is Some
    }

    open spec fn matches_node(n: XmlTree, rec: Self) -> bool {
        &&& rec.code@ == child_text(n, "codigoviaadministracion"@)->0
        &&& rec.name@ == child_text(n, "viaadministracion"@)->0
    }

    open spec fn err_of(n: XmlTree) -> RecordError {
        RecordError::MissingField
    }

    open spec fn row_of(rec: Self) -> Seq<Seq<char>> {
        seq![rec.code@, rec.name@]
    }

    open spec fn row_of_node(n: XmlTree) -> Seq<Seq<char>> {
        seq![child_text(n, "codigoviaadministracion"@)->0, child_text(n, "viaadministracion"@)->0]
    }

    open spec fn header_spec() -> Seq<Seq<char>> {
        seq!["code"@, "name"@]
    }

    proof fn row_of_matching(n: XmlTree, rec: Self) {
        assert(Self::row_of(rec) =~= Self::row_of_node(n));
    }

    fn from_node(n: &XmlNode) -> (r: Result<Self, RecordError>) {
        let code = match find_child_text(n, "codigoviaadministracion") {
            Some(t) => t,
            None => {
                return Err(RecordError::MissingField);
            },
        };
        let name = match find_child_text(n, "viaadministracion") {
            Some(t) => t,
            None => {
                return Err(RecordError::MissingField);
            },
        };
        Ok(AdministrationRouteRecord { code, name })
    }

    fn fields(&self) -> (r: Vec<String>) {
        let mut r: Vec<String> = Vec::new();
        r.push(self.code.clone());
        r.push(self.name.clone());
        assert(views_of(r@) =~= Self::row_of(*self));
        r
    }

    fn header() -> (r: Vec<String>) {
        let mut r: Vec<String> = Vec::new();
        r.push(String::from_str("code"));
        r.push(String::from_str("name"));
        assert(views_of(r@) =~= Self::header_spec());
        r
    }
}

/// One laboratory entry; address, postal code, city and VAT number are
/// optional and appear as empty CSV cells when absent.
pub struct LaboratoryRecord {
    pub code: String,
    pub name: String,
    pub address: Option<String>,
    pub zip: Option<String>,
    pub city: Option<String>,
    pub vat: Option<String>,
}

impl CatalogRecord for LaboratoryRecord {
    open spec fn node_ok(n: XmlTree) -> bool {
        &&& child_text(n, "codigolaboratorio"@) is Some
        &&& child_text(n, "laboratorio"@) is Some
    }

    open spec fn matches_node(n: XmlTree, rec: Self) -> bool {
        &&& rec.code@ == child_text(n, "codigolaboratorio"@)->0
        &&& rec.name@ == child_text(n, "laboratorio"@)->0
        &&& opt_matches(rec.address, child_text(n, "direccion"@))
        &&& opt_matches(rec.zip, child_text(n, "codigopostal"@))
        &&& opt_matches(rec.city, child_text(n, "localidad"@))
        &&& opt_matches(rec.vat, child_text(n, "cif"@))
    }

    open spec fn err_of(n: XmlTree) -> RecordError {
        RecordError::MissingField
    }

    open spec fn row_of(rec: Self) -> Seq<Seq<char>> {
        seq![
            rec.code@,
            rec.name@,
            opt_view(rec.address),
            opt_view(rec.zip),
            opt_view(rec.city),
            opt_view(rec.vat),
        ]
    }

    open spec fn row_of_node(n: XmlTree) -> Seq<Seq<char>> {
        seq![
            child_text(n, "codigolaboratorio"@)->0,
            child_text(n, "laboratorio"@)->0,
            opt_text(child_text(n, "direccion"@)),
            opt_text(child_text(n, "codigopostal"@)),
            opt_text(child_text(n, "localidad"@)),
            opt_text(child_text(n, "cif"@)),
        ]
    }

    open spec fn header_spec() -> Seq<Seq<char>> {
        seq!["code"@, "name"@, "address"@, "zip"@, "city"@, "vat"@]
    }

    proof fn row_of_matching(n: XmlTree, rec: Self) {
        assert(Self::row_of(rec) =~= Self::row_of_node(n));
    }

    fn from_node(n: &XmlNode) -> (r: Result<Self, RecordError>) {
        let code = match find_child_text(n, "codigolaboratorio") {
            Some(t) => t,
            None => {
                return Err(RecordError::MissingField);
            },
        };
        let name = match find_child_text(n, "laboratorio") {
            Some(t) => t,
            None => {
                return Err(RecordError::MissingField);
            },
        };
        let address = find_child_text(n, "direccion");
        let zip = find_child_text(n, "codigopostal");
        let city = find_child_text(n, "localidad");
        let vat = find_child_text(n, "cif");
        Ok(LaboratoryRecord { code, name, address, zip, city, vat })
    }

    fn fields(&self) -> (r: Vec<String>) {
        let mut r: Vec<String> = Vec::new();
        r.push(self.code.clone());
        r.push(self.name.clone());
        r.push(clone_or_empty(&self.address));
        r.push(clone_or_empty(&self.zip));
        r.push(clone_or_empty(&self.city));
        r.push(clone_or_empty(&self.vat));
        assert(views_of(r@) =~= Self::row_of(*self));
        r
    }

    fn header() -> (r: Vec<String>) {
        let mut r: Vec<String> = Vec::new();
        r.push(String::from_str("code"));
        r.push(String::from_str("name"));
        r.push(String::from_str("address"));
        r.push(String::from_str("zip"));
        r.push(String::from_str("city"));
        r.push(String::from_str("vat"));
        assert(views_of(r@) =~= Self::header_spec());
        r
    }
}

/// Whether a catalog text converts: it parses as a document whose root
/// holds at least one readable item element named `tag`.
pub open spec fn catalog_text_ok<C: CatalogRecord>(s: Seq<char>, tag: Seq<char>) -> bool {
    &&& spec_parse_document(s) is Ok
    &&& children_named(spec_parse_document(s)->Ok_0, tag).len() > 0
    &&& all_nodes_ok::<C>(children_named(spec_parse_document(s)->Ok_0, tag))
}

/// The catalog table of a text that converts.
pub open spec fn catalog_csv_of_text<C: CatalogRecord>(s: Seq<char>, tag: Seq<char>) -> Seq<
    char,
> {
    catalog_csv(
        C::header_spec(),
        rows_of_nodes::<C>(children_named(spec_parse_document(s)->Ok_0, tag)),
    )
}

/// Parses one flat catalog XML text and renders its CSV table: the table is
/// exactly the catalog table — one row per item element named `tag`, after a
/// header of the semantic field names — of the document the parse model
/// assigns to the text.
pub fn parse_catalog_xml_to_csv<C: CatalogRecord>(xml: &str, tag: &str) -> (r: Result<
    String,
    ConvertError,
>)
    ensures
        r is Ok <==> catalog_text_ok::<C>(xml@, tag@),
        r matches Ok(csv) ==> csv@ == catalog_csv_of_text::<C>(xml@, tag@),
        r matches Err(e) ==> convert_err_ok(xml@, tag@, e),
{
    let root = match parse_document(xml) {
        Ok(v) => v,
        Err(e) => {
            return Err(ConvertError::Xml(e));
        },
    };
    match catalog_csv_from_document::<C>(&root, tag) {
        Ok(csv) => Ok(csv),
        Err(e) => Err(ConvertError::Record(e)),
    }
}

/// Parses the DCP catalog XML text and renders its CSV table.
pub fn parse_dcp_xml_to_csv(xml: &str) -> (r: Result<String, ConvertError>)
    ensures
        r is Ok <==> catalog_text_ok::<DcpRecord>(xml@, "dcp"@),
        r matches Ok(csv) ==> csv@ == catalog_csv_of_text::<DcpRecord>(xml@, "dcp"@),
        r matches Err(e) ==> convert_err_ok(xml@, "dcp"@, e),
{
    parse_catalog_xml_to_csv::<DcpRecord>(xml, "dcp")
}

/// Parses the DCPF catalog XML text and renders its CSV table.
pub fn parse_dcpf_xml_to_csv(xml: &str) -> (r: Result<String, ConvertError>)
    ensures
        r is Ok <==> catalog_text_ok::<DcpfRecord>(xml@, "dcpf"@),
        r matches Ok(csv) ==> csv@ == catalog_csv_of_text::<DcpfRecord>(xml@, "dcpf"@),
        r matches Err(e) ==> convert_err_ok(xml@, "dcpf"@, e),
{
    parse_catalog_xml_to_csv::<DcpfRecord>(xml, "dcpf")
}

/// Parses the DCSA catalog XML text and renders its CSV table.
pub fn parse_dcsa_xml_to_csv(xml: &str) -> (r: Result<String, ConvertError>)
    ensures
        r is Ok <==> catalog_text_ok::<DcsaRecord>(xml@, "dcsa"@),
        r matches Ok(csv) ==> csv@ == catalog_csv_of_text::<DcsaRecord>(xml@, "dcsa"@),
        r matches Err(e) ==> convert_err_ok(xml@, "dcsa"@, e),
{
    parse_catalog_xml_to_csv::<DcsaRecord>(xml, "dcsa")
}

/// Parses the container catalog XML text and renders its CSV table.
pub fn parse_envases_xml_to_csv(xml: &str) -> (r: Result<String, ConvertError>)
    ensures
        r is Ok <==> catalog_text_ok::<ContainerRecord>(xml@, "envases"@),
        r matches Ok(csv) ==> csv@ == catalog_csv_of_text::<ContainerRecord>(xml@, "envases"@),
        r matches Err(e) ==> convert_err_ok(xml@, "envases"@, e),
{
    parse_catalog_xml_to_csv::<ContainerRecord>(xml, "envases")
}

/// Parses the excipient catalog XML text and renders its CSV table.
pub fn parse_excipientes_xml_to_csv(xml: &str) -> (r: Result<String, ConvertError>)
    ensures
        r is Ok <==> catalog_text_ok::<ExcipientRecord>(xml@, "excipientes"@),
        r matches Ok(csv) ==> csv@ == catalog_csv_of_text::<ExcipientRecord>(xml@, "excipientes"@),
        r matches Err(e) ==> convert_err_ok(xml@, "excipientes"@, e),
{
    parse_catalog_xml_to_csv::<ExcipientRecord>(xml, "excipientes")
}

/// Parses the pharmaceutical-form catalog XML text and renders its CSV table.
pub fn parse_forma_farmaceutica_xml_to_csv(xml: &str) -> (r: Result<String, ConvertError>)
    ensures
        r is Ok <==> catalog_text_ok::<PharmaceuticalFormRecord>(xml@, "formasfarmaceuticas"@),
        r matches Ok(csv) ==> csv@ == catalog_csv_of_text::<PharmaceuticalFormRecord>(xml@, "formasfarmaceuticas"@),
        r matches Err(e) ==> convert_err_ok(xml@, "formasfarmaceuticas"@, e),
{
    parse_catalog_xml_to_csv::<PharmaceuticalFormRecord>(xml, "formasfarmaceuticas")
}

/// Parses the simplified pharmaceutical-form catalog XML text and renders its CSV table.
pub fn parse_forma_farmaceutica_simplificada_xml_to_csv(xml: &str) -> (r: Result<String, ConvertError>)
    ensures
        r is Ok <==> catalog_text_ok::<SimplifiedPharmaceuticalFormRecord>(xml@, "formasfarmaceuticassimplificadas"@),
        r matches Ok(csv) ==> csv@ == catalog_csv_of_text::<SimplifiedPharmaceuticalFormRecord>(xml@, "formasfarmaceuticassimplificadas"@),
        r matches Err(e) ==> convert_err_ok(xml@, "formasfarmaceuticassimplificadas"@, e),
{
    parse_catalog_xml_to_csv::<SimplifiedPharmaceuticalFormRecord>(xml, "formasfarmaceuticassimplificadas")
}

/// Parses the laboratory catalog XML text and renders its CSV table.
pub fn parse_laboratorio_xml_to_csv(xml: &str) -> (r: Result<String, ConvertError>)
    ensures
        r is Ok <==> catalog_text_ok::<LaboratoryRecord>(xml@, "laboratorios"@),
        r matches Ok(csv) ==> csv@ == catalog_csv_of_text::<LaboratoryRecord>(xml@, "laboratorios"@),
        r matches Err(e) ==> convert_err_ok(xml@, "laboratorios"@, e),
{
    parse_catalog_xml_to_csv::<LaboratoryRecord>(xml, "laboratorios")
}

/// Parses the active-ingredient catalog XML text and renders its CSV table.
pub fn parse_principio_activo_xml_to_csv(xml: &str) -> (r: Result<String, ConvertError>)
    ensures
        r is Ok <==> catalog_text_ok::<ActiveIngridientRecord>(xml@, "principiosactivos"@),
        r matches Ok(csv) ==> csv@ == catalog_csv_of_text::<ActiveIngridientRecord>(xml@, "principiosactivos"@),
        r matches Err(e) ==> convert_err_ok(xml@, "principiosactivos"@, e),
{
    parse_catalog_xml_to_csv::<ActiveIngridientRecord>(xml, "principiosactivos")
}

/// Parses the registration-status catalog XML text and renders its CSV table.
pub fn parse_situacion_registro_xml_to_csv(xml: &str) -> (r: Result<String, ConvertError>)
    ensures
        r is Ok <==> catalog_text_ok::<RegistrationStatusRecord>(xml@, "situacionesregistro"@),
        r matches Ok(csv) ==> csv@ == catalog_csv_of_text::<RegistrationStatusRecord>(xml@, "situacionesregistro"@),
        r matches Err(e) ==> convert_err_ok(xml@, "situacionesregistro"@, e),
{
    parse_catalog_xml_to_csv::<RegistrationStatusRecord>(xml, "situacionesregistro")
}

/// Parses the content-unit catalog XML text and renders its CSV table.
pub fn parse_unidad_contenido_xml_to_csv(xml: &str) -> (r: Result<String, ConvertError>)
    ensures
        r is Ok <==> catalog_text_ok::<ContainerUnitRecord>(xml@, "unidadescontenido"@),
        r matches Ok(csv) ==> csv@ == catalog_csv_of_text::<ContainerUnitRecord>(xml@, "unidadescontenido"@),
        r matches Err(e) ==> convert_err_ok(xml@, "unidadescontenido"@, e),
{
    parse_catalog_xml_to_csv::<ContainerUnitRecord>(xml, "unidadescontenido")
}

/// Parses the administration-route catalog XML text and renders its CSV table.
pub fn parse_via_administracion_xml_to_csv(xml: &str) -> (r: Result<String, ConvertError>)
    ensures
        r is Ok <==> catalog_text_ok::<AdministrationRouteRecord>(xml@, "viasadministracion"@),
        r matches Ok(csv) ==> csv@ == catalog_csv_of_text::<AdministrationRouteRecord>(xml@, "viasadministracion"@),
        r matches Err(e) ==> convert_err_ok(xml@, "viasadministracion"@, e),
{
    parse_catalog_xml_to_csv::<AdministrationRouteRecord>(xml, "viasadministracion")
}

/// A catalog table has exactly one row per item element: converting a
/// document with that many well-formed items yields that many record rows,
/// after the header.
pub proof fn lemma_catalog_row_count<C: CatalogRecord>(cs: Seq<XmlTree>)
    ensures
        rows_of_nodes::<C>(cs).len() == cs.len(),
{
}

/// Every row of the laboratory table has exactly six cells, whether or not
/// the optional address, postal code, city and VAT fields are present:
/// absent fields become empty cells, never missing columns.
pub proof fn lemma_laboratory_rows_uniform(cs: Seq<XmlTree>)
    ensures
        forall|i: int|
            0 <= i < cs.len() ==> (#[trigger] LaboratoryRecord::row_of_node(cs[i])).len() == 6,
{
}

} // verus!
