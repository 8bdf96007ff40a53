//! A small XML reader for the nomenclator dump files: elements with nested
//! children and text content, processing instructions, comments and the five
//! predefined entities. Attributes are accepted and skipped — the dump
//! carries all its data in element text. The reader is specified by a
//! mathematical model of the parse, [`spec_parse_document`]: it returns
//! exactly the element tree (or the error) that the model assigns to the
//! input text, terminates on every input and never panics.

use vstd::prelude::*;
use crate::text::append_chars;
use crate::text::chars_to_string;

verus! {

/// One XML element as the reader returns it: its tag name, the
/// concatenation of its text runs, and its child elements in document order.
#[derive(Debug)]
pub struct XmlNode {
    pub name: Vec<char>,
    pub text: Vec<char>,
    pub children: Vec<XmlNode>,
}

/// The mathematical view of an element: the same shape as [`XmlNode`] with
/// sequences in place of vectors. Every contract of this crate speaks of
/// elements through this type.
pub struct XmlTree {
    pub name: Seq<char>,
    pub text: Seq<char>,
    pub children: Seq<XmlTree>,
}

/// The view of one element.
pub open spec fn tree_of(n: XmlNode) -> XmlTree
    decreases n, 1int,
    via tree_of_decreases
{
    XmlTree { name: n.name@, text: n.text@, children: trees_of_vec(n.children) }
}

#[via_fn]
proof fn tree_of_decreases(n: XmlNode) {
    assert(decreases_to!(n => n.children));
}

/// The views of the elements held by a vector.
pub open spec fn trees_of_vec(cs: Vec<XmlNode>) -> Seq<XmlTree>
    decreases cs, 0int,
    via trees_of_vec_decreases
{
    Seq::new(
        cs@.len(),
        |i: int|
            // the out-of-range arm is never selected by `Seq::new`; it keeps
            // the recursion visibly within the vector's elements
            if 0 <= i < cs@.len() {
                tree_of(cs@[i])
            } else {
                XmlTree { name: Seq::empty(), text: Seq::empty(), children: Seq::empty() }
            },
    )
}

#[via_fn]
proof fn trees_of_vec_decreases(cs: Vec<XmlNode>) {
    assert forall|i: int| 0 <= i < cs@.len() implies decreases_to!(cs => cs@[i]) by {
        vstd::std_specs::vec::axiom_vec_index_decreases(cs, i);
    }
}

/// The views of a sequence of elements.
pub open spec fn trees_of(cs: Seq<XmlNode>) -> Seq<XmlTree> {
    cs.map_values(|c: XmlNode| tree_of(c))
}

impl View for XmlNode {
    type V = XmlTree;

    open spec fn view(&self) -> XmlTree {
        tree_of(*self)
    }
}

/// Taking views distributes over appending one element.
pub proof fn lemma_trees_of_push(cs: Seq<XmlNode>, c: XmlNode)
    ensures
        trees_of(cs.push(c)) =~= trees_of(cs).push(tree_of(c)),
{
}

/// Why a document was rejected.
#[derive(PartialEq, Eq, Structural, Debug, Clone, Copy)]
pub enum XmlError {
    /// The input ended inside a tag, a text run or an unclosed element.
    Truncated,
    /// A tag was empty or otherwise unreadable.
    Malformed,
    /// A closing tag did not match the open element.
    MismatchedTag,
    /// An entity reference was not one of the five predefined ones.
    UnknownEntity,
    /// Content followed the root element.
    TrailingContent,
    /// No root element was found.
    MissingRoot,
}

/// A well-formed element: a nonempty name, and well-formed children.
pub open spec fn node_wf(t: XmlTree) -> bool
    decreases t,
{
    &&& t.name.len() > 0
    &&& forall|i: int| 0 <= i < t.children.len() ==> node_wf(#[trigger] t.children[i])
}

/// Whether a character is XML whitespace.
pub open spec fn is_ws(c: char) -> bool {
    c == ' ' || c == '\t' || c == '\r' || c == '\n'
}

/// Whether a character may appear in a tag name: anything but whitespace and
/// the tag delimiters.
pub open spec fn is_name_char(c: char) -> bool {
    !is_ws(c) && c != '>' && c != '/' && c != '<' && c != '=' && c != '"'
}

// ---------------------------------------------------------------------------
// The model of the parse: spec functions mirroring each step of the reader.
// Where a step's result position feeds a further step, the model clamps it
// forward by one — a parse step always advances, and the clamp makes that
// manifest to the termination checker without changing any reachable value.
// ---------------------------------------------------------------------------

/// The position a parse step hands to the next one: the step's own result
/// where it moved forward and stayed within the input, the next position
/// otherwise. A parse step always advances, and this clamp makes that
/// manifest to the termination checker without changing any reachable value.
pub open spec fn step_to(s: Seq<char>, pos: int, q: int) -> int {
    if pos < q <= s.len() {
        q
    } else {
        pos + 1
    }
}

/// The position after the whitespace starting at `pos`.
pub open spec fn spec_skip_ws(s: Seq<char>, pos: int) -> int
    decreases s.len() - pos,
{
    if 0 <= pos < s.len() && is_ws(s[pos]) {
        spec_skip_ws(s, pos + 1)
    } else {
        pos
    }
}

/// The position after the name characters starting at `pos`.
pub open spec fn spec_scan_name(s: Seq<char>, pos: int) -> int
    decreases s.len() - pos,
{
    if 0 <= pos < s.len() && is_name_char(s[pos]) {
        spec_scan_name(s, pos + 1)
    } else {
        pos
    }
}

/// The tag name starting at `pos`: one or more name characters.
pub open spec fn spec_parse_name(s: Seq<char>, pos: int) -> Result<(Seq<char>, int), XmlError> {
    let end = spec_scan_name(s, pos);
    if end == pos {
        Err(XmlError::Malformed)
    } else {
        Ok((s.subrange(pos, end), end))
    }
}

/// The position of the closing quote of an attribute value, or the end of
/// the input.
pub open spec fn spec_scan_quote(s: Seq<char>, pos: int) -> int
    decreases s.len() - pos,
{
    if 0 <= pos < s.len() && s[pos] != '"' {
        spec_scan_quote(s, pos + 1)
    } else {
        pos
    }
}

/// The remainder of an open tag after the name, through the closing `>`:
/// whether the tag was self-closing, and the position after the `>`.
pub open spec fn spec_skip_tag_rest(s: Seq<char>, pos: int, self_closing: bool) -> Result<
    (bool, int),
    XmlError,
>
    decreases s.len() - pos,
{
    if pos < 0 || pos >= s.len() {
        Err(XmlError::Truncated)
    } else if s[pos] == '>' {
        Ok((self_closing, pos + 1))
    } else if s[pos] == '"' {
        let q = spec_scan_quote(s, pos + 1);
        if q >= s.len() {
            Err(XmlError::Truncated)
        } else {
            spec_skip_tag_rest(s, if q > pos { q + 1 } else { pos + 1 }, false)
        }
    } else {
        spec_skip_tag_rest(s, pos + 1, s[pos] == '/')
    }
}

/// The position after the closing `-->` of the comment body starting at
/// `pos`.
pub open spec fn spec_scan_comment(s: Seq<char>, pos: int) -> Result<int, XmlError>
    decreases s.len() - pos,
{
    if pos < 0 || s.len() - pos < 3 {
        Err(XmlError::Truncated)
    } else if s[pos] == '-' && s[pos + 1] == '-' && s[pos + 2] == '>' {
        Ok(pos + 3)
    } else {
        spec_scan_comment(s, pos + 1)
    }
}

/// The position of the next `>`, or the end of the input.
pub open spec fn spec_scan_gt(s: Seq<char>, pos: int) -> int
    decreases s.len() - pos,
{
    if 0 <= pos < s.len() && s[pos] != '>' {
        spec_scan_gt(s, pos + 1)
    } else {
        pos
    }
}

/// The position after a processing instruction or markup declaration
/// starting at the `<` at `pos`.
pub open spec fn spec_skip_special(s: Seq<char>, pos: int) -> Result<int, XmlError> {
    if s.len() - pos > 4 && s[pos + 1] == '!' && s[pos + 2] == '-' && s[pos + 3] == '-' {
        spec_scan_comment(s, pos + 4)
    } else {
        let p = spec_scan_gt(s, pos + 2);
        if p >= s.len() {
            Err(XmlError::Truncated)
        } else {
            Ok(p + 1)
        }
    }
}

/// The entity reference starting at the `&` at `pos`: the character it
/// denotes and the position after the `;`.
pub open spec fn spec_parse_entity(s: Seq<char>, pos: int) -> Result<(char, int), XmlError> {
    let rem = s.len() - pos;
    if rem > 3 && s[pos + 1] == 'l' && s[pos + 2] == 't' && s[pos + 3] == ';' {
        Ok(('<', pos + 4))
    } else if rem > 3 && s[pos + 1] == 'g' && s[pos + 2] == 't' && s[pos + 3] == ';' {
        Ok(('>', pos + 4))
    } else if rem > 4 && s[pos + 1] == 'a' && s[pos + 2] == 'm' && s[pos + 3] == 'p' && s[pos + 4]
        == ';' {
        Ok(('&', pos + 5))
    } else if rem > 5 && s[pos + 1] == 'q' && s[pos + 2] == 'u' && s[pos + 3] == 'o' && s[pos + 4]
        == 't' && s[pos + 5] == ';' {
        Ok(('"', pos + 6))
    } else if rem > 5 && s[pos + 1] == 'a' && s[pos + 2] == 'p' && s[pos + 3] == 'o' && s[pos + 4]
        == 's' && s[pos + 5] == ';' {
        Ok(('\'', pos + 6))
    } else {
        Err(XmlError::UnknownEntity)
    }
}

/// The text run starting at `pos`, up to the next `<` or the end of the
/// input, with entity references decoded.
pub open spec fn spec_parse_text(s: Seq<char>, pos: int) -> Result<(Seq<char>, int), XmlError>
    decreases s.len() - pos,
{
    if pos < 0 || pos >= s.len() || s[pos] == '<' {
        Ok((Seq::empty(), pos))
    } else if s[pos] == '&' {
        match spec_parse_entity(s, pos) {
            Err(e) => Err(e),
            Ok((c, q)) => match spec_parse_text(s, if q > pos { q } else { pos + 1 }) {
                Err(e) => Err(e),
                Ok((t, e)) => Ok((seq![c] + t, e)),
            },
        }
    } else {
        match spec_parse_text(s, pos + 1) {
            Err(e) => Err(e),
            Ok((t, e)) => Ok((seq![s[pos]] + t, e)),
        }
    }
}

/// The element whose open tag starts at the `<` at `pos`: its tree and the
/// position after its closing tag.
pub open spec fn spec_parse_element(s: Seq<char>, pos: int) -> Result<(XmlTree, int), XmlError>
    decreases s.len() - pos, 1int,
{
    if pos < 0 || pos >= s.len() {
        Err(XmlError::Truncated)
    } else {
        spec_parse_element_at(s, pos)
    }
}

/// The element at an in-range position.
pub open spec fn spec_parse_element_at(s: Seq<char>, pos: int) -> Result<(XmlTree, int), XmlError>
    decreases s.len() - pos, 0int,
{
    match spec_parse_name(s, pos + 1) {
        Err(e) => Err(e),
        Ok((name, an)) => match spec_skip_tag_rest(s, an, false) {
            Err(e) => Err(e),
            Ok((sc, p)) => {
                let p2 = step_to(s, pos, p);
                if sc {
                    Ok((XmlTree { name, text: Seq::empty(), children: Seq::empty() }, p2))
                } else {
                    match spec_parse_content(s, p2, name) {
                        Err(e) => Err(e),
                        Ok((tx, ch, e)) => Ok((XmlTree { name, text: tx, children: ch }, e)),
                    }
                }
            },
        },
    }
}

/// The content of an open element named `name`, from `pos` to just past its
/// closing tag: the accumulated text, the child trees in document order, and
/// the position after the closing tag.
pub open spec fn spec_parse_content(s: Seq<char>, pos: int, name: Seq<char>) -> Result<
    (Seq<char>, Seq<XmlTree>, int),
    XmlError,
>
    decreases s.len() - pos, 2int,
{
    if pos < 0 || pos >= s.len() {
        Err(XmlError::Truncated)
    } else if s[pos] == '<' {
        if pos + 1 < s.len() && s[pos + 1] == '/' {
            match spec_parse_name(s, pos + 2) {
                Err(e) => Err(e),
                Ok((cn, q)) => if cn != name {
                    Err(XmlError::MismatchedTag)
                } else {
                    let q2 = spec_skip_ws(s, q);
                    if q2 >= s.len() {
                        Err(XmlError::Truncated)
                    } else if s[q2] != '>' {
                        Err(XmlError::Malformed)
                    } else {
                        Ok((Seq::empty(), Seq::empty(), q2 + 1))
                    }
                },
            }
        } else if pos + 1 < s.len() && (s[pos + 1] == '?' || s[pos + 1] == '!') {
            match spec_skip_special(s, pos) {
                Err(e) => Err(e),
                Ok(q) => spec_parse_content(s, step_to(s, pos, q), name),
            }
        } else {
            match spec_parse_element(s, pos) {
                Err(e) => Err(e),
                Ok((t, q)) => match spec_parse_content(s, step_to(s, pos, q), name) {
                    Err(e) => Err(e),
                    Ok((tx, ch, e)) => Ok((tx, seq![t] + ch, e)),
                },
            }
        }
    } else {
        match spec_parse_text(s, pos) {
            Err(e) => Err(e),
            Ok((t, q)) => match spec_parse_content(s, step_to(s, pos, q), name) {
                Err(e) => Err(e),
                Ok((tx, ch, e)) => Ok((t + tx, ch, e)),
            },
        }
    }
}

/// The root element of the document content starting at `pos`: prolog,
/// doctype and comments are skipped, and nothing but whitespace may follow
/// the root.
pub open spec fn spec_document_from(s: Seq<char>, pos: int) -> Result<XmlTree, XmlError>
    decreases s.len() - pos,
{
    if pos < 0 || pos >= s.len() {
        Err(XmlError::MissingRoot)
    } else if s[pos] != '<' {
        Err(XmlError::Malformed)
    } else if pos + 1 < s.len() && (s[pos + 1] == '?' || s[pos + 1] == '!') {
        match spec_skip_special(s, pos) {
            Err(e) => Err(e),
            Ok(q) => {
                let w = spec_skip_ws(s, step_to(s, pos, q));
                spec_document_from(s, step_to(s, pos, w))
            },
        }
    } else {
        match spec_parse_element(s, pos) {
            Err(e) => Err(e),
            Ok((t, q)) => if spec_skip_ws(s, q) < s.len() {
                Err(XmlError::TrailingContent)
            } else {
                Ok(t)
            },
        }
    }
}

/// The parse of a whole document: the root element tree it denotes, or the
/// error on which the reader rejects it.
pub open spec fn spec_parse_document(s: Seq<char>) -> Result<XmlTree, XmlError> {
    spec_document_from(s, spec_skip_ws(s, 0))
}

// ---------------------------------------------------------------------------
// The reader, each function returning exactly what the model assigns.
// ---------------------------------------------------------------------------

/// Reports whether a character is XML whitespace.
fn ws_char(c: char) -> (r: bool)
    ensures
        r == is_ws(c),
{
    c == ' ' || c == '\t' || c == '\r' || c == '\n'
}

/// Reports whether a character may appear in a tag name.
fn name_char(c: char) -> (r: bool)
    ensures
        r == is_name_char(c),
{
    !ws_char(c) && c != '>' && c != '/' && c != '<' && c != '=' && c != '"'
}

/// Advances past whitespace.
fn skip_ws(s: &Vec<char>, pos: usize) -> (r: usize)
    requires
        pos <= s@.len(),
    ensures
        pos <= r <= s@.len(),
        r as int == spec_skip_ws(s@, pos as int),
{
    let mut p = pos;
    while p < s.len() && ws_char(s[p])
        invariant
            pos <= p <= s@.len(),
            spec_skip_ws(s@, pos as int) == spec_skip_ws(s@, p as int),
        decreases s.len() - p,
    {
        p = p + 1;
    }
    p
}

/// Compares two character vectors.
fn chars_eq(a: &Vec<char>, b: &Vec<char>) -> (r: bool)
    ensures
        r == (a@ == b@),
{
    if a.len() != b.len() {
        return false;
    }
    let mut i: usize = 0;
    while i < a.len()
        invariant
            0 <= i <= a@.len(),
            a@.len() == b@.len(),
            forall|j: int| 0 <= j < i ==> a@[j] == b@[j],
        decreases a.len() - i,
    {
        if a[i] != b[i] {
            return false;
        }
        i = i + 1;
    }
    assert(a@ =~= b@);
    true
}

/// Reads a tag name starting at `pos`: one or more name characters.
fn parse_name(s: &Vec<char>, pos: usize) -> (r: Result<(Vec<char>, usize), XmlError>)
    requires
        pos <= s@.len(),
    ensures
        r matches Ok(v) ==> pos < v.1 <= s@.len() && v.0@.len() > 0 && spec_parse_name(
            s@,
            pos as int,
        ) == Ok::<(Seq<char>, int), XmlError>((v.0@, v.1 as int)),
        r matches Err(e) ==> spec_parse_name(s@, pos as int) == Err::<(Seq<char>, int), XmlError>(
            e,
        ),
{
    let mut name: Vec<char> = Vec::new();
    let mut p = pos;
    while p < s.len() && name_char(s[p])
        invariant
            pos <= p <= s@.len(),
            name@ == s@.subrange(pos as int, p as int),
            spec_scan_name(s@, pos as int) == spec_scan_name(s@, p as int),
        decreases s.len() - p,
    {
        name.push(s[p]);
        p = p + 1;
        assert(name@ =~= s@.subrange(pos as int, p as int));
    }
    if name.len() == 0 {
        Err(XmlError::Malformed)
    } else {
        Ok((name, p))
    }
}

/// Skips the remainder of an open tag after the name — attributes included,
/// with quoted values honoured — through the closing `>`. Returns the
/// position after the `>` and whether the tag was self-closing (`/>`).
fn skip_tag_rest(s: &Vec<char>, pos: usize) -> (r: Result<(bool, usize), XmlError>)
    requires
        pos <= s@.len(),
    ensures
        r matches Ok(v) ==> pos < v.1 <= s@.len() && spec_skip_tag_rest(s@, pos as int, false)
            == Ok::<(bool, int), XmlError>((v.0, v.1 as int)),
        r matches Err(e) ==> spec_skip_tag_rest(s@, pos as int, false) == Err::<
            (bool, int),
            XmlError,
        >(e),
{
    let mut p = pos;
    let mut self_closing = false;
    loop
        invariant
            pos <= p <= s@.len(),
            spec_skip_tag_rest(s@, pos as int, false) == spec_skip_tag_rest(
                s@,
                p as int,
                self_closing,
            ),
        decreases s.len() - p,
    {
        if p >= s.len() {
            return Err(XmlError::Truncated);
        }
        let c = s[p];
        if c == '>' {
            return Ok((self_closing, p + 1));
        }
        if c == '"' {
            // skip a quoted attribute value
            let mut q = p + 1;
            while q < s.len() && s[q] != '"'
                invariant
                    p < q <= s@.len(),
                    spec_scan_quote(s@, p as int + 1) == spec_scan_quote(s@, q as int),
                decreases s.len() - q,
            {
                q = q + 1;
            }
            if q >= s.len() {
                return Err(XmlError::Truncated);
            }
            p = q + 1;
            self_closing = false;
        } else {
            self_closing = c == '/';
            p = p + 1;
        }
    }
}

/// Skips a processing instruction or a markup declaration starting at `<`
/// (`<?...?>`, `<!-- ... -->`, `<!...>`). Returns the position after it.
fn skip_special(s: &Vec<char>, pos: usize) -> (r: Result<usize, XmlError>)
    requires
        pos < s@.len(),
        pos + 1 < s@.len(),
    ensures
        r matches Ok(q) ==> pos < q <= s@.len() && spec_skip_special(s@, pos as int) == Ok::<
            int,
            XmlError,
        >(q as int),
        r matches Err(e) ==> spec_skip_special(s@, pos as int) == Err::<int, XmlError>(e),
{
    // comment: scan for the closing "-->"
    let len = s.len();
    if len - pos > 4 && s[pos + 1] == '!' && s[pos + 2] == '-' && s[pos + 3] == '-' {
        let mut p = pos + 4;
        loop
            invariant
                pos < p <= s@.len(),
                s@.len() == len,
                s@.len() - pos > 4,
                s@[pos as int + 1] == '!' && s@[pos as int + 2] == '-' && s@[pos as int + 3]
                    == '-',
                spec_scan_comment(s@, pos as int + 4) == spec_scan_comment(s@, p as int),
            decreases s.len() - p,
        {
            if len - p < 3 {
                assert(spec_scan_comment(s@, p as int) == Err::<int, XmlError>(
                    XmlError::Truncated,
                ));
                return Err(XmlError::Truncated);
            }
            if s[p] == '-' && s[p + 1] == '-' && s[p + 2] == '>' {
                assert(spec_scan_comment(s@, p as int) == Ok::<int, XmlError>(p as int + 3));
                return Ok(p + 3);
            }
            assert(spec_scan_comment(s@, p as int) == spec_scan_comment(s@, p as int + 1));
            p = p + 1;
        }
    } else {
        // declaration or processing instruction: scan for '>'
        let mut p = pos + 2;
        while p < s.len() && s[p] != '>'
            invariant
                pos < p <= s@.len(),
                spec_scan_gt(s@, pos as int + 2) == spec_scan_gt(s@, p as int),
            decreases s.len() - p,
        {
            p = p + 1;
        }
        assert(spec_scan_gt(s@, p as int) == p as int);
        if p >= s.len() {
            return Err(XmlError::Truncated);
        }
        Ok(p + 1)
    }
}

/// Decodes the entity reference starting at the `&` at `pos`. Accepts the
/// five predefined entities and nothing else.
fn parse_entity(s: &Vec<char>, pos: usize) -> (r: Result<(char, usize), XmlError>)
    requires
        pos < s@.len(),
    ensures
        r matches Ok(v) ==> pos < v.1 <= s@.len() && spec_parse_entity(s@, pos as int) == Ok::<
            (char, int),
            XmlError,
        >((v.0, v.1 as int)),
        r matches Err(e) ==> spec_parse_entity(s@, pos as int) == Err::<(char, int), XmlError>(e),
{
    let len = s.len();
    let rem = len - pos;
    if rem > 3 && s[pos + 1] == 'l' && s[pos + 2] == 't' && s[pos + 3] == ';' {
        Ok(('<', pos + 4))
    } else if rem > 3 && s[pos + 1] == 'g' && s[pos + 2] == 't' && s[pos + 3] == ';' {
        Ok(('>', pos + 4))
    } else if rem > 4 && s[pos + 1] == 'a' && s[pos + 2] == 'm' && s[pos + 3] == 'p' && s[pos + 4]
        == ';' {
        Ok(('&', pos + 5))
    } else if rem > 5 && s[pos + 1] == 'q' && s[pos + 2] == 'u' && s[pos + 3] == 'o' && s[pos + 4]
        == 't' && s[pos + 5] == ';' {
        Ok(('"', pos + 6))
    } else if rem > 5 && s[pos + 1] == 'a' && s[pos + 2] == 'p' && s[pos + 3] == 'o' && s[pos + 4]
        == 's' && s[pos + 5] == ';' {
        Ok(('\'', pos + 6))
    } else {
        Err(XmlError::UnknownEntity)
    }
}

/// Reads a text run up to the next `<` or the end of the input, decoding
/// entity references.
fn parse_text(s: &Vec<char>, pos: usize) -> (r: Result<(Vec<char>, usize), XmlError>)
    requires
        pos < s@.len(),
        s@[pos as int] != '<',
    ensures
        r matches Ok(v) ==> pos < v.1 <= s@.len() && spec_parse_text(s@, pos as int) == Ok::<
            (Seq<char>, int),
            XmlError,
        >((v.0@, v.1 as int)),
        r matches Err(e) ==> spec_parse_text(s@, pos as int) == Err::<(Seq<char>, int), XmlError>(
            e,
        ),
{
    let mut out: Vec<char> = Vec::new();
    let mut p = pos;
    loop
        invariant
            pos < s@.len(),
            pos <= p <= s@.len(),
            p == pos ==> s@[p as int] != '<' && out@.len() == 0,
            (spec_parse_text(s@, p as int) matches Ok(v) ==> spec_parse_text(s@, pos as int)
                == Ok::<(Seq<char>, int), XmlError>((out@ + v.0, v.1))),
            (spec_parse_text(s@, p as int) matches Err(e) ==> spec_parse_text(s@, pos as int)
                == Err::<(Seq<char>, int), XmlError>(e)),
        decreases s.len() - p,
    {
        if p >= s.len() || s[p] == '<' {
            assert(spec_parse_text(s@, p as int) == Ok::<(Seq<char>, int), XmlError>((
                Seq::empty(),
                p as int,
            )));
            assert(out@ + Seq::<char>::empty() =~= out@);
            return Ok((out, p));
        }
        if s[p] == '&' {
            match parse_entity(s, p) {
                Ok((c, q)) => {
                    proof {
                        let rest = spec_parse_text(s@, q as int);
                        if rest is Ok {
                            let v = rest->Ok_0;
                            assert(spec_parse_text(s@, p as int) == Ok::<
                                (Seq<char>, int),
                                XmlError,
                            >((seq![c] + v.0, v.1)));
                            assert(out@ + (seq![c] + v.0) =~= (out@.push(c)) + v.0);
                        }
                    }
                    out.push(c);
                    p = q;
                },
                Err(e) => {
                    return Err(e);
                },
            }
        } else {
            let c = s[p];
            proof {
                let rest = spec_parse_text(s@, p as int + 1);
                if rest is Ok {
                    let v = rest->Ok_0;
                    assert(spec_parse_text(s@, p as int) == Ok::<(Seq<char>, int), XmlError>((
                        seq![c] + v.0,
                        v.1,
                    )));
                    assert(out@ + (seq![c] + v.0) =~= (out@.push(c)) + v.0);
                }
            }
            out.push(c);
            p = p + 1;
        }
    }
}

/// Parses one element starting at the `<` of its open tag. Returns exactly
/// the element the model assigns, and the position just past its closing
/// tag.
#[verifier::rlimit(60)]
#[verifier::spinoff_prover]
fn parse_element(s: &Vec<char>, pos: usize) -> (r: Result<(XmlNode, usize), XmlError>)
    requires
        pos < s@.len(),
        s@[pos as int] == '<',
    ensures
        r matches Ok(v) ==> pos < v.1 <= s@.len() && node_wf(v.0@) && spec_parse_element(
            s@,
            pos as int,
        ) == Ok::<(XmlTree, int), XmlError>((v.0@, v.1 as int)),
        r matches Err(e) ==> spec_parse_element(s@, pos as int) == Err::<(XmlTree, int), XmlError>(
            e,
        ),
    decreases s@.len() - pos,
{
    let len = s.len();
    let (name, after_name) = match parse_name(s, pos + 1) {
        Ok(v) => v,
        Err(e) => {
            return Err(e);
        },
    };
    let (self_closing, mut p) = match skip_tag_rest(s, after_name) {
        Ok(v) => v,
        Err(e) => {
            return Err(e);
        },
    };
    let ghost name_v = name@;
    let mut node = XmlNode { name, text: Vec::new(), children: Vec::new() };
    if self_closing {
        proof {
            assert(node@.children =~= Seq::<XmlTree>::empty());
            assert(node@.text =~= Seq::<char>::empty());
            assert(node@ == XmlTree {
                name: name_v,
                text: Seq::<char>::empty(),
                children: Seq::<XmlTree>::empty(),
            });
            assert(node_wf(node@));
        }
        return Ok((node, p));
    }
    let ghost p_start = p as int;
    loop
        invariant
            pos < p <= s@.len(),
            s@.len() == len,
            node.name@ == name_v,
            name_v.len() > 0,
            forall|i: int|
                0 <= i < node.children@.len() ==> node_wf(#[trigger] node.children@[i]@),
            (spec_parse_content(s@, p as int, name_v) matches Ok(v) ==> spec_parse_content(
                s@,
                p_start,
                name_v,
            ) == Ok::<(Seq<char>, Seq<XmlTree>, int), XmlError>((
                node.text@ + v.0,
                trees_of(node.children@) + v.1,
                v.2,
            ))),
            (spec_parse_content(s@, p as int, name_v) matches Err(e) ==> spec_parse_content(
                s@,
                p_start,
                name_v,
            ) == Err::<(Seq<char>, Seq<XmlTree>, int), XmlError>(e)),
            spec_parse_element(s@, pos as int) == (match spec_parse_content(s@, p_start, name_v) {
                Err(e) => Err::<(XmlTree, int), XmlError>(e),
                Ok((tx, ch, e)) => Ok::<(XmlTree, int), XmlError>((
                    XmlTree { name: name_v, text: tx, children: ch },
                    e,
                )),
            }),
        decreases s@.len() - p,
    {
        if p >= s.len() {
            return Err(XmlError::Truncated);
        }
        if s[p] == '<' {
            if p + 1 < s.len() && s[p + 1] == '/' {
                // closing tag: must match the open element
                let (close_name, q) = match parse_name(s, p + 2) {
                    Ok(v) => v,
                    Err(e) => {
                        return Err(e);
                    },
                };
                if !chars_eq(&close_name, &node.name) {
                    return Err(XmlError::MismatchedTag);
                }
                let q2 = skip_ws(s, q);
                if q2 >= s.len() {
                    return Err(XmlError::Truncated);
                }
                if s[q2] != '>' {
                    return Err(XmlError::Malformed);
                }
                proof {
                    assert(spec_parse_content(s@, p as int, name_v) == Ok::<
                        (Seq<char>, Seq<XmlTree>, int),
                        XmlError,
                    >((Seq::empty(), Seq::empty(), q2 as int + 1)));
                    assert(node.text@ + Seq::<char>::empty() =~= node.text@);
                    assert(trees_of(node.children@) + Seq::<XmlTree>::empty() =~= trees_of(
                        node.children@,
                    ));
                    assert(node@.children =~= trees_of(node.children@));
                    assert(node@ == XmlTree {
                        name: name_v,
                        text: node.text@,
                        children: trees_of(node.children@),
                    });
                    assert forall|i: int| 0 <= i < node@.children.len() implies node_wf(
                        #[trigger] node@.children[i],
                    ) by {
                        assert(node@.children[i] == node.children@[i]@);
                    }
                    assert(node_wf(node@));
                }
                return Ok((node, q2 + 1));
            } else if p + 1 < s.len() && (s[p + 1] == '?' || s[p + 1] == '!') {
                match skip_special(s, p) {
                    Ok(q) => {
                        proof {
                            assert(spec_parse_content(s@, p as int, name_v) == spec_parse_content(
                                s@,
                                q as int,
                                name_v,
                            ));
                        }
                        p = q;
                    },
                    Err(e) => {
                        return Err(e);
                    },
                }
            } else {
                match parse_element(s, p) {
                    Ok((child, q)) => {
                        proof {
                            lemma_trees_of_push(node.children@, child);
                            let rest = spec_parse_content(s@, q as int, name_v);
                            if rest is Ok {
                                let v = rest->Ok_0;
                                assert(spec_parse_content(s@, p as int, name_v) == Ok::<
                                    (Seq<char>, Seq<XmlTree>, int),
                                    XmlError,
                                >((v.0, seq![child@] + v.1, v.2)));
                                assert(trees_of(node.children@) + (seq![child@] + v.1)
                                    =~= trees_of(node.children@).push(child@) + v.1);
                            }
                        }
                        node.children.push(child);
                        p = q;
                    },
                    Err(e) => {
                        return Err(e);
                    },
                }
            }
        } else {
            match parse_text(s, p) {
                Ok((t, q)) => {
                    proof {
                        let rest = spec_parse_content(s@, q as int, name_v);
                        if rest is Ok {
                            let v = rest->Ok_0;
                            assert(spec_parse_content(s@, p as int, name_v) == Ok::<
                                (Seq<char>, Seq<XmlTree>, int),
                                XmlError,
                            >((t@ + v.0, v.1, v.2)));
                            assert(node.text@ + (t@ + v.0) =~= (node.text@ + t@) + v.0);
                        }
                    }
                    append_chars(&mut node.text, &t);
                    p = q;
                },
                Err(e) => {
                    return Err(e);
                },
            }
        }
    }
}

/// Parses a whole document: optional prolog, comments and whitespace around
/// one root element. Returns exactly the tree (or the error) the model
/// assigns to the input, and the root is well formed on success.
pub fn parse_document_chars(s: &Vec<char>) -> (r: Result<XmlNode, XmlError>)
    ensures
        r matches Ok(root) ==> node_wf(root@) && spec_parse_document(s@) == Ok::<
            XmlTree,
            XmlError,
        >(root@),
        r matches Err(e) ==> spec_parse_document(s@) == Err::<XmlTree, XmlError>(e),
{
    let mut p = skip_ws(s, 0);
    // skip the XML declaration, doctype and leading comments
    loop
        invariant
            p <= s@.len(),
            spec_parse_document(s@) == spec_document_from(s@, p as int),
        decreases s@.len() - p,
    {
        if p >= s.len() {
            return Err(XmlError::MissingRoot);
        }
        if s[p] != '<' {
            return Err(XmlError::Malformed);
        }
        if p + 1 < s.len() && (s[p + 1] == '?' || s[p + 1] == '!') {
            match skip_special(s, p) {
                Ok(q) => {
                    let q2 = skip_ws(s, q);
                    proof {
                        assert(spec_document_from(s@, p as int) == spec_document_from(
                            s@,
                            q2 as int,
                        ));
                    }
                    p = q2;
                },
                Err(e) => {
                    return Err(e);
                },
            }
        } else {
            let (root, q) = match parse_element(s, p) {
                Ok(v) => v,
                Err(e) => {
                    return Err(e);
                },
            };
            let q2 = skip_ws(s, q);
            if q2 < s.len() {
                return Err(XmlError::TrailingContent);
            }
            return Ok(root);
        }
    }
}

/// Parses a whole document given as a string slice. Returns exactly the
/// tree (or the error) the model assigns to the text.
pub fn parse_document(xml: &str) -> (r: Result<XmlNode, XmlError>)
    ensures
        r matches Ok(root) ==> node_wf(root@) && spec_parse_document(xml@) == Ok::<
            XmlTree,
            XmlError,
        >(root@),
        r matches Err(e) ==> spec_parse_document(xml@) == Err::<XmlTree, XmlError>(e),
{
    let chars = crate::text::str_to_chars(xml);
    parse_document_chars(&chars)
}

// ---------------------------------------------------------------------------
// Looking elements up by name.
// ---------------------------------------------------------------------------

/// The first child named `name`, searching from position `i`.
pub open spec fn first_child_named_from(cs: Seq<XmlTree>, name: Seq<char>, i: int) -> Option<
    XmlTree,
>
    decreases cs.len() - i,
{
    if i < 0 || i >= cs.len() {
        None
    } else if cs[i].name == name {
        Some(cs[i])
    } else {
        first_child_named_from(cs, name, i + 1)
    }
}

/// The first child of `t` named `name`.
pub open spec fn child_named(t: XmlTree, name: Seq<char>) -> Option<XmlTree> {
    first_child_named_from(t.children, name, 0)
}

/// The text of the first child of `t` named `name`, when there is one.
pub open spec fn child_text(t: XmlTree, name: Seq<char>) -> Option<Seq<char>> {
    match child_named(t, name) {
        Some(c) => Some(c.text),
        None => None,
    }
}

/// The children of `t` named `name`, in document order, from position `i`.
pub open spec fn children_named_from(cs: Seq<XmlTree>, name: Seq<char>, i: int) -> Seq<XmlTree>
    decreases cs.len() - i,
{
    if i < 0 || i >= cs.len() {
        Seq::empty()
    } else if cs[i].name == name {
        seq![cs[i]] + children_named_from(cs, name, i + 1)
    } else {
        children_named_from(cs, name, i + 1)
    }
}

/// The children of `t` named `name`, in document order.
pub open spec fn children_named(t: XmlTree, name: Seq<char>) -> Seq<XmlTree> {
    children_named_from(t.children, name, 0)
}

/// Finds the first child named `name`.
pub fn find_child<'a>(n: &'a XmlNode, name: &str) -> (r: Option<&'a XmlNode>)
    ensures
        match r {
            Some(c) => child_named(n@, name@) == Some(c@),
            None => child_named(n@, name@) is None,
        },
{
    let mut i: usize = 0;
    while i < n.children.len()
        invariant
            0 <= i <= n.children@.len(),
            n@.children.len() == n.children@.len(),
            forall|j: int| 0 <= j < n.children@.len() ==> n@.children[j] == n.children@[j]@,
            child_named(n@, name@) == first_child_named_from(n@.children, name@, i as int),
        decreases n.children.len() - i,
    {
        if crate::text::chars_eq_str(&n.children[i].name, name) {
            assert(n@.children[i as int].name == name@);
            return Some(&n.children[i]);
        }
        assert(n@.children[i as int].name != name@);
        i = i + 1;
    }
    None
}

/// The text of the first child named `name`, when there is one.
pub fn find_child_text(n: &XmlNode, name: &str) -> (r: Option<String>)
    ensures
        match r {
            Some(t) => child_text(n@, name@) == Some(t@),
            None => child_text(n@, name@) is None,
        },
{
    match find_child(n, name) {
        Some(c) => Some(chars_to_string(&c.text)),
        None => None,
    }
}

} // verus!
