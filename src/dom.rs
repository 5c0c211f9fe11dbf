//! The HTML document model, read through `scraper`.
//!
//! An element is known by its address: the selection steps that reached it,
//! each the text of a structural pattern and the element's position among
//! that pattern's matches, in the order scraper yields them. The first step is a selection
//! over the whole document, the others within the element before. What a
//! selection or an element's text gives is named below as a function of the
//! page source and the address alone; only the wrappers in this module hand
//! out nodes, so an address always names the element that a node holds.

use scraper::{ElementRef, Html, Selector};
use vstd::prelude::*;

verus! {

/// Declares `scraper::Html`, a parsed document.
#[verifier::external_type_specification]
#[verifier::external_body]
pub struct ExHtml(Html);

/// Declares `scraper::Selector`, a compiled CSS selector group.
#[verifier::external_type_specification]
#[verifier::external_body]
pub struct ExSelector(Selector);

/// Declares `scraper::ElementRef`, a reference to an element of a document.
#[verifier::external_type_specification]
#[verifier::external_body]
pub struct ExElementRef<'a>(ElementRef<'a>);

/// Whether `Selector::parse` accepts the pattern text `css`.
pub uninterp spec fn pattern_compiles(css: Seq<char>) -> bool;

/// How many elements `Html::select` yields for pattern `css` on the document
/// parsed from `src`.
pub uninterp spec fn document_match_count(src: Seq<char>, css: Seq<char>) -> nat;

/// How many elements `ElementRef::select` yields for pattern `css` within the
/// element at address `at` of the document parsed from `src`.
pub uninterp spec fn element_match_count(
    src: Seq<char>,
    at: Seq<(Seq<char>, int)>,
    css: Seq<char>,
) -> nat;

/// The text nodes under the element at address `at`, concatenated in
/// the order scraper walks them (`ElementRef::text`).
pub uninterp spec fn element_text(src: Seq<char>, at: Seq<(Seq<char>, int)>) -> Seq<char>;

/// A character with the Unicode White_Space property.
pub open spec fn is_white_space(c: char) -> bool {
    let u = c as u32;
    ||| 0x09 <= u <= 0x0D
    ||| u == 0x20
    ||| u == 0x85
    ||| u == 0xA0
    ||| u == 0x1680
    ||| 0x2000 <= u <= 0x200A
    ||| u == 0x2028
    ||| u == 0x2029
    ||| u == 0x202F
    ||| u == 0x205F
    ||| u == 0x3000
}

/// `s` without its leading white space.
pub open spec fn trim_start(s: Seq<char>) -> Seq<char>
    decreases s.len(),
{
    if s.len() > 0 && is_white_space(s[0]) {
        trim_start(s.drop_first())
    } else {
        s
    }
}

/// `s` without its trailing white space.
pub open spec fn trim_end(s: Seq<char>) -> Seq<char>
    decreases s.len(),
{
    if s.len() > 0 && is_white_space(s.last()) {
        trim_end(s.drop_last())
    } else {
        s
    }
}

/// `s` without its leading and trailing white space.
pub open spec fn trimmed(s: Seq<char>) -> Seq<char> {
    trim_end(trim_start(s))
}

/// What is trimmed neither starts nor ends with white space.
pub proof fn lemma_trimmed_has_no_outer_space(s: Seq<char>)
    ensures
        trimmed(s).len() > 0 ==> !is_white_space(trimmed(s)[0]) && !is_white_space(
            trimmed(s).last(),
        ),
    decreases s.len(),
{
    lemma_trim_start_has_no_leading_space(s);
    lemma_trim_end_keeps_start(trim_start(s));
}

proof fn lemma_trim_start_has_no_leading_space(s: Seq<char>)
    ensures
        trim_start(s).len() > 0 ==> !is_white_space(trim_start(s)[0]),
    decreases s.len(),
{
    if s.len() > 0 && is_white_space(s[0]) {
        lemma_trim_start_has_no_leading_space(s.drop_first());
    }
}

/// Trimming the end leaves a prefix, and is empty or ends in non-space.
proof fn lemma_trim_end_keeps_start(s: Seq<char>)
    ensures
        trim_end(s).len() <= s.len(),
        trim_end(s) =~= s.subrange(0, trim_end(s).len() as int),
        trim_end(s).len() > 0 ==> !is_white_space(trim_end(s).last()),
    decreases s.len(),
{
    if s.len() > 0 && is_white_space(s.last()) {
        lemma_trim_end_keeps_start(s.drop_last());
    }
}

/// A compiled structural pattern together with its text.
pub struct Pattern {
    css: &'static str,
    sel: Selector,
}

impl Pattern {
    /// The text the pattern was compiled from.
    pub closed spec fn css(&self) -> Seq<char> {
        self.css@
    }
}

/// A parsed page and the source it was parsed from.
pub struct Page {
    doc: Html,
    src: Ghost<Seq<char>>,
}

impl Page {
    /// The text the page was parsed from.
    pub closed spec fn source(&self) -> Seq<char> {
        self.src@
    }
}

/// An element of a page, with its address.
pub struct Node<'a> {
    elem: ElementRef<'a>,
    src: Ghost<Seq<char>>,
    at: Ghost<Seq<(Seq<char>, int)>>,
}

impl<'a> Node<'a> {
    /// The text of the page the element belongs to.
    pub closed spec fn source(&self) -> Seq<char> {
        self.src@
    }

    /// The selection steps that reached the element.
    pub closed spec fn address(&self) -> Seq<(Seq<char>, int)> {
        self.at@
    }
}

/// Relies on `scraper::Selector::parse`: compiles `css`, or reports that it
/// is not a valid selector group; the outcome depends on the text alone.
#[verifier::external_body]
pub fn compile_pattern(css: &'static str) -> (r: Option<Pattern>)
    ensures
        r is Some <==> pattern_compiles(css@),
        r matches Some(p) ==> p.css() == css@,
{
    match Selector::parse(css) {
        Ok(sel) => Some(Pattern { css, sel }),
        Err(_) => None,
    }
}

/// Relies on `scraper::Html::parse_document`, which accepts any text and
/// recovers from malformed markup as an HTML5 parser does.
#[verifier::external_body]
pub fn parse_page(html: &str) -> (r: Page)
    ensures
        r.source() == html@,
{
    Page { doc: Html::parse_document(html), src: Ghost(html@) }
}

/// Relies on `scraper::Html::select`: the elements of the whole document
/// that match the pattern, in the order scraper yields them.
#[verifier::external_body]
pub fn select_in_page<'a>(page: &'a Page, pat: &Pattern) -> (r: Vec<Node<'a>>)
    ensures
        r@.len() == document_match_count(page.source(), pat.css()),
        forall|i: int|
            0 <= i < r@.len() ==> (#[trigger] r@[i]).source() == page.source()
                && r@[i].address() == seq![(pat.css(), i)],
{
    let mut r = Vec::new();
    for elem in page.doc.select(&pat.sel) {
        r.push(Node { elem, src: page.src, at: Ghost(seq![(pat.css(), r@.len() as int)]) });
    }
    r
}

/// Relies on `scraper::ElementRef::select`: the descendants of the element
/// that match the pattern, in the order scraper yields them.
#[verifier::external_body]
pub fn select_in_node<'a>(node: &Node<'a>, pat: &Pattern) -> (r: Vec<Node<'a>>)
    ensures
        r@.len() == element_match_count(node.source(), node.address(), pat.css()),
        forall|i: int|
            0 <= i < r@.len() ==> (#[trigger] r@[i]).source() == node.source()
                && r@[i].address() == node.address().push((pat.css(), i)),
{
    let mut r = Vec::new();
    for elem in node.elem.select(&pat.sel) {
        r.push(Node { elem, src: node.src, at: Ghost(node.at@.push((pat.css(), r@.len() as int))) });
    }
    r
}

/// Relies on `scraper::ElementRef::text`: the text nodes under the element,
/// in the order scraper walks them, which this collects into one string.
#[verifier::external_body]
pub fn node_text(node: &Node) -> (r: String)
    ensures
        r@ == element_text(node.source(), node.address()),
{
    node.elem.text().collect()
}

/// Relies on `str::trim`: the text without its leading and trailing
/// characters of the Unicode White_Space property.
#[verifier::external_body]
pub fn trim_text(s: &str) -> (r: String)
    ensures
        r@ == trimmed(s@),
{
    s.trim().to_string()
}

} // verus!
