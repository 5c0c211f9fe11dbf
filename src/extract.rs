//! Extraction of phonetics and translations from a result page.

use crate::dom::{
    compile_pattern, document_match_count, element_match_count, element_text, node_text,
    parse_page, pattern_compiles, select_in_node, select_in_page, trim_text, trimmed, Node,
    Pattern,
};
use crate::error::YdtError;
use crate::render::{render, render_entries, views};
use crate::script::{contains_cjk_ideograph, has_ideograph};
use vstd::prelude::*;

verus! {

/// A list item holding one translation of a CJK word.
pub const WORD_EXP_CE_CSS: &'static str = "li.word-exp-ce.mcols-layout";

/// The anchor inside such an item that holds the translation.
pub const POINT_CSS: &'static str = "a.point";

/// A translation container; the first holds phonetics, the second translations.
pub const TRANS_CONTAINER_CSS: &'static str = "div.trans-container";

/// One phonetic block: a label and a phonetic transcription.
pub const PHONE_CSS: &'static str = "div.per-phone";

/// The label of a phonetic block.
pub const SPAN_CSS: &'static str = "span";

/// The transcription of a phonetic block.
pub const PHONETIC_CSS: &'static str = "span.phonetic";

/// One part-of-speech and translation pair.
pub const WORD_EXP_CSS: &'static str = "li.word-exp";

/// The part of speech of a pair.
pub const POS_CSS: &'static str = "span.pos";

/// The translation of a pair.
pub const TRANS_CSS: &'static str = "span.trans";

/// The first built-in pattern that does not compile, if any, in the order
/// the patterns are listed above.
pub open spec fn uncompiled_pattern() -> Option<Seq<char>> {
    if !pattern_compiles(WORD_EXP_CE_CSS@) {
        Some(WORD_EXP_CE_CSS@)
    } else if !pattern_compiles(POINT_CSS@) {
        Some(POINT_CSS@)
    } else if !pattern_compiles(TRANS_CONTAINER_CSS@) {
        Some(TRANS_CONTAINER_CSS@)
    } else if !pattern_compiles(PHONE_CSS@) {
        Some(PHONE_CSS@)
    } else if !pattern_compiles(SPAN_CSS@) {
        Some(SPAN_CSS@)
    } else if !pattern_compiles(PHONETIC_CSS@) {
        Some(PHONETIC_CSS@)
    } else if !pattern_compiles(WORD_EXP_CSS@) {
        Some(WORD_EXP_CSS@)
    } else if !pattern_compiles(POS_CSS@) {
        Some(POS_CSS@)
    } else if !pattern_compiles(TRANS_CSS@) {
        Some(TRANS_CSS@)
    } else {
        None
    }
}

/// Translations of a CJK word: for each of the first `n` word-expression
/// items of the page, the text of its first anchor, where it has one.
pub open spec fn point_entries(src: Seq<char>, n: nat) -> Seq<Seq<char>>
    decreases n,
{
    if n == 0 {
        Seq::empty()
    } else {
        let before = point_entries(src, (n - 1) as nat);
        let item = seq![(WORD_EXP_CE_CSS@, n - 1)];
        if element_match_count(src, item, POINT_CSS@) > 0 {
            before.push(element_text(src, item.push((POINT_CSS@, 0))))
        } else {
            before
        }
    }
}

/// For each of the first `n` elements matching `item_css` within the element
/// at `parent`: where it has a match of both `first_css` and `second_css`, the
/// trimmed text of the first match of each, joined by `sep`.
pub open spec fn pair_entries(
    src: Seq<char>,
    parent: Seq<(Seq<char>, int)>,
    item_css: Seq<char>,
    first_css: Seq<char>,
    second_css: Seq<char>,
    sep: Seq<char>,
    n: nat,
) -> Seq<Seq<char>>
    decreases n,
{
    if n == 0 {
        Seq::empty()
    } else {
        let before = pair_entries(src, parent, item_css, first_css, second_css, sep, (n - 1) as nat);
        let item = parent.push((item_css, n - 1));
        if element_match_count(src, item, first_css) > 0 && element_match_count(
            src,
            item,
            second_css,
        ) > 0 {
            before.push(
                trimmed(element_text(src, item.push((first_css, 0)))) + sep + trimmed(
                    element_text(src, item.push((second_css, 0))),
                ),
            )
        } else {
            before
        }
    }
}

/// The translation container at position `k` of the page.
pub open spec fn container(k: int) -> Seq<(Seq<char>, int)> {
    seq![(TRANS_CONTAINER_CSS@, k)]
}

/// Phonetics of a non-CJK word: "<label> <phonetic>" for each complete
/// phonetic block of the first translation container.
pub open spec fn phonetic_entries(src: Seq<char>) -> Seq<Seq<char>> {
    if document_match_count(src, TRANS_CONTAINER_CSS@) > 0 {
        pair_entries(
            src,
            container(0),
            PHONE_CSS@,
            SPAN_CSS@,
            PHONETIC_CSS@,
            " "@,
            element_match_count(src, container(0), PHONE_CSS@),
        )
    } else {
        Seq::empty()
    }
}

/// Translations of a non-CJK word: "<pos>: <translation>" for each complete
/// word-expression of the second translation container.
pub open spec fn meaning_entries(src: Seq<char>) -> Seq<Seq<char>> {
    if document_match_count(src, TRANS_CONTAINER_CSS@) > 1 {
        pair_entries(
            src,
            container(1),
            WORD_EXP_CSS@,
            POS_CSS@,
            TRANS_CSS@,
            ": "@,
            element_match_count(src, container(1), WORD_EXP_CSS@),
        )
    } else {
        Seq::empty()
    }
}

/// What a lookup of `word` displays for the page `src`: by the CJK strategy
/// when the word holds an ideograph, else by the container strategy.
pub open spec fn extraction(word: Seq<char>, src: Seq<char>) -> Seq<char> {
    if has_ideograph(word) {
        render(
            Seq::empty(),
            point_entries(src, document_match_count(src, WORD_EXP_CE_CSS@)),
        )
    } else {
        render(phonetic_entries(src), meaning_entries(src))
    }
}

/// The built-in structural patterns, each compiled once.
pub struct Patterns {
    word_exp_ce: Pattern,
    point: Pattern,
    trans_container: Pattern,
    phone: Pattern,
    span: Pattern,
    phonetic: Pattern,
    word_exp: Pattern,
    pos: Pattern,
    trans: Pattern,
}

impl Patterns {
    /// Each pattern was compiled from its built-in text.
    #[verifier::type_invariant]
    pub closed spec fn wf(&self) -> bool {
        &&& self.word_exp_ce.css() == WORD_EXP_CE_CSS@
        &&& self.point.css() == POINT_CSS@
        &&& self.trans_container.css() == TRANS_CONTAINER_CSS@
        &&& self.phone.css() == PHONE_CSS@
        &&& self.span.css() == SPAN_CSS@
        &&& self.phonetic.css() == PHONETIC_CSS@
        &&& self.word_exp.css() == WORD_EXP_CSS@
        &&& self.pos.css() == POS_CSS@
        &&& self.trans.css() == TRANS_CSS@
    }

    /// Compiles every built-in pattern, in the order they are listed; the
    /// first one that fails is reported by its text. Compile once and share
    /// the result: a failure stays the same for every later caller.
    pub fn compile() -> (r: Result<Patterns, &'static str>)
        ensures
            r is Ok <==> uncompiled_pattern() is None,
            r matches Err(css) ==> uncompiled_pattern() == Some(css@),
    {
        let word_exp_ce = match compile_pattern(WORD_EXP_CE_CSS) {
            Some(p) => p,
            None => return Err(WORD_EXP_CE_CSS),
        };
        let point = match compile_pattern(POINT_CSS) {
            Some(p) => p,
            None => return Err(POINT_CSS),
        };
        let trans_container = match compile_pattern(TRANS_CONTAINER_CSS) {
            Some(p) => p,
            None => return Err(TRANS_CONTAINER_CSS),
        };
        let phone = match compile_pattern(PHONE_CSS) {
            Some(p) => p,
            None => return Err(PHONE_CSS),
        };
        let span = match compile_pattern(SPAN_CSS) {
            Some(p) => p,
            None => return Err(SPAN_CSS),
        };
        let phonetic = match compile_pattern(PHONETIC_CSS) {
            Some(p) => p,
            None => return Err(PHONETIC_CSS),
        };
        let word_exp = match compile_pattern(WORD_EXP_CSS) {
            Some(p) => p,
            None => return Err(WORD_EXP_CSS),
        };
        let pos = match compile_pattern(POS_CSS) {
            Some(p) => p,
            None => return Err(POS_CSS),
        };
        let trans = match compile_pattern(TRANS_CSS) {
            Some(p) => p,
            None => return Err(TRANS_CSS),
        };
        Ok(Patterns { word_exp_ce, point, trans_container, phone, span, phonetic, word_exp, pos, trans })
    }
}

/// The text of the first anchor of each CJK word-expression item of the page.
fn collect_points(page: &crate::dom::Page, patterns: &Patterns) -> (r: Vec<String>)
    ensures
        views(r@) == point_entries(
            page.source(),
            document_match_count(page.source(), WORD_EXP_CE_CSS@),
        ),
{
    proof {
        use_type_invariant(patterns);
    }
    let items = select_in_page(page, &patterns.word_exp_ce);
    let mut out: Vec<String> = Vec::new();
    for i in 0..items.len()
        invariant
            patterns.point.css() == POINT_CSS@,
            items@.len() == document_match_count(page.source(), WORD_EXP_CE_CSS@),
            forall|j: int|
                0 <= j < items@.len() ==> (#[trigger] items@[j]).source() == page.source()
                    && items@[j].address() == seq![(WORD_EXP_CE_CSS@, j)],
            views(out@) == point_entries(page.source(), i as nat),
    {
        let points = select_in_node(&items[i], &patterns.point);
        if points.len() > 0 {
            let text = node_text(&points[0]);
            let ghost before = out@;
            out.push(text);
            assert(views(out@) =~= views(before).push(text@));
        }
    }
    out
}

/// For each element matching `item` within `parent` that has a match of
/// both `first` and `second`: the trimmed text of the first match of each,
/// joined by `sep`.
fn collect_pairs(parent: &Node, item: &Pattern, first: &Pattern, second: &Pattern, sep: &str) -> (r:
    Vec<String>)
    ensures
        views(r@) == pair_entries(
            parent.source(),
            parent.address(),
            item.css(),
            first.css(),
            second.css(),
            sep@,
            element_match_count(parent.source(), parent.address(), item.css()),
        ),
{
    let items = select_in_node(parent, item);
    let mut out: Vec<String> = Vec::new();
    for i in 0..items.len()
        invariant
            items@.len() == element_match_count(parent.source(), parent.address(), item.css()),
            forall|j: int|
                0 <= j < items@.len() ==> (#[trigger] items@[j]).source() == parent.source()
                    && items@[j].address() == parent.address().push((item.css(), j)),
            views(out@) == pair_entries(
                parent.source(),
                parent.address(),
                item.css(),
                first.css(),
                second.css(),
                sep@,
                i as nat,
            ),
    {
        let firsts = select_in_node(&items[i], first);
        let seconds = select_in_node(&items[i], second);
        if firsts.len() > 0 && seconds.len() > 0 {
            let mut entry = trim_text(node_text(&firsts[0]).as_str());
            entry.append(sep);
            let tail = trim_text(node_text(&seconds[0]).as_str());
            entry.append(tail.as_str());
            let ghost before = out@;
            out.push(entry);
            assert(views(out@) =~= views(before).push(entry@));
        }
    }
    out
}

/// The display string for `word` on the page `html`, with compiled patterns.
pub fn extract(patterns: &Patterns, word: &str, html: &str) -> (r: String)
    ensures
        r@ == extraction(word@, html@),
{
    proof {
        use_type_invariant(patterns);
    }
    let page = parse_page(html);
    let mut phonetics: Vec<String> = Vec::new();
    let mut translations: Vec<String> = Vec::new();
    if contains_cjk_ideograph(word) {
        translations = collect_points(&page, patterns);
    } else {
        let containers = select_in_page(&page, &patterns.trans_container);
        if containers.len() > 0 {
            phonetics = collect_pairs(
                &containers[0],
                &patterns.phone,
                &patterns.span,
                &patterns.phonetic,
                " ",
            );
        }
        if containers.len() > 1 {
            translations = collect_pairs(
                &containers[1],
                &patterns.word_exp,
                &patterns.pos,
                &patterns.trans,
                ": ",
            );
        }
    }
    proof {
        assert(views(Seq::<String>::empty()) =~= Seq::<Seq<char>>::empty());
    }
    render_entries(&phonetics, &translations)
}

/// What parsing `html` for `word` returns: the extraction when every
/// built-in pattern compiles, else the first pattern that does not.
pub open spec fn parse_outcome(word: Seq<char>, html: Seq<char>, r: Result<String, YdtError>) -> bool {
    match r {
        Ok(s) => uncompiled_pattern() is None && s@ == extraction(word, html),
        Err(e) => e matches YdtError::ParseCssSelector(css) && uncompiled_pattern() == Some(css@),
    }
}

/// Parses the phonetics and translations of `word` out of a result page.
/// Performs no network I/O. Fails only when a built-in pattern does not
/// compile; unexpected markup yields fewer entries, down to "No results.".
pub fn parse_translation_from_html(word: &str, html: &str) -> (r: Result<String, YdtError>)
    ensures
        parse_outcome(word@, html@, r),
{
    match Patterns::compile() {
        Ok(patterns) => Ok(extract(&patterns, word, html)),
        Err(css) => Err(YdtError::ParseCssSelector(css)),
    }
}

/// The strategy follows the word's script: a word with an ideograph takes
/// the translations from the CJK word-expression items and has no phonetics;
/// any other word reads the first two translation containers.
pub proof fn lemma_strategy_by_script(word: Seq<char>, src: Seq<char>)
    ensures
        has_ideograph(word) ==> extraction(word, src) == render(
            Seq::empty(),
            point_entries(src, document_match_count(src, WORD_EXP_CE_CSS@)),
        ),
        !has_ideograph(word) ==> extraction(word, src) == render(
            phonetic_entries(src),
            meaning_entries(src),
        ),
{
}

/// The word bears on the result only through its classification: two words
/// that are both CJK, or both not, give the same result on the same page.
pub proof fn lemma_word_matters_only_by_script(w1: Seq<char>, w2: Seq<char>, src: Seq<char>)
    requires
        has_ideograph(w1) == has_ideograph(w2),
    ensures
        extraction(w1, src) == extraction(w2, src),
{
}

/// Parsing is idempotent: two parses of the same word and page give the
/// same display string, or fail on the same pattern.
pub proof fn lemma_parse_idempotent(
    word: Seq<char>,
    html: Seq<char>,
    r1: Result<String, YdtError>,
    r2: Result<String, YdtError>,
)
    requires
        parse_outcome(word, html, r1),
        parse_outcome(word, html, r2),
    ensures
        r1 is Ok <==> r2 is Ok,
        r1 is Ok ==> r1->Ok_0@ == r2->Ok_0@,
        r1 matches Err(YdtError::ParseCssSelector(c1)) ==> r2 matches Err(
            YdtError::ParseCssSelector(c2),
        ) && c1@ == c2@,
{
}

} // verus!
