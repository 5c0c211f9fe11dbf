use ydt::extract::{extract, Patterns};
use ydt::parse_translation_from_html;
use ydt::render::{join_entries, render_entries};
use ydt::script::{contains_cjk_ideograph, is_ideograph_char};

fn strings(items: &[&str]) -> Vec<String> {
    items.iter().map(|s| s.to_string()).collect()
}

#[test]
fn page_without_matches_gives_no_results() {
    let html = "<html><body><p>nothing here</p></body></html>";
    assert_eq!(parse_translation_from_html("hello", html).unwrap(), "No results.");
    assert_eq!(parse_translation_from_html("学习", html).unwrap(), "No results.");
    assert_eq!(parse_translation_from_html("hello", "").unwrap(), "No results.");
}

#[test]
fn phonetics_only_page_has_no_trailing_newline() {
    let html = r#"
    <div class="trans-container">
      <div class="per-phone"><span>英</span><span class="phonetic">/həˈləʊ/</span></div>
      <div class="per-phone"><span>美</span><span class="phonetic">/həˈloʊ/</span></div>
    </div>
    "#;
    let out = parse_translation_from_html("hello", html).unwrap();
    assert_eq!(out, "英 /həˈləʊ/ 美 /həˈloʊ/");
}

#[test]
fn translations_only_page_gives_the_block_alone() {
    let html = r#"
    <div class="trans-container"></div>
    <div class="trans-container">
      <li class="word-exp"><span class="pos">n.</span><span class="trans">书</span></li>
      <li class="word-exp"><span class="pos">v.</span><span class="trans">预订</span></li>
    </div>
    "#;
    let out = parse_translation_from_html("book", html).unwrap();
    assert_eq!(out, "n.: 书\nv.: 预订");
}

#[test]
fn texts_are_trimmed_around_labels_and_translations() {
    let html = r#"
    <div class="trans-container">
      <div class="per-phone"><span>  英 </span><span class="phonetic">
        /kæt/  </span></div>
    </div>
    <div class="trans-container">
      <li class="word-exp"><span class="pos"> n. </span><span class="trans">
        猫 </span></li>
    </div>
    "#;
    let out = parse_translation_from_html("cat", html).unwrap();
    assert_eq!(out, "英 /kæt/\nn.: 猫");
}

#[test]
fn unicode_white_space_is_trimmed() {
    let html = "<div class=\"trans-container\"></div><div class=\"trans-container\">\
        <li class=\"word-exp\"><span class=\"pos\">\u{3000}n.\u{a0}</span>\
        <span class=\"trans\">\u{2003}书 本\u{205f}</span></li></div>";
    assert_eq!(parse_translation_from_html("book", html).unwrap(), "n.: 书 本");
}

#[test]
fn incomplete_entries_are_skipped() {
    let html = r#"
    <div class="trans-container">
      <div class="per-phone"><span class="phonetic">/a/</span></div>
      <div class="per-phone"><b>no span</b></div>
    </div>
    <div class="trans-container">
      <li class="word-exp"><span class="pos">n.</span></li>
      <li class="word-exp"><span class="trans">only trans</span></li>
      <li class="word-exp"><span class="pos">adj.</span><span class="trans">好</span></li>
    </div>
    "#;
    let out = parse_translation_from_html("good", html).unwrap();
    // The first phonetic block has a span (the phonetic itself) as its label.
    assert_eq!(out, "/a/ /a/\nadj.: 好");
}

#[test]
fn only_the_first_two_containers_are_read() {
    let html = r#"
    <div class="trans-container"><div class="per-phone"><span>英</span><span class="phonetic">/x/</span></div></div>
    <div class="trans-container"><li class="word-exp"><span class="pos">n.</span><span class="trans">一</span></li></div>
    <div class="trans-container"><li class="word-exp"><span class="pos">v.</span><span class="trans">二</span></li></div>
    "#;
    assert_eq!(parse_translation_from_html("x", html).unwrap(), "英 /x/\nn.: 一");
}

#[test]
fn cjk_word_ignores_container_markup() {
    let html = r#"
    <div class="trans-container"><div class="per-phone"><span>英</span><span class="phonetic">/x/</span></div></div>
    <li class="word-exp-ce mcols-layout"><a class="point">study</a></li>
    <li class="word-exp-ce mcols-layout"><span>no anchor</span></li>
    "#;
    assert_eq!(parse_translation_from_html("学", html).unwrap(), "study");
    assert_eq!(parse_translation_from_html("study", html).unwrap(), "英 /x/");
}

#[test]
fn cjk_anchor_text_is_not_trimmed() {
    let html = r#"<li class="word-exp-ce mcols-layout"><a class="point"> to learn </a></li>"#;
    assert_eq!(parse_translation_from_html("学", html).unwrap(), " to learn ");
}

#[test]
fn parsing_twice_gives_the_same_result() {
    let html = r#"
    <li class="word-exp-ce mcols-layout"><a class="point">study</a></li>
    <div class="trans-container"><div class="per-phone"><span>英</span><span class="phonetic">/x/</span></div></div>
    "#;
    for word in ["学习", "study"] {
        let a = parse_translation_from_html(word, html).unwrap();
        let b = parse_translation_from_html(word, html).unwrap();
        assert_eq!(a, b);
    }
}

#[test]
fn compiled_patterns_can_be_reused() {
    let patterns = Patterns::compile().unwrap();
    let html = r#"<li class="word-exp-ce mcols-layout"><a class="point">water</a></li>"#;
    assert_eq!(extract(&patterns, "水", html), "water");
    assert_eq!(extract(&patterns, "水", html), "water");
    assert_eq!(extract(&patterns, "water", html), "No results.");
}

#[test]
fn ideograph_ranges_classify_words() {
    assert!(contains_cjk_ideograph("学习"));
    assert!(contains_cjk_ideograph("abc学"));
    assert!(!contains_cjk_ideograph("hello"));
    assert!(!contains_cjk_ideograph(""));
    assert!(!contains_cjk_ideograph("こんにちは"));
    assert!(is_ideograph_char('\u{3400}'));
    assert!(is_ideograph_char('\u{4DBF}'));
    assert!(!is_ideograph_char('\u{4DC0}'));
    assert!(is_ideograph_char('\u{F900}'));
    assert!(is_ideograph_char('\u{20000}'));
    assert!(is_ideograph_char('\u{2EBEF}'));
    assert!(!is_ideograph_char('\u{2EBF0}'));
    assert!(is_ideograph_char('\u{3134F}'));
    assert!(!is_ideograph_char('\u{31350}'));
    assert!(!is_ideograph_char('\u{323AF}'));
    assert!(!contains_cjk_ideograph("\u{31350}"));
}

#[test]
fn entries_are_joined_and_rendered() {
    assert_eq!(join_entries(&strings(&["a", "b", "c"]), ", "), "a, b, c");
    assert_eq!(join_entries(&strings(&[]), ", "), "");
    assert_eq!(join_entries(&strings(&["one"]), "\n"), "one");
    assert_eq!(render_entries(&strings(&[]), &strings(&[])), "No results.");
    assert_eq!(render_entries(&strings(&["英 /a/", "美 /b/"]), &strings(&[])), "英 /a/ 美 /b/");
    assert_eq!(render_entries(&strings(&[]), &strings(&["x", "y"])), "x\ny");
    assert_eq!(render_entries(&strings(&["p"]), &strings(&["x", "y"])), "p\nx\ny");
    assert_eq!(render_entries(&strings(&[""]), &strings(&["x"])), "x");
    assert_eq!(render_entries(&strings(&[""]), &strings(&[])), "");
}
