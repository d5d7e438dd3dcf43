use openchat_backend::headings::{collect_headings, extract_headings, HeadingEvent};
use openchat_backend::markdown::{
    batch_parse_markdown, parse_markdown, parse_markdown_with_options, ParseResult,
};
use openchat_backend::text::{count_words, get_word_count};

#[test]
fn test_parse_markdown() {
    let result = parse_markdown("# Hello\n\nWorld");
    assert!(result.success());
    assert!(result.html().contains("<h1>Hello</h1>"));
    assert!(result.html().contains("<p>World</p>"));
}

#[test]
fn test_word_count() {
    assert_eq!(get_word_count("Hello world"), 2);
    assert_eq!(get_word_count(""), 0);
}

#[test]
fn parse_markdown_renders_the_whole_document() {
    let result = parse_markdown("# Hello\n\nWorld");
    assert_eq!(result.html(), "<h1>Hello</h1>\n<p>World</p>\n");
    assert_eq!(result.error(), "");
}

#[test]
fn parse_markdown_differs_from_its_input() {
    let source = "plain";
    assert_eq!(parse_markdown(source).html(), "<p>plain</p>\n");
}

#[test]
fn parse_markdown_enables_strikethrough() {
    let result = parse_markdown("~~gone~~");
    assert_eq!(result.html(), "<p><del>gone</del></p>\n");
}

#[test]
fn parse_markdown_enables_tables() {
    let result = parse_markdown("| a | b |\n|---|---|\n| 1 | 2 |\n");
    assert!(result.html().contains("<table>"));
    assert!(result.html().contains("<td>1</td>"));
}

#[test]
fn parse_markdown_enables_task_lists() {
    let result = parse_markdown("- [x] done\n");
    assert!(result.html().contains("type=\"checkbox\""));
    assert!(result.html().contains("checked"));
}

#[test]
fn parse_markdown_enables_smart_punctuation() {
    let result = parse_markdown("\"quoted\"");
    assert_eq!(result.html(), "<p>\u{201c}quoted\u{201d}</p>\n");
}

#[test]
fn parse_markdown_of_nothing_is_nothing() {
    let result = parse_markdown("");
    assert!(result.success());
    assert_eq!(result.html(), "");
}

#[test]
fn options_off_leave_extensions_as_text() {
    let result = parse_markdown_with_options("~~gone~~", false, false, false);
    assert!(result.success());
    assert_eq!(result.html(), "<p>~~gone~~</p>\n");
}

#[test]
fn options_switch_strikethrough_alone() {
    let source = "~~gone~~\n\n- [x] done\n";
    let result = parse_markdown_with_options(source, false, true, false);
    assert!(result.html().contains("<del>gone</del>"));
    assert!(!result.html().contains("checkbox"));
}

#[test]
fn options_switch_tables_alone() {
    let source = "| a | b |\n|---|---|\n| 1 | 2 |\n\n~~gone~~\n";
    let result = parse_markdown_with_options(source, true, false, false);
    assert!(result.html().contains("<table>"));
    assert!(!result.html().contains("<del>"));
}

#[test]
fn options_switch_task_lists_alone() {
    let source = "- [ ] open\n\n~~gone~~\n";
    let result = parse_markdown_with_options(source, false, false, true);
    assert!(result.html().contains("type=\"checkbox\""));
    assert!(!result.html().contains("<del>"));
}

#[test]
fn options_never_switch_smart_punctuation() {
    let result = parse_markdown_with_options("\"quoted\"", true, true, true);
    assert_eq!(result.html(), "<p>&quot;quoted&quot;</p>\n");
}

#[test]
fn all_options_match_the_default_but_for_punctuation() {
    let source = "# T\n\n~~a~~\n\n- [x] b\n";
    let custom = parse_markdown_with_options(source, true, true, true);
    let default = parse_markdown(source);
    assert_eq!(custom.html(), default.html());
}

#[test]
fn result_of_a_success() {
    let result = ParseResult::from_outcome(Ok(String::from("<p>x</p>")));
    assert!(result.success());
    assert_eq!(result.html(), "<p>x</p>");
    assert_eq!(result.error(), "");
}

#[test]
fn result_of_a_failure() {
    let result = ParseResult::from_outcome(Err(String::from("Error")));
    assert!(!result.success());
    assert_eq!(result.html(), "");
    assert_eq!(result.error(), "Parse error: Error");
}

#[test]
fn batch_converts_each_in_order() {
    let results = batch_parse_markdown(vec![
        String::from("# One"),
        String::from(""),
        String::from("two"),
    ]);
    assert_eq!(results.len(), 3);
    assert_eq!(results[0].html(), "<h1>One</h1>\n");
    assert_eq!(results[1].html(), "");
    assert_eq!(results[2].html(), "<p>two</p>\n");
    assert!(results.iter().all(|r| r.success()));
}

#[test]
fn batch_of_nothing() {
    assert!(batch_parse_markdown(Vec::new()).is_empty());
}

#[test]
fn batch_agrees_with_single_conversion() {
    let sources = vec![String::from("*a*"), String::from("~~b~~")];
    let results = batch_parse_markdown(sources.clone());
    for (source, result) in sources.iter().zip(results.iter()) {
        assert_eq!(result.html(), parse_markdown(source).html());
    }
}

#[test]
fn word_count_ignores_runs_of_white_space() {
    assert_eq!(get_word_count("  Hello \t\n  world  "), 2);
    assert_eq!(get_word_count("   "), 0);
    assert_eq!(get_word_count("one"), 1);
    assert_eq!(get_word_count("a b c d e"), 5);
}

#[test]
fn word_count_knows_unicode_white_space() {
    assert_eq!(get_word_count("a\u{3000}b\u{2003}c\u{a0}d"), 4);
    assert_eq!(get_word_count("h\u{e9}llo w\u{f6}rld"), 2);
}

#[test]
fn word_count_agrees_with_split_whitespace() {
    let samples = ["", " ", "a", " a", "a ", "# Title\n\nSome *text* here.\n", "x\ty\nz\r\nw"];
    for sample in samples {
        assert_eq!(get_word_count(sample), sample.split_whitespace().count());
    }
}

#[test]
fn word_count_of_two_hundred_words() {
    let text = "word ".repeat(200);
    assert_eq!(get_word_count(&text), 200);
}

#[test]
fn headings_with_level_and_text() {
    let headings = extract_headings("# Title\n\ntext\n\n## Second part\n\n### Third\n");
    assert_eq!(
        headings,
        vec![
            (1, String::from("Title")),
            (2, String::from("Second part")),
            (3, String::from("Third")),
        ]
    );
}

#[test]
fn headings_of_a_document_without_any() {
    assert!(extract_headings("just a paragraph\n").is_empty());
    assert!(extract_headings("").is_empty());
}

#[test]
fn headings_keep_only_plain_text() {
    let headings = extract_headings("# A `code` B\n");
    assert_eq!(headings, vec![(1, String::from("A  B"))]);
}

#[test]
fn headings_join_text_across_emphasis() {
    let headings = extract_headings("## Very *important* thing\n");
    assert_eq!(headings, vec![(2, String::from("Very important thing"))]);
}

#[test]
fn headings_of_setext_form() {
    let headings = extract_headings("Top\n===\n\nSub\n---\n");
    assert_eq!(headings, vec![(1, String::from("Top")), (2, String::from("Sub"))]);
}

#[test]
fn headings_down_to_level_six() {
    let headings = extract_headings("###### deep\n");
    assert_eq!(headings, vec![(6, String::from("deep"))]);
}

#[test]
fn collect_ignores_text_outside_headings() {
    let events = vec![
        HeadingEvent::Text(String::from("before")),
        HeadingEvent::Start(2),
        HeadingEvent::Text(String::from("in")),
        HeadingEvent::Other,
        HeadingEvent::Text(String::from("side")),
        HeadingEvent::End,
        HeadingEvent::Text(String::from("after")),
    ];
    assert_eq!(collect_headings(&events), vec![(2, String::from("inside"))]);
}

#[test]
fn collect_drops_a_heading_without_end() {
    let events = vec![HeadingEvent::Start(1), HeadingEvent::Text(String::from("open"))];
    assert!(collect_headings(&events).is_empty());
}

#[test]
fn collect_ignores_an_end_without_start() {
    let events = vec![HeadingEvent::End, HeadingEvent::Start(3), HeadingEvent::End];
    assert_eq!(collect_headings(&events), vec![(3, String::new())]);
}

#[test]
fn collect_restarts_on_a_second_start() {
    let events = vec![
        HeadingEvent::Start(1),
        HeadingEvent::Text(String::from("lost")),
        HeadingEvent::Start(2),
        HeadingEvent::Text(String::from("kept")),
        HeadingEvent::End,
    ];
    assert_eq!(collect_headings(&events), vec![(2, String::from("kept"))]);
}

#[test]
fn count_words_counts_runs_of_non_blanks() {
    assert_eq!(count_words(&vec![]), 0);
    assert_eq!(count_words(&vec![true, true]), 0);
    assert_eq!(count_words(&vec![false]), 1);
    assert_eq!(count_words(&vec![false, false, true, false]), 2);
    assert_eq!(count_words(&vec![true, false, true, true, false, false, true]), 2);
    assert_eq!(count_words(&vec![false, true, false, true, false]), 3);
}
