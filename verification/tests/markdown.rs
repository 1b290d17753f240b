use basilk::markdown::render_markdown;
use basilk::style::{Piece, Tint};

fn line_text(line: &[Piece]) -> String {
    line.iter().map(|s| s.text.as_str()).collect()
}

fn render(md: &str) -> Vec<Vec<Piece>> {
    render_markdown(md).unwrap()
}

fn rendered_lines(md: &str) -> Vec<String> {
    render(md).iter().map(|l| line_text(l)).collect()
}

#[test]
fn nested_list_indent_follows_the_parent_marker_width() {
    let text = render("10. parent\n    - child\n");
    let child = text.iter().map(|l| line_text(l)).find(|l| l.contains("child")).unwrap();

    assert!(child.starts_with("    • "), "child indents under the parent text, got {child:?}");
}

#[test]
fn blank_line_inside_a_blockquote_keeps_the_bar() {
    let lines = rendered_lines("> para\n>\n> - item\n");

    assert!(
        lines.iter().any(|l| l.trim_end() == "│"),
        "separator inside the quote keeps its bar, got {lines:?}"
    );
}

#[test]
fn empty_input_produces_no_lines() {
    assert!(render("").is_empty());
    assert!(render("  \n\n ").is_empty());
}

#[test]
fn heading_is_styled_by_level() {
    let text = render("# Title\n\n## Sub\n\n#### Deep");
    assert_eq!(line_text(&text[0]), "Title");
    assert!(text[0][0].look.bold && text[0][0].look.underlined);
    assert_eq!(text[0][0].look.fg, Some(Tint::Cyan));

    assert_eq!(line_text(&text[2]), "Sub");
    assert_eq!(text[2][0].look.fg, Some(Tint::Green));

    assert_eq!(line_text(&text[4]), "Deep");
    assert_eq!(text[4][0].look.fg, None);
}

#[test]
fn inline_styles_apply_modifiers() {
    let text = render("a **b** *c* ~~d~~ `e`");
    let spans = &text[0];

    let bold = spans.iter().find(|s| s.text == "b").unwrap();
    assert!(bold.look.bold);

    let italic = spans.iter().find(|s| s.text == "c").unwrap();
    assert!(italic.look.italic);

    let struck = spans.iter().find(|s| s.text == "d").unwrap();
    assert!(struck.look.crossed_out);

    let code = spans.iter().find(|s| s.text == "`e`").unwrap();
    assert_eq!(code.look.fg, Some(Tint::LightYellow));

    // Styles do not leak into the surrounding text
    let plain = spans.iter().find(|s| s.text.contains('a')).unwrap();
    assert!(!plain.look.bold && !plain.look.italic && !plain.look.underlined && !plain.look.crossed_out);
}

#[test]
fn nested_bold_italic_keeps_both_modifiers() {
    let text = render("***both***");
    let span = &text[0][0];
    assert!(span.look.bold);
    assert!(span.look.italic);
}

#[test]
fn unordered_list_uses_bullets() {
    let lines = rendered_lines("- one\n- two");
    assert_eq!(lines, vec!["• one", "• two"]);
}

#[test]
fn ordered_list_numbers_sequentially() {
    let lines = rendered_lines("1. one\n2. two\n3. three");
    assert_eq!(lines, vec!["1. one", "2. two", "3. three"]);
}

#[test]
fn nested_list_is_indented() {
    let lines = rendered_lines("- outer\n  - inner");
    assert_eq!(lines, vec!["• outer", "  • inner"]);
}

#[test]
fn code_block_lines_are_indented_and_styled() {
    let text = render("before\n\n```rust\nlet a = 1;\nlet b = 2;\n```\n\nafter");
    let lines: Vec<String> = text.iter().map(|l| line_text(l)).collect();

    assert_eq!(lines, vec!["before", "", "  let a = 1;", "  let b = 2;", "", "after"]);
    assert_eq!(text[2][0].look.fg, Some(Tint::LightYellow));
}

#[test]
fn blockquote_gets_bar_prefix() {
    let text = render("> quoted");
    assert_eq!(line_text(&text[0]), "│ quoted");
    assert_eq!(text[0][0].look.fg, Some(Tint::DarkGray));
}

#[test]
fn link_is_underlined_with_dim_url() {
    let text = render("[click](https://example.com)");
    let spans = &text[0];

    assert!(spans[0].look.underlined);
    assert_eq!(spans[0].text, "click");
    assert_eq!(spans[1].text, " (https://example.com)");
    assert_eq!(spans[1].look.fg, Some(Tint::DarkGray));
}

#[test]
fn rule_renders_a_dim_bar() {
    let lines = rendered_lines("a\n\n---\n\nb");
    assert_eq!(lines, vec!["a", "", "─".repeat(40).as_str(), "", "b"]);
}

#[test]
fn paragraphs_are_separated_by_a_blank_line() {
    let lines = rendered_lines("first\n\nsecond");
    assert_eq!(lines, vec!["first", "", "second"]);
}

#[test]
fn soft_breaks_join_into_one_line() {
    let lines = rendered_lines("foo\nbar");
    assert_eq!(lines, vec!["foo bar"]);
}

#[test]
fn unclosed_and_malformed_input_does_not_panic() {
    for md in ["**", "# ", "```\nunclosed", "[](", "> ", "-", "1.", "│ │"] {
        assert!(render_markdown(md).is_some());
    }
}

#[test]
fn rendered_text_never_ends_with_a_blank_line() {
    for md in ["a\n\n", "> q\n>\n", "- x\n\n\n", "# T\n\n---\n"] {
        let text = render(md);
        let last = text.last().unwrap();
        assert!(last.iter().any(|p| !p.text.trim().is_empty()), "{md:?} ends blank");
    }
}

#[test]
fn ordered_list_starting_late_keeps_counting() {
    let lines = rendered_lines("7. seven\n8. eight");
    assert_eq!(lines, vec!["7. seven", "8. eight"]);
}
