use minicode::ui::markdown::MarkdownRenderer;
use minicode::ui::styled::ThemeColor;

#[test]
fn test_markdown_edge_cases_no_panic() {
    let edge_cases = [
        "**",
        "***",
        "****",
        "**:",
        "*",
        "`",
        "``",
        "```",
        "[",
        "[]",
        "[](",
        "[](url)",
        "• **",
        "1. **",
        "🦀 emoji and UTF-8: › ✔ └ ─",
        "",
        "\n\n\n",
    ];

    for input in edge_cases {
        let _ = MarkdownRenderer::render(input);
        let _ = MarkdownRenderer::parse_inline(input);
    }
}

#[test]
fn test_markdown_bold_and_code_spans() {
    let spans = MarkdownRenderer::parse_inline("Check `Cargo.toml:31` and **v0.0.27**");
    assert!(!spans.is_empty());
}

#[test]
fn test_markdown_section_header() {
    let lines = MarkdownRenderer::render("**Recent Commits (latest 20):**\n• **v0.0.27** - Smooth");
    assert_eq!(lines.len(), 2);
}

#[test]
fn test_markdown_numbered_list() {
    let lines = MarkdownRenderer::render("1. Model limitation\n2. Native RAM usage is ~1.27 GB");
    assert_eq!(lines.len(), 2);
}

#[test]
fn inline_spans_carry_styles() {
    let spans = MarkdownRenderer::parse_inline("Check `Cargo.toml:31` and **v0.0.27**");
    let texts: Vec<&str> = spans.iter().map(|s| s.text.as_str()).collect();
    assert_eq!(texts, vec!["Check ", "Cargo.toml:31", " ", "and ", "v0.0.27"]);
    assert_eq!(spans[1].style.fg, Some(ThemeColor::Info));
    assert!(spans[1].style.bold);
    assert_eq!(spans[4].style.fg, Some(ThemeColor::Warning));
    let link = MarkdownRenderer::parse_inline("see [docs](https://x.dev) now");
    assert_eq!(link[1].text, "docs");
    assert!(link[1].style.underlined);
    let tokens = MarkdownRenderer::parse_inline("src/main.rs 4.3s, https://a.b Failed");
    let words: Vec<&str> = tokens.iter().map(|s| s.text.as_str()).collect();
    assert_eq!(words, vec!["src/main.rs ", "4.3s,", " ", "https://a.b ", "Failed"]);
    assert_eq!(tokens[0].style.fg, Some(ThemeColor::Success));
    assert_eq!(tokens[1].style.fg, Some(ThemeColor::Warning));
    assert_eq!(tokens[2].style.fg, Some(ThemeColor::TextPrimary));
    assert_eq!(tokens[3].style.fg, Some(ThemeColor::Info));
    assert_eq!(tokens[4].style.fg, Some(ThemeColor::Destructive));
    // a trailing space is part of the word, so "4.3s " is no metric
    let spaced = MarkdownRenderer::parse_inline("4.3s later");
    assert_eq!(spaced[0].style.fg, Some(ThemeColor::TextPrimary));
}

#[test]
fn block_structure_is_rendered() {
    let lines = MarkdownRenderer::render("```rust\nlet x = 1;\n```\n| a | b |\n|---|:-:|\n## Title\n---");
    let text = |i: usize| lines[i].spans.iter().map(|s| s.text.as_str()).collect::<String>();
    assert_eq!(lines.len(), 7);
    assert_eq!(text(0), "  ┌─ rust ────────────────────────");
    assert_eq!(text(1), "  │ let x = 1;");
    assert_eq!(text(2), "  └────────────────────────────────");
    assert_eq!(text(3), "│ a │ b │");
    assert_eq!(text(4), "├────────────────────┼────────────────────┤");
    assert_eq!(text(5), "## Title");
    assert_eq!(text(6), "────────────────────────────────────────────────────");
}
