use mdpage::render::{render_article, render_article_with, RenderConfig};

#[test]
fn empty_markdown_renders_empty() {
    let html = render_article("");
    assert_eq!(html, "");
}

#[test]
fn nonempty_markdown_renders_nonempty() {
    let html = render_article("# Hello");
    assert!(!html.is_empty());
}

#[test]
fn heading_renders_exactly() {
    let html = render_article("# Hello");
    assert_eq!(html, "<h1>Hello</h1>\n");
}

#[test]
fn renderer_is_not_the_identity() {
    let md = "# Hi";
    let html = render_article(md);
    assert_ne!(html, md);
}

#[test]
fn paragraph_and_emphasis_render_exactly() {
    let html = render_article("plain *em* text");
    assert_eq!(html, "<p>plain <em>em</em> text</p>\n");
}

#[test]
fn the_plain_config_matches_the_default() {
    let md = "# Hello";
    assert_eq!(render_article_with(RenderConfig::Plain, md), render_article(md));
}

#[test]
fn highlighting_touches_fenced_code_blocks() {
    let md = "```rust\nfn answer() -> u32 { 42 }\n```\n";
    let plain = render_article_with(RenderConfig::Plain, md);
    let highlighted = render_article_with(RenderConfig::Highlighted, md);
    assert!(!plain.is_empty());
    assert!(!highlighted.is_empty());
    assert_ne!(plain, highlighted);
    assert!(highlighted.contains("<span"));
}

#[test]
fn highlighting_an_empty_input_is_still_empty() {
    assert_eq!(render_article_with(RenderConfig::Highlighted, ""), "");
}

#[test]
fn highlighted_rendering_twice_is_byte_identical() {
    let md = "before\n\n```rust\nlet x = 1;\n```\n\nafter\n";
    let first = render_article_with(RenderConfig::Highlighted, md);
    let second = render_article_with(RenderConfig::Highlighted, md);
    assert_eq!(first, second);
}

#[test]
fn rendering_twice_is_byte_identical() {
    let md = "# Title\n\nSome *text* with a [link](https://example.com).\n\n```\ncode\n```\n";
    let first = render_article(md);
    let second = render_article(md);
    assert_eq!(first, second);
}
