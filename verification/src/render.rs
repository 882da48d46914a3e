//! The Markdown renderer: a thin verified face over the Markdown-to-HTML
//! converter. Two fixed configurations are offered — plain, and with the
//! bundled syntax highlighter applied to fenced code blocks — and under
//! either the output is a function of the source text alone.

use vstd::prelude::*;

verus! {

/// How the renderer is configured: whether fenced code blocks pass through
/// the syntax highlighter.
#[derive(PartialEq, Eq, Structural, Clone, Copy, Debug)]
pub enum RenderConfig {
    /// No plugins: fenced code blocks stay plain.
    Plain,
    /// Fenced code blocks go through the bundled syntax highlighter.
    Highlighted,
}

/// The HTML that the converter produces for a source text under the plain
/// configuration. The conversion itself is done by an outside crate; this
/// names its result so that contracts can speak of it exactly.
pub uninterp spec fn md_html_of(md: Seq<char>) -> Seq<char>;

/// The HTML the converter produces when fenced code blocks are passed
/// through the bundled syntax highlighter (its grammar and theme sets are
/// fixed and embedded, so this too is a function of the source text alone).
pub uninterp spec fn md_html_highlighted_of(md: Seq<char>) -> Seq<char>;

/// The HTML for a source text under a renderer configuration.
pub open spec fn rendered_html_of(config: RenderConfig, md: Seq<char>) -> Seq<char> {
    match config {
        RenderConfig::Plain => md_html_of(md),
        RenderConfig::Highlighted => md_html_highlighted_of(md),
    }
}

/// Relies on comrak::markdown_to_html_with_plugins: with fixed (default)
/// options and plugins the output depends on the input text alone, and an
/// empty document renders to an empty string.
#[verifier::external_body]
fn markdown_to_html(md: &str) -> (r: String)
    ensures
        r@ == md_html_of(md@),
        md@.len() == 0 ==> r@.len() == 0,
{
    comrak::markdown_to_html_with_plugins(
        md,
        &comrak::Options::default(),
        &comrak::options::Plugins::default(),
    )
}

/// Relies on comrak::markdown_to_html_with_plugins together with
/// comrak::plugins::syntect::SyntectAdapter: the adapter's grammar and theme
/// sets are embedded, so with fixed options the output depends on the input
/// text alone, and an empty document still renders to an empty string.
#[verifier::external_body]
fn markdown_to_html_highlighted(md: &str) -> (r: String)
    ensures
        r@ == md_html_highlighted_of(md@),
        md@.len() == 0 ==> r@.len() == 0,
{
    let adapter = comrak::plugins::syntect::SyntectAdapter::new(None);
    let mut plugins = comrak::options::Plugins::default();
    plugins.render.codefence_syntax_highlighter = Some(&adapter);
    comrak::markdown_to_html_with_plugins(md, &comrak::Options::default(), &plugins)
}

/// Converts one Markdown source text to HTML under the given configuration.
/// The conversion is total: any input yields some HTML string, and an empty
/// input yields an empty one.
pub fn render_article_with(config: RenderConfig, md: &str) -> (r: String)
    ensures
        r@ == rendered_html_of(config, md@),
        md@.len() == 0 ==> r@.len() == 0,
{
    match config {
        RenderConfig::Plain => markdown_to_html(md),
        RenderConfig::Highlighted => markdown_to_html_highlighted(md),
    }
}

/// Converts one Markdown source text to HTML under the plain configuration.
pub fn render_article(md: &str) -> (r: String)
    ensures
        r@ == md_html_of(md@),
        md@.len() == 0 ==> r@.len() == 0,
{
    render_article_with(RenderConfig::Plain, md)
}

/// Rendering the same Markdown source twice under the same configuration
/// yields byte-identical HTML: the renderer is deterministic.
pub proof fn lemma_render_deterministic(
    config: RenderConfig,
    md: Seq<char>,
    first: Seq<char>,
    second: Seq<char>,
)
    requires
        first == rendered_html_of(config, md),
        second == rendered_html_of(config, md),
    ensures
        first == second,
{
}

} // verus!
