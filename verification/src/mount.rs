//! The HTML mount strategy: how a rendered HTML string becomes a mountable
//! unit of the page.
//!
//! Trusting mode wraps the string as-is — a deliberate trust boundary, to be
//! used only when the HTML source is fully controlled (author-authored
//! Markdown, no user input). Parsing mode runs the string through an HTML
//! parser first and tells an empty result apart from malformed markup; an
//! article that cannot be mounted is skipped with a diagnostic, never a
//! crash.

use vstd::prelude::*;
use crate::state::{App, Msg};

verus! {

#[verifier::external_type_specification]
#[verifier::external_body]
#[verifier::reject_recursive_types(MSG)]
pub struct ExNode<MSG>(sauron::vdom::Node<MSG>);

/// How a rendered HTML string becomes part of the visible tree.
#[derive(PartialEq, Eq, Structural, Clone, Copy, Debug)]
pub enum MountStrategy {
    /// Trust the string as-is, no structural validation.
    Trusting,
    /// Parse the string into a structured node tree first.
    Parsing,
}

/// Why mounting one rendered article produced nothing (parsing mode only).
#[derive(PartialEq, Eq, Structural, Clone, Copy, Debug)]
pub enum MountError {
    /// The HTML held no node at all.
    NoNodes,
    /// The markup could not be parsed.
    Malformed,
}

/// One mountable unit: either the trusted raw HTML string itself, or a
/// structured node tree.
pub enum Mounted {
    /// Raw injection: the embedding engine inserts this HTML as-is.
    Raw(String),
    /// A parsed node tree, already wrapped in its article container.
    Tree(sauron::vdom::Node<Msg>),
}

/// The classification of the HTML parser's outcome for a given input text:
/// `None` when a tree comes back, the diagnostic when none does. Parsing is
/// done by an outside crate and is a function of the input alone; this names
/// that classification so that contracts can speak of it exactly.
pub uninterp spec fn parse_outcome_of(html: Seq<char>) -> Option<MountError>;

/// Relies on sauron_html_parser::parse_html: parses HTML into a node tree,
/// reporting a parser failure as malformed and an absent tree as no nodes,
/// one arm per result variant, values passed through unchanged. The parse
/// depends on the input text alone.
#[verifier::external_body]
fn parse_tree(html: &str) -> (r: Result<sauron::vdom::Node<Msg>, MountError>)
    ensures
        (r is Ok) == (parse_outcome_of(html@) is None),
        r matches Err(e) ==> Some(e) == parse_outcome_of(html@),
{
    match sauron_html_parser::parse_html::<Msg>(html) {
        Ok(Some(node)) => Ok(node),
        Ok(None) => Err(MountError::NoNodes),
        Err(_) => Err(MountError::Malformed),
    }
}

/// Relies on sauron::html::article: wraps one node in a semantic `article`
/// element with no attributes.
#[verifier::external_body]
fn el_article(child: sauron::vdom::Node<Msg>) -> (r: sauron::vdom::Node<Msg>) {
    sauron::html::article(vec![], vec![child])
}

/// Relies on sauron::html::main: gathers the given nodes under one `main`
/// element with no attributes.
#[verifier::external_body]
fn el_main(children: Vec<sauron::vdom::Node<Msg>>) -> (r: sauron::vdom::Node<Msg>) {
    sauron::html::main(vec![], children)
}

/// Relies on sauron::html::text: carries the string as one leaf node, which
/// string rendering writes out verbatim — the embedding of a trusted raw
/// HTML unit when the page is rendered to text.
#[verifier::external_body]
fn raw_leaf(html: &String) -> (r: sauron::vdom::Node<Msg>) {
    sauron::html::text(html.as_str())
}

/// The outcome of mounting one article under a strategy: `None` when it
/// mounts, the diagnostic when it does not. Trusting mode always mounts;
/// parsing mode rejects an empty input as the distinct no-nodes condition
/// and otherwise follows the parser's verdict.
pub open spec fn mount_outcome_of(strategy: MountStrategy, html: Seq<char>) -> Option<MountError> {
    match strategy {
        MountStrategy::Trusting => None,
        MountStrategy::Parsing => if html.len() == 0 {
            Some(MountError::NoNodes)
        } else {
            parse_outcome_of(html)
        },
    }
}

/// The in-order diagnostics of the articles that fail to mount under a
/// strategy.
pub open spec fn mount_errors_of(strategy: MountStrategy, articles: Seq<String>) -> Seq<MountError>
    decreases articles.len(),
{
    if articles.len() == 0 {
        Seq::empty()
    } else {
        let rest = mount_errors_of(strategy, articles.drop_first());
        match mount_outcome_of(strategy, articles[0]@) {
            Some(e) => seq![e] + rest,
            None => rest,
        }
    }
}

/// Appending one more article extends the diagnostics by that article's
/// mount error, or by nothing if it mounts.
proof fn lemma_mount_errors_snoc(strategy: MountStrategy, articles: Seq<String>, next: String)
    ensures
        mount_errors_of(strategy, articles.push(next)) == mount_errors_of(strategy, articles) + (
        match mount_outcome_of(strategy, next@) {
            Some(e) => seq![e],
            None => Seq::<MountError>::empty(),
        }),
    decreases articles.len(),
{
    let whole = articles.push(next);
    let tail = (match mount_outcome_of(strategy, next@) {
        Some(e) => seq![e],
        None => Seq::<MountError>::empty(),
    });
    if articles.len() == 0 {
        assert(whole[0] == next);
        assert(whole.drop_first() =~= Seq::<String>::empty());
        assert(mount_errors_of(strategy, whole.drop_first()) == Seq::<MountError>::empty());
        assert(mount_errors_of(strategy, whole) =~= mount_errors_of(strategy, articles) + tail);
    } else {
        assert(whole.drop_first() =~= articles.drop_first().push(next));
        lemma_mount_errors_snoc(strategy, articles.drop_first(), next);
        assert(mount_errors_of(strategy, whole) =~= mount_errors_of(strategy, articles) + tail);
    }
}

/// No more diagnostics than articles.
pub proof fn lemma_mount_errors_len(strategy: MountStrategy, articles: Seq<String>)
    ensures
        mount_errors_of(strategy, articles).len() <= articles.len(),
    decreases articles.len(),
{
    if articles.len() > 0 {
        lemma_mount_errors_len(strategy, articles.drop_first());
    }
}

/// When every stored article mounts under the strategy, nothing is skipped.
pub proof fn lemma_all_mount(strategy: MountStrategy, articles: Seq<String>)
    requires
        forall|i: int|
            0 <= i < articles.len() ==> mount_outcome_of(
                strategy,
                (#[trigger] articles[i])@,
            ) is None,
    ensures
        mount_errors_of(strategy, articles).len() == 0,
    decreases articles.len(),
{
    if articles.len() > 0 {
        let rest = articles.drop_first();
        assert(forall|i: int| 0 <= i < rest.len() ==> rest[i] == articles[i + 1]);
        lemma_all_mount(strategy, rest);
    }
}

/// Mounts one rendered article under the chosen strategy.
///
/// Trusting mode always succeeds and hands the HTML back untouched. Parsing
/// mode tells an empty input — the distinct "no nodes" condition — apart
/// from markup the parser refuses, and wraps a successfully parsed tree in
/// its article container. Success and the diagnostic follow the mount
/// outcome exactly.
pub fn mount_article(strategy: MountStrategy, html: &String) -> (r: Result<Mounted, MountError>)
    ensures
        (r is Ok) == (mount_outcome_of(strategy, html@) is None),
        r matches Err(e) ==> Some(e) == mount_outcome_of(strategy, html@),
        strategy is Trusting ==> (r matches Ok(m) && m matches Mounted::Raw(s) && s@ == html@),
        strategy is Parsing && html@.len() == 0 ==> (r matches Err(e) && e == MountError::NoNodes),
        strategy is Parsing ==> (r matches Ok(m) ==> m is Tree),
{
    match strategy {
        MountStrategy::Trusting => Ok(Mounted::Raw(html.clone())),
        MountStrategy::Parsing => {
            if html.as_str().is_empty() {
                Err(MountError::NoNodes)
            } else {
                match parse_tree(html.as_str()) {
                    Ok(tree) => Ok(Mounted::Tree(el_article(tree))),
                    Err(e) => Err(e),
                }
            }
        },
    }
}

/// Mounts every stored article in order: one mounted unit per article that
/// mounts, and exactly the in-order diagnostics of the articles that do not,
/// so that one bad article never blanks the page. Trusting mode mounts
/// everything.
pub fn mount_articles(strategy: MountStrategy, articles: &Vec<String>) -> (r: (
    Vec<Mounted>,
    Vec<MountError>,
))
    ensures
        r.1@ == mount_errors_of(strategy, articles@),
        r.0@.len() + r.1@.len() == articles@.len(),
        strategy is Trusting ==> r.0@.len() == articles@.len(),
        strategy is Trusting ==> forall|i: int|
            0 <= i < articles@.len() ==> ((#[trigger] r.0@[i]) matches Mounted::Raw(s) && s@
                == articles@[i]@),
        strategy is Parsing ==> forall|i: int| 0 <= i < r.0@.len() ==> (#[trigger] r.0@[i]) is Tree,
{
    let mut mounted: Vec<Mounted> = Vec::new();
    let mut skipped: Vec<MountError> = Vec::new();
    let mut i: usize = 0;
    proof {
        assert(articles@.take(0) =~= Seq::<String>::empty());
    }
    while i < articles.len()
        invariant
            i <= articles@.len(),
            mounted@.len() + skipped@.len() == i,
            skipped@ == mount_errors_of(strategy, articles@.take(i as int)),
            strategy is Trusting ==> mounted@.len() == i,
            strategy is Trusting ==> forall|j: int|
                0 <= j < i ==> ((#[trigger] mounted@[j]) matches Mounted::Raw(s) && s@
                    == articles@[j]@),
            strategy is Parsing ==> forall|j: int|
                0 <= j < mounted@.len() ==> (#[trigger] mounted@[j]) is Tree,
        decreases articles@.len() - i,
    {
        proof {
            assert(articles@.take(i + 1) =~= articles@.take(i as int).push(articles@[i as int]));
            lemma_mount_errors_snoc(strategy, articles@.take(i as int), articles@[i as int]);
        }
        match mount_article(strategy, &articles[i]) {
            Ok(unit) => {
                mounted.push(unit);
                proof {
                    assert(skipped@ =~= mount_errors_of(strategy, articles@.take(i + 1)));
                }
            },
            Err(e) => {
                skipped.push(e);
                proof {
                    assert(skipped@ =~= mount_errors_of(strategy, articles@.take(i + 1)));
                }
            },
        }
        i = i + 1;
    }
    proof {
        assert(articles@.take(articles@.len() as int) =~= articles@);
    }
    (mounted, skipped)
}

impl App {
    /// The view: a single top-level container holding each stored article's
    /// mounted node(s) in state-list order, beside exactly the in-order
    /// diagnostics of the articles that were skipped — so when every stored
    /// article mounts, nothing is skipped, and under the trusting strategy
    /// nothing ever is.
    pub fn view(&self, strategy: MountStrategy) -> (r: (
        sauron::vdom::Node<Msg>,
        Vec<MountError>,
    ))
        ensures
            r.1@ == mount_errors_of(strategy, self.articles@),
            r.1@.len() <= self.articles@.len(),
            strategy is Trusting ==> r.1@.len() == 0,
    {
        let (mounted, skipped) = mount_articles(strategy, &self.articles);
        proof {
            lemma_mount_errors_len(strategy, self.articles@);
            if strategy is Trusting {
                lemma_all_mount(strategy, self.articles@);
            }
        }
        let mut children: Vec<sauron::vdom::Node<Msg>> = Vec::new();
        let mut m = mounted;
        loop
            decreases m@.len(),
        {
            if m.len() == 0 {
                break ;
            }
            let unit = m.remove(0);
            match unit {
                Mounted::Raw(s) => children.push(raw_leaf(&s)),
                Mounted::Tree(node) => children.push(node),
            }
        }
        (el_main(children), skipped)
    }
}

} // verus!
