//! The fetch-and-render pipeline's collection step: given the outcome of each
//! document fetch, convert every body that arrived and skip, while recording,
//! every reference that failed — one bad document never blanks the page.

use vstd::prelude::*;
use crate::fetch::FetchError;
use crate::render::{render_article_with, rendered_html_of, RenderConfig};
use crate::state::App;

verus! {

/// The rendered articles for a sequence of fetch outcomes: bodies that
/// arrived are converted in order, failed references are skipped.
pub open spec fn rendered_articles(
    config: RenderConfig,
    bodies: Seq<Result<String, FetchError>>,
) -> Seq<Seq<char>>
    decreases bodies.len(),
{
    if bodies.len() == 0 {
        Seq::empty()
    } else if bodies[0] is Ok {
        seq![rendered_html_of(config, bodies[0]->Ok_0@)] + rendered_articles(
            config,
            bodies.drop_first(),
        )
    } else {
        rendered_articles(config, bodies.drop_first())
    }
}

/// How many of the fetch outcomes carried a body.
pub open spec fn ok_count(bodies: Seq<Result<String, FetchError>>) -> nat
    decreases bodies.len(),
{
    if bodies.len() == 0 {
        0
    } else if bodies[0] is Ok {
        1 + ok_count(bodies.drop_first())
    } else {
        ok_count(bodies.drop_first())
    }
}

/// Appending one more outcome extends the rendered list by that outcome's
/// article, or by nothing if it failed.
proof fn lemma_rendered_snoc(
    config: RenderConfig,
    bodies: Seq<Result<String, FetchError>>,
    next: Result<String, FetchError>,
)
    ensures
        rendered_articles(config, bodies.push(next)) == rendered_articles(config, bodies) + (
        if next is Ok {
            seq![rendered_html_of(config, next->Ok_0@)]
        } else {
            Seq::<Seq<char>>::empty()
        }),
    decreases bodies.len(),
{
    let whole = bodies.push(next);
    if bodies.len() == 0 {
        assert(whole[0] == next);
        assert(whole.drop_first() =~= Seq::<Result<String, FetchError>>::empty());
        assert(rendered_articles(config, whole.drop_first()) == Seq::<Seq<char>>::empty());
        if next is Ok {
            assert(rendered_articles(config, whole) =~= rendered_articles(config, bodies) + seq![
                rendered_html_of(config, next->Ok_0@),
            ]);
        } else {
            assert(rendered_articles(config, whole) =~= rendered_articles(config, bodies));
        }
    } else {
        assert(whole.drop_first() =~= bodies.drop_first().push(next));
        lemma_rendered_snoc(config, bodies.drop_first(), next);
        if bodies[0] is Ok {
            assert(rendered_articles(config, whole) =~= rendered_articles(config, bodies) + (
            if next is Ok {
                seq![rendered_html_of(config, next->Ok_0@)]
            } else {
                Seq::<Seq<char>>::empty()
            }));
        } else {
            assert(rendered_articles(config, whole) == rendered_articles(
                config,
                bodies.drop_first().push(next),
            ));
        }
    }
}

/// As many articles are rendered as fetches succeeded.
pub proof fn lemma_rendered_len(config: RenderConfig, bodies: Seq<Result<String, FetchError>>)
    ensures
        rendered_articles(config, bodies).len() == ok_count(bodies),
    decreases bodies.len(),
{
    if bodies.len() > 0 {
        lemma_rendered_len(config, bodies.drop_first());
    }
}

/// For a batch in which every fetch succeeded, the article count equals the
/// number of document references, and the article at each position is the
/// conversion of the body at that position: reference order is preserved.
pub proof fn lemma_all_succeed(config: RenderConfig, bodies: Seq<Result<String, FetchError>>)
    requires
        forall|i: int| 0 <= i < bodies.len() ==> bodies[i] is Ok,
    ensures
        rendered_articles(config, bodies).len() == bodies.len(),
        forall|i: int|
            0 <= i < bodies.len() ==> rendered_articles(config, bodies)[i] == rendered_html_of(
                config,
                bodies[i]->Ok_0@,
            ),
    decreases bodies.len(),
{
    if bodies.len() > 0 {
        let rest = bodies.drop_first();
        assert(forall|i: int| 0 <= i < rest.len() ==> rest[i] == bodies[i + 1]);
        lemma_all_succeed(config, rest);
        assert forall|i: int| 0 <= i < bodies.len() implies rendered_articles(config, bodies)[i]
            == rendered_html_of(config, bodies[i]->Ok_0@) by {
            if i > 0 {
                assert(rendered_articles(config, bodies)[i] == rendered_articles(config, rest)[i
                    - 1]);
            }
        }
    }
}

/// For a batch in which exactly one fetch failed, the article count equals
/// the number of document references minus one: the bad reference is skipped,
/// the others still render.
pub proof fn lemma_one_failure(
    config: RenderConfig,
    bodies: Seq<Result<String, FetchError>>,
    bad: int,
)
    requires
        0 <= bad < bodies.len(),
        bodies[bad] is Err,
        forall|i: int| 0 <= i < bodies.len() && i != bad ==> bodies[i] is Ok,
    ensures
        rendered_articles(config, bodies).len() == bodies.len() - 1,
    decreases bodies.len(),
{
    lemma_rendered_len(config, bodies);
    lemma_ok_count_one_failure(bodies, bad);
}

/// Counting successes in a batch with exactly one failure.
proof fn lemma_ok_count_one_failure(bodies: Seq<Result<String, FetchError>>, bad: int)
    requires
        0 <= bad < bodies.len(),
        bodies[bad] is Err,
        forall|i: int| 0 <= i < bodies.len() && i != bad ==> bodies[i] is Ok,
    ensures
        ok_count(bodies) == bodies.len() - 1,
    decreases bodies.len(),
{
    let rest = bodies.drop_first();
    assert(forall|i: int| 0 <= i < rest.len() ==> rest[i] == bodies[i + 1]);
    if bad == 0 {
        lemma_ok_count_all(rest);
    } else {
        lemma_ok_count_one_failure(rest, bad - 1);
    }
}

/// Counting successes in a batch with none missing.
proof fn lemma_ok_count_all(bodies: Seq<Result<String, FetchError>>)
    requires
        forall|i: int| 0 <= i < bodies.len() ==> bodies[i] is Ok,
    ensures
        ok_count(bodies) == bodies.len(),
    decreases bodies.len(),
{
    if bodies.len() > 0 {
        let rest = bodies.drop_first();
        assert(forall|i: int| 0 <= i < rest.len() ==> rest[i] == bodies[i + 1]);
        lemma_ok_count_all(rest);
    }
}

/// Once the application has loaded the rendered articles of a batch in which
/// every fetch succeeded, its article count equals the number of document
/// references, and the articles stand in reference order.
pub proof fn lemma_loaded_state_all_succeed(
    config: RenderConfig,
    bodies: Seq<Result<String, FetchError>>,
    app: App,
)
    requires
        forall|i: int| 0 <= i < bodies.len() ==> bodies[i] is Ok,
        app.articles@.map_values(|a: String| a@) == rendered_articles(config, bodies),
    ensures
        app.articles@.len() == bodies.len(),
        forall|i: int|
            0 <= i < bodies.len() ==> (#[trigger] app.articles@[i])@ == rendered_html_of(
                config,
                bodies[i]->Ok_0@,
            ),
{
    lemma_all_succeed(config, bodies);
    assert forall|i: int| 0 <= i < bodies.len() implies (#[trigger] app.articles@[i])@
        == rendered_html_of(config, bodies[i]->Ok_0@) by {
        assert(app.articles@.map_values(|a: String| a@)[i] == app.articles@[i]@);
    }
}

/// Once the application has loaded the rendered articles of a batch in which
/// exactly one fetch failed, its article count equals the number of document
/// references minus one: the whole page is never blanked by one failure.
pub proof fn lemma_loaded_state_one_failure(
    config: RenderConfig,
    bodies: Seq<Result<String, FetchError>>,
    bad: int,
    app: App,
)
    requires
        0 <= bad < bodies.len(),
        bodies[bad] is Err,
        forall|i: int| 0 <= i < bodies.len() && i != bad ==> bodies[i] is Ok,
        app.articles@.map_values(|a: String| a@) == rendered_articles(config, bodies),
    ensures
        app.articles@.len() == bodies.len() - 1,
{
    lemma_one_failure(config, bodies, bad);
}

/// Converts the bodies that arrived, in fetch order, skipping failed
/// references; the result holds exactly the rendered articles of the batch.
pub fn collect_articles(config: RenderConfig, bodies: Vec<Result<String, FetchError>>) -> (r: Vec<
    String,
>)
    ensures
        r@.map_values(|a: String| a@) == rendered_articles(config, bodies@),
{
    let mut articles: Vec<String> = Vec::new();
    let mut i: usize = 0;
    proof {
        assert(bodies@.take(0) =~= Seq::<Result<String, FetchError>>::empty());
        assert(articles@.map_values(|a: String| a@) =~= rendered_articles(config, bodies@.take(0)));
    }
    while i < bodies.len()
        invariant
            i <= bodies@.len(),
            articles@.map_values(|a: String| a@) == rendered_articles(
                config,
                bodies@.take(i as int),
            ),
        decreases bodies@.len() - i,
    {
        proof {
            assert(bodies@.take(i + 1) =~= bodies@.take(i as int).push(bodies@[i as int]));
            lemma_rendered_snoc(config, bodies@.take(i as int), bodies@[i as int]);
        }
        match &bodies[i] {
            Ok(body) => {
                let html = render_article_with(config, body.as_str());
                articles.push(html);
                proof {
                    assert(articles@.map_values(|a: String| a@) =~= rendered_articles(
                        config,
                        bodies@.take(i + 1),
                    ));
                }
            },
            Err(_) => {
                proof {
                    assert(articles@.map_values(|a: String| a@) =~= rendered_articles(
                        config,
                        bodies@.take(i + 1),
                    ));
                }
            },
        }
        i = i + 1;
    }
    proof {
        assert(bodies@.take(bodies@.len() as int) =~= bodies@);
    }
    articles
}

} // verus!
