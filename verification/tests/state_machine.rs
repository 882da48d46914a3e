use mdpage::fetch::FetchError;
use mdpage::pipeline::collect_articles;
use mdpage::render::RenderConfig;
use mdpage::render::render_article;
use mdpage::state::{App, Effect, Msg, Phase};

#[test]
fn a_fresh_app_is_idle_and_empty() {
    let app = App::new();
    assert!(app.articles.is_empty());
    assert_eq!(app.phase, Phase::Idle);
}

#[test]
fn init_dispatches_exactly_the_fetch_request() {
    let mut app = App::new();
    let msg = app.init();
    assert!(matches!(msg, Msg::RequestArticles));
    assert!(app.articles.is_empty());
    assert_eq!(app.phase, Phase::Idle);
}

#[test]
fn request_articles_asks_for_the_fetch() {
    let mut app = App::new();
    let effect = app.update(Msg::RequestArticles);
    assert_eq!(effect, Effect::FetchArticles);
    assert_eq!(app.phase, Phase::Fetching);
    assert!(app.articles.is_empty());
}

#[test]
fn articles_loaded_replaces_the_list() {
    let mut app = App::new();
    app.update(Msg::RequestArticles);
    let effect = app.update(Msg::ArticlesLoaded(vec![
        String::from("<p>a</p>"),
        String::from("<p>b</p>"),
    ]));
    assert_eq!(effect, Effect::NoOp);
    assert_eq!(app.phase, Phase::Loaded);
    assert_eq!(app.articles, vec!["<p>a</p>", "<p>b</p>"]);
}

#[test]
fn all_successful_fetches_keep_count_and_order() {
    let bodies: Vec<Result<String, FetchError>> = vec![
        Ok(String::from("# One")),
        Ok(String::from("# Two")),
        Ok(String::from("# Three")),
    ];
    let articles = collect_articles(RenderConfig::Plain, bodies);
    assert_eq!(articles.len(), 3);
    assert_eq!(articles[0], render_article("# One"));
    assert_eq!(articles[1], render_article("# Two"));
    assert_eq!(articles[2], render_article("# Three"));
}

#[test]
fn one_failed_fetch_omits_exactly_that_entry() {
    let bodies: Vec<Result<String, FetchError>> = vec![
        Ok(String::from("# One")),
        Err(FetchError::Network),
        Ok(String::from("# Three")),
    ];
    let articles = collect_articles(RenderConfig::Plain, bodies);
    assert_eq!(articles.len(), 2);
    assert_eq!(articles[0], render_article("# One"));
    assert_eq!(articles[1], render_article("# Three"));
}

#[test]
fn a_decode_failure_is_skipped_too() {
    let bodies: Vec<Result<String, FetchError>> = vec![Err(FetchError::Decode)];
    let articles = collect_articles(RenderConfig::Plain, bodies);
    assert!(articles.is_empty());
}

#[test]
fn an_empty_batch_yields_no_articles() {
    let articles = collect_articles(RenderConfig::Plain, Vec::new());
    assert!(articles.is_empty());
}

#[test]
fn fetch_error_kinds_are_distinct() {
    assert_ne!(FetchError::Network, FetchError::Decode);
}
