use mdpage::mount::{mount_article, mount_articles, MountError, MountStrategy, Mounted};
use mdpage::state::{App, Msg};

#[test]
fn parsing_an_empty_string_is_the_no_nodes_condition() {
    let outcome = mount_article(MountStrategy::Parsing, &String::new());
    assert!(matches!(outcome, Err(MountError::NoNodes)));
}

#[test]
fn parsing_malformed_markup_is_a_distinct_condition() {
    let outcome = mount_article(MountStrategy::Parsing, &String::from("<!x>"));
    assert!(matches!(outcome, Err(MountError::Malformed)));
}

#[test]
fn the_two_mount_failures_are_distinguishable() {
    assert_ne!(MountError::NoNodes, MountError::Malformed);
}

#[test]
fn parsing_wraps_the_article_in_its_container() {
    let outcome = mount_article(MountStrategy::Parsing, &String::from("<p>hi</p>"));
    match outcome {
        Ok(Mounted::Tree(node)) => {
            let rendered = node.render_to_string();
            assert_eq!(rendered, "<article><p>hi</p></article>");
        }
        other => panic!("expected a parsed tree, got {:?}", other.is_ok()),
    }
}

#[test]
fn trusting_mode_hands_the_html_back_untouched() {
    let html = String::from("<p>hi</p>");
    let outcome = mount_article(MountStrategy::Trusting, &html);
    match outcome {
        Ok(Mounted::Raw(s)) => assert_eq!(s, html),
        _ => panic!("trusting mode must always mount"),
    }
}

#[test]
fn a_bad_article_is_skipped_not_fatal() {
    let articles = vec![
        String::from("<p>one</p>"),
        String::new(),
        String::from("<p>three</p>"),
    ];
    let (mounted, skipped) = mount_articles(MountStrategy::Parsing, &articles);
    assert_eq!(mounted.len(), 2);
    assert_eq!(skipped, vec![MountError::NoNodes]);
}

#[test]
fn diagnostics_come_back_in_article_order() {
    let articles = vec![
        String::new(),
        String::from("<p>ok</p>"),
        String::from("<!x>"),
    ];
    let (mounted, skipped) = mount_articles(MountStrategy::Parsing, &articles);
    assert_eq!(mounted.len(), 1);
    assert_eq!(skipped, vec![MountError::NoNodes, MountError::Malformed]);
}

#[test]
fn the_view_reports_exactly_the_skipped_articles() {
    let mut app = App::new();
    app.update(Msg::RequestArticles);
    app.update(Msg::ArticlesLoaded(vec![
        String::from("<p>one</p>"),
        String::from("<!x>"),
    ]));
    let (node, skipped) = app.view(MountStrategy::Parsing);
    assert_eq!(skipped, vec![MountError::Malformed]);
    assert_eq!(
        node.render_to_string(),
        "<main><article><p>one</p></article></main>"
    );
}

#[test]
fn the_trusting_view_writes_the_html_verbatim() {
    let mut app = App::new();
    app.update(Msg::RequestArticles);
    app.update(Msg::ArticlesLoaded(vec![String::from("<p>one</p>")]));
    let (node, skipped) = app.view(MountStrategy::Trusting);
    assert!(skipped.is_empty());
    assert_eq!(node.render_to_string(), "<main><p>one</p></main>");
}

#[test]
fn the_view_holds_every_article_in_order() {
    let mut app = App::new();
    app.update(Msg::RequestArticles);
    app.update(Msg::ArticlesLoaded(vec![
        String::from("<p>one</p>"),
        String::from("<p>two</p>"),
    ]));
    let (node, skipped) = app.view(MountStrategy::Parsing);
    assert!(skipped.is_empty());
    let rendered = node.render_to_string();
    assert_eq!(
        rendered,
        "<main><article><p>one</p></article><article><p>two</p></article></main>"
    );
}
