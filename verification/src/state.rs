//! The application state machine: a one-shot load driven by two messages.
//!
//! At startup the machine dispatches exactly one fetch request; when the
//! fetch-and-render pipeline completes, the rendered articles replace the
//! (initially empty) article list and the machine settles in its final phase.

use vstd::prelude::*;

verus! {

/// One message of the application state machine.
pub enum Msg {
    /// Ask for every configured document to be fetched, rendered, and stored.
    RequestArticles,
    /// The fetch-and-render pipeline finished with these rendered articles.
    ArticlesLoaded(Vec<String>),
}

/// What the state machine asks its host to do after a step.
#[derive(PartialEq, Eq, Structural, Clone, Copy, Debug)]
pub enum Effect {
    /// Run the fetch-and-render pipeline for every configured document
    /// reference and feed the result back as `Msg::ArticlesLoaded`.
    FetchArticles,
    /// Nothing left to do.
    NoOp,
}

/// The lifecycle phase of the one-shot load.
#[derive(PartialEq, Eq, Structural, Clone, Copy, Debug)]
pub enum Phase {
    /// Initial: the article list is empty and no fetch has been dispatched.
    Idle,
    /// The fetch effect has been dispatched and not yet answered.
    Fetching,
    /// The article list has been populated; no further transition occurs.
    Loaded,
}

/// The application state: an ordered list of rendered articles (insertion
/// order is fetch order) together with the lifecycle phase.
pub struct App {
    /// The rendered articles, in the order their document references were
    /// fetched.
    pub articles: Vec<String>,
    /// Where the one-shot load stands.
    pub phase: Phase,
}

impl App {
    /// A fresh application: no articles, nothing dispatched yet.
    pub fn new() -> (r: App)
        ensures
            r.articles@.len() == 0,
            r.phase == Phase::Idle,
    {
        App { articles: Vec::new(), phase: Phase::Idle }
    }

    /// Startup: emit the single `RequestArticles` message that drives the
    /// whole load. The state itself is untouched.
    pub fn init(&mut self) -> (m: Msg)
        ensures
            m == Msg::RequestArticles,
            final(self).articles@ == old(self).articles@,
            final(self).phase == old(self).phase,
    {
        Msg::RequestArticles
    }

    /// One step of the machine. `RequestArticles` leaves the article list
    /// alone, moves to the fetching phase and asks the host to run the
    /// pipeline; `ArticlesLoaded` replaces the article list, settles in the
    /// loaded phase and asks for nothing further.
    pub fn update(&mut self, msg: Msg) -> (e: Effect)
        ensures
            match msg {
                Msg::RequestArticles => {
                    &&& final(self).articles@ == old(self).articles@
                    &&& final(self).phase == Phase::Fetching
                    &&& e == Effect::FetchArticles
                },
                Msg::ArticlesLoaded(list) => {
                    &&& final(self).articles@ == list@
                    &&& final(self).phase == Phase::Loaded
                    &&& e == Effect::NoOp
                },
            },
    {
        match msg {
            Msg::RequestArticles => {
                self.phase = Phase::Fetching;
                Effect::FetchArticles
            },
            Msg::ArticlesLoaded(list) => {
                self.articles = list;
                self.phase = Phase::Loaded;
                Effect::NoOp
            },
        }
    }
}

} // verus!
