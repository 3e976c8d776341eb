//! Data describing Edge browser sessions and settings history.
use vstd::prelude::*;
use crate::time::Timestamp;

verus! {

/// A browser tab, with the times it was opened and closed where known.
#[derive(Debug, Clone, PartialEq)]
pub struct TabEvent {
    pub opened_at: Option<Timestamp>,
    pub closed_at: Option<Timestamp>,
}

/// A browser session with its tabs, keyed by its session GUID.
#[derive(Debug, Clone, PartialEq)]
pub struct EdgeInstance {
    pub opened_at: Option<Timestamp>,
    pub closed_at: Option<Timestamp>,
    pub tabs: Vec<TabEvent>,
    pub session_guid: String,
}

/// One change of the default search engine.
#[derive(Debug, Clone, PartialEq)]
pub struct EdgeDefaultSearchEngineChange {
    pub changed_at: Timestamp,
    pub changed_to: String,
}

/// The history of the default search engine.
#[derive(Debug, Clone, PartialEq)]
pub struct EdgeDefaultSearchEngine {
    pub history: Vec<EdgeDefaultSearchEngineChange>,
}

/// One change of the home page.
#[derive(Debug, Clone, PartialEq)]
pub struct EdgeHomePageChange {
    pub changed_at: Timestamp,
    pub changed_to: String,
}

/// The history of the home page.
#[derive(Debug, Clone, PartialEq)]
pub struct EdgeHomePage {
    pub history: Vec<EdgeHomePageChange>,
}

#[derive(Debug, Clone, PartialEq)]
pub enum EdgeEvent {
    EdgeInstance(EdgeInstance),
    DefaultSearchEngine(EdgeDefaultSearchEngine),
    HomePage(EdgeHomePage),
}

} // verus!
