//! Queries, the pairing of a query with its raw result, and the per-process
//! store that keeps the history of issued queries grouped by source.

use vstd::prelude::*;

use crate::content_source::ContentSource;

verus! {

/// A moment in time, held as milliseconds since the Unix epoch.
#[derive(Clone, Copy, Debug, PartialEq, Eq, Hash, Structural)]
pub struct Timestamp {
    pub millis: i64,
}

impl Timestamp {
    pub fn new(millis: i64) -> (r: Timestamp)
        ensures
            r.millis == millis,
    {
        Timestamp { millis }
    }
}

/// Relies on chrono's `Utc::now` and `DateTime::timestamp_millis`: the
/// current wall-clock time, of whose value nothing is promised.
#[verifier::external_body]
pub fn now_timestamp() -> Timestamp {
    Timestamp { millis: chrono::Utc::now().timestamp_millis() }
}

/// One user-issued search request, bound to a source and a timestamp.
#[derive(Debug, PartialEq, Eq, Hash)]
pub struct Query {
    pub source: ContentSource,
    pub query: String,
    pub date: Timestamp,
}

impl Clone for Query {
    fn clone(&self) -> (r: Self)
        ensures
            r == *self,
    {
        Query { source: self.source, query: self.query.clone(), date: self.date }
    }
}

impl Query {
    pub fn new(target: ContentSource, query: &str, date: Timestamp) -> (r: Self)
        ensures
            r.source == target,
            r.query@ == query@,
            r.date == date,
    {
        Self { query: query.to_owned(), date, source: target }
    }

    pub fn query(&self) -> (r: &str)
        ensures
            r@ == self.query@,
    {
        self.query.as_str()
    }

    pub fn date(&self) -> (r: Timestamp)
        ensures
            r == self.date,
    {
        self.date
    }

    pub fn target(&self) -> (r: &ContentSource)
        ensures
            *r == self.source,
    {
        &self.source
    }
}

/// A query paired with the raw text of the response it got.
#[derive(Debug, PartialEq, Eq, Hash)]
pub struct QueryResultPair(pub Query, pub String);

impl Clone for QueryResultPair {
    fn clone(&self) -> (r: Self)
        ensures
            r == *self,
    {
        QueryResultPair(self.0.clone(), self.1.clone())
    }
}

impl QueryResultPair {
    pub fn new(q: Query, c: String) -> (r: Self)
        ensures
            r == QueryResultPair(q, c),
    {
        QueryResultPair(q, c)
    }

    pub fn get_query(&self) -> (r: Query)
        ensures
            r == self.0,
    {
        self.0.clone()
    }

    pub fn get_content(&self) -> (r: String)
        ensures
            r == self.1,
    {
        self.1.clone()
    }
}

/// The process-lifetime record of all issued queries, grouped by source,
/// plus the most recent query paired with its raw response body. Every
/// source always has an entry, and `last_query` is `None` only before the
/// first recorded request.
pub struct QueryStore {
    pub docs_history: Vec<Query>,
    pub lib_history: Vec<Query>,
    pub crates_history: Vec<Query>,
    pub last_query: Option<QueryResultPair>,
}

impl QueryStore {
    /// The history read as a mapping from each source to its ordered queries.
    pub open spec fn by_source(&self) -> Map<ContentSource, Seq<Query>> {
        map![
            ContentSource::Docs => self.docs_history@,
            ContentSource::Lib => self.lib_history@,
            ContentSource::Crates => self.crates_history@,
        ]
    }

    /// A fresh store: every source is present with an empty history, and no
    /// last query exists yet.
    pub fn new() -> (r: Self)
        ensures
            forall|s: ContentSource| #[trigger] r.by_source().dom().contains(s),
            forall|s: ContentSource| #[trigger] r.by_source()[s] == Seq::<Query>::empty(),
            r.last_query is None,
    {
        let r = Self {
            docs_history: Vec::new(),
            lib_history: Vec::new(),
            crates_history: Vec::new(),
            last_query: None,
        };
        proof {
            lemma_store_covers_sources(r);
        }
        r
    }

    /// Appends the query to its source's history and overwrites the last
    /// query slot with the query and its result; the other sources'
    /// histories stay as they were.
    pub fn add_new_query(&mut self, query: Query, result: String)
        ensures
            final(self).last_query == Some(QueryResultPair(query, result)),
            final(self).by_source()[query.source] == old(self).by_source()[query.source].push(
                query,
            ),
            forall|s: ContentSource|
                s != query.source ==> #[trigger] final(self).by_source()[s] == old(
                    self,
                ).by_source()[s],
    {
        self.last_query = Some(QueryResultPair::new(query.clone(), result));
        match query.source {
            ContentSource::Docs => self.docs_history.push(query),
            ContentSource::Lib => self.lib_history.push(query),
            ContentSource::Crates => self.crates_history.push(query),
        }
    }

    /// The ordered queries issued against one source.
    pub fn queries_for(&self, source: ContentSource) -> (r: &Vec<Query>)
        ensures
            r@ == self.by_source()[source],
    {
        match source {
            ContentSource::Docs => &self.docs_history,
            ContentSource::Lib => &self.lib_history,
            ContentSource::Crates => &self.crates_history,
        }
    }

    /// The most recent query with its raw result, or `None` before any
    /// request was recorded.
    pub fn last_search(&self) -> (r: Option<QueryResultPair>)
        ensures
            r == self.last_query,
    {
        match &self.last_query {
            Some(p) => Some(p.clone()),
            None => None,
        }
    }

    /// The most recent query alone.
    pub fn last_search_query_source(&self) -> (r: Option<Query>)
        ensures
            match self.last_query {
                Some(p) => r == Some(p.0),
                None => r is None,
            },
    {
        match &self.last_query {
            Some(p) => Some(p.get_query()),
            None => None,
        }
    }

    /// The raw content of the most recent result alone.
    pub fn last_search_content(&self) -> (r: Option<String>)
        ensures
            match self.last_query {
                Some(p) => r == Some(p.1),
                None => r is None,
            },
    {
        match &self.last_query {
            Some(p) => Some(p.get_content()),
            None => None,
        }
    }
}

impl Default for QueryStore {
    /// The default store is a fresh one.
    fn default() -> (r: Self)
        ensures
            forall|s: ContentSource| #[trigger] r.by_source().dom().contains(s),
            forall|s: ContentSource| #[trigger] r.by_source()[s] == Seq::<Query>::empty(),
            r.last_query is None,
    {
        QueryStore::new()
    }
}

/// Law: whatever was done to a store, its history holds an entry for each of
/// the three sources.
pub proof fn lemma_store_covers_sources(store: QueryStore)
    ensures
        forall|s: ContentSource| #[trigger] store.by_source().dom().contains(s),
{
    assert forall|s: ContentSource| #[trigger] store.by_source().dom().contains(s) by {
        match s {
            ContentSource::Docs => {},
            ContentSource::Lib => {},
            ContentSource::Crates => {},
        }
    }
}

} // verus!
