//! The command-line arguments as plain values. Parsing the real process
//! arguments happens outside the library; the parsed values are handed in
//! through `new`.

use vstd::prelude::*;

verus! {

/// A CLI tool to research your Rust programming doubts.
#[derive(Debug)]
pub struct CLI {
    /// String query to use as target search values.
    pub query: String,
    /// Source to use in the query resolution.
    pub source: String,
    /// Allows custom query parameters: item quantity in responses and a page
    /// index for those searches.
    pub custom: bool,
    /// The number of results shown in the search query.
    pub per_page: i32,
    /// Website page index for result pagination.
    pub page: i32,
    /// Reserved for an interactive mode, selecting multiple factors.
    pub interactive: bool,
}

impl Clone for CLI {
    fn clone(&self) -> (r: Self)
        ensures
            r == *self,
    {
        CLI {
            query: self.query.clone(),
            source: self.source.clone(),
            custom: self.custom,
            per_page: self.per_page,
            page: self.page,
            interactive: self.interactive,
        }
    }
}

impl CLI {
    pub fn new(
        query: String,
        source: String,
        custom: bool,
        per_page: i32,
        page: i32,
        interactive: bool,
    ) -> (r: CLI)
        ensures
            r == (CLI { query, source, custom, per_page, page, interactive }),
    {
        CLI { query, source, custom, per_page, page, interactive }
    }

    pub fn interactive(&self) -> (r: bool)
        ensures
            r == self.interactive,
    {
        self.interactive
    }

    pub fn source(&self) -> (r: &str)
        ensures
            r@ == self.source@,
    {
        self.source.as_str()
    }

    pub fn query(&self) -> (r: &str)
        ensures
            r@ == self.query@,
    {
        self.query.as_str()
    }

    pub fn page_index(&self) -> (r: i32)
        ensures
            r == self.page,
    {
        self.page
    }

    pub fn quantity(&self) -> (r: i32)
        ensures
            r == self.per_page,
    {
        self.per_page
    }

    pub fn custom(&self) -> (r: bool)
        ensures
            r == self.custom,
    {
        self.custom
    }
}

} // verus!
