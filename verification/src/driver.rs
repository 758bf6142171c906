//! The decision core of a request run: resolving the source, building the
//! URL, classifying a fetch's outcome and recording a successful one. The
//! HTTP call itself happens outside the library; it hands its outcome back
//! as a `FetchOutcome`.

use vstd::prelude::*;

use crate::content_source::{spec_query_url, spec_resolve, ContentSource};
use crate::querys::{now_timestamp, Query, QueryStore};

verus! {

/// The two fatal failure classes of a request run.
#[derive(Clone, Copy, Debug, PartialEq, Eq, Structural)]
pub enum ExecError {
    /// The HTTP request could not be constructed from the built URL.
    RequestBuild,
    /// The request was sent and the transport or protocol failed.
    Response,
}

/// The process exit status that belongs to a fatal failure class.
pub open spec fn spec_exit_code(e: ExecError) -> int {
    match e {
        ExecError::RequestBuild => 1,
        ExecError::Response => 3,
    }
}

impl ExecError {
    /// The stable exit status for this failure class.
    pub fn exit_code(&self) -> (r: i32)
        ensures
            r as int == spec_exit_code(*self),
    {
        match self {
            ExecError::RequestBuild => 1,
            ExecError::Response => 3,
        }
    }
}

/// Law: distinct fatal classes keep distinct exit codes, so a failure to
/// build a request can never exit the way a failed transport does.
pub proof fn lemma_exit_codes_distinct(a: ExecError, b: ExecError)
    requires
        a != b,
    ensures
        spec_exit_code(a) != spec_exit_code(b),
{
}

/// What came of performing the HTTP GET outside the library.
pub enum FetchOutcome {
    /// The request could not be built from the URL.
    BuildFailed,
    /// The transport or protocol failed after the request was sent.
    TransportFailed,
    /// A response arrived; its body read as text, or `None` when the body
    /// could not be read.
    Body(Option<String>),
}

/// Resolves the source name and builds the URL to fetch. This step is total:
/// an unrecognized name falls back to the docs source, and pagination is
/// only encoded where the source uses it.
pub fn prepare_request(
    source_name: &str,
    query: &str,
    custom: bool,
    quantity: i32,
    page_index: i32,
) -> (r: (ContentSource, String))
    requires
        query@.len() <= 0xF0_0000,
    ensures
        r.0 == spec_resolve(source_name@),
        r.1@ == spec_query_url(
            r.0,
            query@,
            if custom {
                Some((quantity, page_index))
            } else {
                None
            },
        ),
{
    let source = ContentSource::resolve(source_name);
    let url = source.generate_query_string(
        query,
        if custom {
            Some((quantity, page_index))
        } else {
            None
        },
    );
    (source, url)
}

/// Settles one finished fetch. A failure maps to its fatal class and leaves
/// the store untouched. A response is recorded against the store: the query
/// is appended to its source's history, and the last-query slot gets the
/// body's text, or an empty string where the body could not be read.
pub fn complete_request(
    store: &mut QueryStore,
    source: ContentSource,
    query_text: &str,
    outcome: FetchOutcome,
) -> (r: Result<(), ExecError>)
    ensures
        match outcome {
            FetchOutcome::BuildFailed => r == Err::<(), ExecError>(ExecError::RequestBuild)
                && *final(store) == *old(store),
            FetchOutcome::TransportFailed => r == Err::<(), ExecError>(ExecError::Response)
                && *final(store) == *old(store),
            FetchOutcome::Body(body) => {
                &&& r == Ok::<(), ExecError>(())
                &&& match final(store).last_query {
                    Some(pair) => {
                        &&& pair.0.source == source
                        &&& pair.0.query@ == query_text@
                        &&& pair.1@ == match body {
                            Some(b) => b@,
                            None => Seq::<char>::empty(),
                        }
                        &&& final(store).by_source()[source] == old(store).by_source()[source].push(
                            pair.0,
                        )
                        &&& forall|s: ContentSource|
                            s != source ==> #[trigger] final(store).by_source()[s] == old(
                                store,
                            ).by_source()[s]
                    },
                    None => false,
                }
            },
        },
{
    match outcome {
        FetchOutcome::BuildFailed => Err(ExecError::RequestBuild),
        FetchOutcome::TransportFailed => Err(ExecError::Response),
        FetchOutcome::Body(body) => {
            let text = match body {
                Some(b) => b,
                None => String::new(),
            };
            let date = now_timestamp();
            let q = Query::new(source, query_text, date);
            store.add_new_query(q, text);
            Ok(())
        },
    }
}

/// Whether the stored result of a source can be interpreted for display:
/// only the docs source's result markup is modeled, the other two are
/// reported as unsupported instead of being guessed at.
pub fn presentation_supported(source: &ContentSource) -> (r: bool)
    ensures
        r == (*source is Docs),
{
    match source {
        ContentSource::Docs => true,
        ContentSource::Lib => false,
        ContentSource::Crates => false,
    }
}

} // verus!
