//! The search query handed to the registry client: its pattern, its
//! page size, and the range of page sizes the command line accepts.

use vstd::prelude::*;

verus! {

/// The least page size a search accepts.
pub const MIN_LIMIT: u8 = 1;

/// The greatest page size a search accepts.
pub const MAX_LIMIT: u8 = 30;

/// The page size used when the command line gives none.
pub const DEFAULT_LIMIT: u8 = 10;

/// A relevance-sorted search of the registry: the pattern looked for
/// and the page size the query carries.
#[derive(Debug)]
pub struct SearchQuery {
    pub pattern: String,
    pub page_size: u8,
}

/// The one argument error this library decides itself: a limit outside
/// the accepted range.
#[derive(Clone, Copy, PartialEq, Eq, Structural, Debug)]
pub enum QueryError {
    LimitOutOfRange,
}

/// Build the search query. Succeeds exactly when the limit lies in
/// `[MIN_LIMIT, MAX_LIMIT]`; the query then carries the limit,
/// unchanged, as its page size, and the pattern unchanged.
pub fn build_search_query(pattern: String, limit: u8) -> (r: Result<SearchQuery, QueryError>)
    ensures
        r is Ok <==> MIN_LIMIT <= limit <= MAX_LIMIT,
        r matches Ok(q) ==> q.page_size == limit && q.pattern == pattern,
        r matches Err(e) ==> e == QueryError::LimitOutOfRange,
{
    if MIN_LIMIT <= limit && limit <= MAX_LIMIT {
        Result::Ok(SearchQuery { pattern, page_size: limit })
    } else {
        Result::Err(QueryError::LimitOutOfRange)
    }
}

/// The default page size itself lies in the accepted range, so a search
/// given no limit never fails argument validation.
pub proof fn lemma_default_limit_accepted()
    ensures
        MIN_LIMIT <= DEFAULT_LIMIT <= MAX_LIMIT,
{
}

} // verus!
