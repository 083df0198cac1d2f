use crate::commands::play::{SearchPlan, LISTING_LIMIT};
use crate::spotify::api::SearchType;
use crate::text::parts::{join, join_text};
use vstd::prelude::*;

verus! {

/// A search whose results are listed.
#[derive(Debug, PartialEq, Eq)]
pub struct SearchJob {
    pub query: String,
    pub plan: SearchPlan,
}

/// A search was asked for without a query.
#[derive(Debug, Clone, Copy, PartialEq, Eq, Structural)]
pub struct QueryRequired;

impl QueryRequired {
    /// Writes what the error says to the user.
    pub fn message(&self) -> (text: String)
        ensures
            text@ == "Search query is required. Usage: spot search <query>"@,
    {
        String::from_str("Search query is required. Usage: spot search <query>")
    }
}

/// The query that the words of a command line make: the words with one space between
/// neighbours.
pub open spec fn query_text(words: Seq<Seq<char>>) -> Seq<char> {
    join(words, " "@)
}

/// Sets up the search that a search command asks for: the query is made of `words`,
/// must not be empty, and `LISTING_LIMIT` results of `kind` are asked for. Aliases play
/// no part in it.
pub fn run(words: &Vec<String>, kind: SearchType) -> (job: Result<SearchJob, QueryRequired>)
    ensures
        match job {
            Ok(search) => {
                &&& query_text(words.deep_view()).len() > 0
                &&& search.query@ == query_text(words.deep_view())
                &&& search.plan == (SearchPlan { kind, limit: LISTING_LIMIT })
            },
            Err(_) => query_text(words.deep_view()).len() == 0,
        },
{
    let query = join_text(words, " ");
    if query.as_str().is_empty() {
        Err(QueryRequired)
    } else {
        Ok(SearchJob { query, plan: SearchPlan { kind, limit: LISTING_LIMIT } })
    }
}

} // verus!
