use vstd::prelude::*;
use crate::network::server::{Server, ServerView};

verus! {

/// What a server answers a search with: a post's title and its id on that server.
pub struct SearchResultHeader {
    pub title: String,
    pub postid: u16,
}

/// A post found by a search, and the server it was found on.
pub struct SearchResult {
    pub header: SearchResultHeader,
    pub server: Server,
}

/// A search result as plain values.
pub struct SearchResultView {
    pub title: Seq<char>,
    pub postid: u16,
    pub server: ServerView,
}

impl View for SearchResult {
    type V = SearchResultView;

    open spec fn view(&self) -> SearchResultView {
        SearchResultView { title: self.header.title@, postid: self.header.postid, server: self.server@ }
    }
}

impl SearchResultHeader {
    pub fn new(title: String, postid: u16) -> (r: SearchResultHeader)
        ensures
            r.title == title,
            r.postid == postid,
    {
        SearchResultHeader { title, postid }
    }
}

impl Clone for SearchResultHeader {
    fn clone(&self) -> (r: SearchResultHeader)
        ensures
            r.title@ == self.title@,
            r.postid == self.postid,
    {
        SearchResultHeader { title: self.title.clone(), postid: self.postid }
    }
}

impl SearchResult {
    pub fn new(header: SearchResultHeader, server: Server) -> (r: SearchResult)
        ensures
            r.header == header,
            r.server == server,
    {
        SearchResult { header, server }
    }

    /// Whether both results name the same post on the same server.
    pub fn eq(&self, other: &SearchResult) -> (r: bool)
        ensures
            r == (self@ == other@),
    {
        self.header.postid == other.header.postid && self.header.title == other.header.title
            && self.server.eq(&other.server)
    }
}

impl Clone for SearchResult {
    fn clone(&self) -> (r: SearchResult)
        ensures
            r@ == self@,
    {
        SearchResult { header: self.header.clone(), server: self.server.clone() }
    }
}

/// The results of a search of `server` that answered `headers`: each
/// header, in order, bound to `server`.
pub fn results_on(headers: Vec<SearchResultHeader>, server: &Server) -> (r: Vec<SearchResult>)
    ensures
        r@.len() == headers@.len(),
        forall|i: int| 0 <= i < headers@.len() ==> #[trigger] r@[i]@ == (SearchResultView {
            title: headers@[i].title@,
            postid: headers@[i].postid,
            server: server@,
        }),
{
    let mut r: Vec<SearchResult> = Vec::new();
    let mut i: usize = 0;
    while i < headers.len()
        invariant
            i <= headers@.len(),
            r@.len() == i,
            forall|j: int| 0 <= j < i ==> #[trigger] r@[j]@ == (SearchResultView {
                title: headers@[j].title@,
                postid: headers@[j].postid,
                server: server@,
            }),
        decreases headers@.len() - i,
    {
        r.push(SearchResult::new(headers[i].clone(), server.clone()));
        i = i + 1;
    }
    r
}

} // verus!
