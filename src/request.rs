use vstd::prelude::*;
use crate::response::opt_text;

verus! {

/// The query parameters of a search route: the search term `q`, the
/// optional result kind `type`, and the optional result limit `count`.
pub struct SearchQuery {
    pub q: String,
    pub search_type: Option<String>,
    pub count: Option<i32>,
}

pub struct SearchQueryView {
    pub q: Seq<char>,
    pub search_type: Option<Seq<char>>,
    pub count: Option<i32>,
}

impl View for SearchQuery {
    type V = SearchQueryView;

    open spec fn view(&self) -> SearchQueryView {
        SearchQueryView { q: self.q@, search_type: opt_text(self.search_type), count: self.count }
    }
}

impl SearchQuery {
    pub fn new(q: String, search_type: Option<String>, count: Option<i32>) -> (r: SearchQuery)
        ensures
            r.q == q,
            r.search_type == search_type,
            r.count == count,
    {
        SearchQuery { q, search_type, count }
    }
}

/// Process-wide settings, fixed at startup and read by the handlers.
///
/// An empty `img_proxy` means that image URLs are not rewritten; `limit` is
/// the result limit the movie catalog client is built with.
pub struct Config {
    pub host: String,
    pub port: u16,
    pub img_proxy: String,
    pub limit: usize,
}

} // verus!
