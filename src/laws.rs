use vstd::prelude::*;
use crate::request::SearchQueryView;
use crate::response::{text_reply, STATUS_OK, STATUS_INTERNAL_SERVER_ERROR};
use crate::routes::{
    CallView, StepView, movies_step, books_step, empty_list_reply, respond_spec, count_or,
    DEFAULT_MOVIE_COUNT,
};

verus! {

/// A search with an empty term, on the movie route as on the book route,
/// answers with the empty JSON list and makes no catalog call.
pub proof fn lemma_empty_query_is_empty_list(query: SearchQueryView, img_proxy: Seq<char>)
    requires
        query.q.len() == 0,
    ensures
        movies_step(query, img_proxy) == StepView::Reply(empty_list_reply()),
        books_step(query) == StepView::Reply(empty_list_reply()),
{
}

/// On a non-empty term, `type=full` and only that selects the full movie
/// search; every other kind, or none, selects the brief one.
pub proof fn lemma_movie_search_kind(query: SearchQueryView, img_proxy: Seq<char>)
    requires
        query.q.len() > 0,
    ensures
        query.search_type == Some("full"@) ==> movies_step(query, img_proxy) == StepView::Fetch(
            CallView::MovieSearchFull { q: query.q, count: count_or(query.count, DEFAULT_MOVIE_COUNT) },
        ),
        query.search_type != Some("full"@) ==> movies_step(query, img_proxy) == StepView::Fetch(
            CallView::MovieSearch {
                q: query.q,
                count: count_or(query.count, DEFAULT_MOVIE_COUNT),
                img_proxy,
            },
        ),
{
}

/// What the catalog returns for a movie or a book looked up by identifier is
/// forwarded as it came, in a successful response.
pub proof fn lemma_lookup_forwards_json(sid: Seq<char>, json: Seq<char>)
    ensures
        respond_spec(CallView::MovieInfo { sid }, Ok(json)) == text_reply(STATUS_OK, json),
        respond_spec(CallView::BookInfo { sid }, Ok(json)) == text_reply(STATUS_OK, json),
{
}

/// A book lookup, by identifier or by ISBN, that the catalog cannot serve
/// answers with a server error whose body is the catalog's error text.
pub proof fn lemma_book_lookup_failure(key: Seq<char>, e: Seq<char>)
    ensures
        respond_spec(CallView::BookInfo { sid: key }, Err(e)) == text_reply(
            STATUS_INTERNAL_SERVER_ERROR,
            e,
        ),
        respond_spec(CallView::BookByIsbn { isbn: key }, Err(e)) == text_reply(
            STATUS_INTERNAL_SERVER_ERROR,
            e,
        ),
{
}

} // verus!
