use vstd::prelude::*;
use crate::request::{SearchQuery, SearchQueryView, Config};
use crate::response::{
    Body, BodyView, Response, ResponseView, opt_text, text_reply, message_body, text_response,
    error_message, STATUS_OK, STATUS_BAD_REQUEST, STATUS_INTERNAL_SERVER_ERROR, STATUS_BAD_GATEWAY,
};

verus! {

/// The one catalog call that a route makes.
pub enum Call {
    /// Brief movie search, image URLs rewritten through `img_proxy`.
    MovieSearch { q: String, count: i32, img_proxy: String },
    /// Full movie search, without image URL rewriting.
    MovieSearchFull { q: String, count: i32 },
    MovieInfo { sid: String },
    Celebrities { sid: String },
    Celebrity { id: String },
    Wallpaper { sid: String },
    BookSearch { q: String, count: i32 },
    BookInfo { sid: String },
    BookByIsbn { isbn: String },
}

/// What a route decides: answer at once, or make one catalog call.
pub enum Step {
    Reply(Response),
    Fetch(Call),
}

pub enum CallView {
    MovieSearch { q: Seq<char>, count: i32, img_proxy: Seq<char> },
    MovieSearchFull { q: Seq<char>, count: i32 },
    MovieInfo { sid: Seq<char> },
    Celebrities { sid: Seq<char> },
    Celebrity { id: Seq<char> },
    Wallpaper { sid: Seq<char> },
    BookSearch { q: Seq<char>, count: i32 },
    BookInfo { sid: Seq<char> },
    BookByIsbn { isbn: Seq<char> },
}

pub enum StepView {
    Reply(ResponseView),
    Fetch(CallView),
}

impl View for Call {
    type V = CallView;

    open spec fn view(&self) -> CallView {
        match self {
            Call::MovieSearch { q, count, img_proxy } => CallView::MovieSearch {
                q: q@,
                count: *count,
                img_proxy: img_proxy@,
            },
            Call::MovieSearchFull { q, count } => CallView::MovieSearchFull { q: q@, count: *count },
            Call::MovieInfo { sid } => CallView::MovieInfo { sid: sid@ },
            Call::Celebrities { sid } => CallView::Celebrities { sid: sid@ },
            Call::Celebrity { id } => CallView::Celebrity { id: id@ },
            Call::Wallpaper { sid } => CallView::Wallpaper { sid: sid@ },
            Call::BookSearch { q, count } => CallView::BookSearch { q: q@, count: *count },
            Call::BookInfo { sid } => CallView::BookInfo { sid: sid@ },
            Call::BookByIsbn { isbn } => CallView::BookByIsbn { isbn: isbn@ },
        }
    }
}

impl View for Step {
    type V = StepView;

    open spec fn view(&self) -> StepView {
        match self {
            Step::Reply(r) => StepView::Reply(r@),
            Step::Fetch(c) => StepView::Fetch(c@),
        }
    }
}

/// The answer to a search with an empty term: an empty JSON list.
pub open spec fn empty_list_reply() -> ResponseView {
    text_reply(STATUS_OK, "[]"@)
}

/// The body of the answer to a book search whose `count` is over the bound.
pub open spec fn count_limit_text() -> Seq<char> {
    "{\"message\":\"count不能大于20\"}"@
}

/// The largest `count` a book search accepts.
pub const MAX_BOOK_COUNT: i32 = 20;

/// The `count` a book search uses when none is given.
pub const DEFAULT_BOOK_COUNT: i32 = 2;

/// The `count` a movie search uses when none is given: the catalog's own default.
pub const DEFAULT_MOVIE_COUNT: i32 = 0;

pub open spec fn count_or(count: Option<i32>, default: i32) -> i32 {
    match count {
        Some(c) => c,
        None => default,
    }
}

/// The decision of the movie search route.
pub open spec fn movies_step(query: SearchQueryView, img_proxy: Seq<char>) -> StepView {
    let count = count_or(query.count, DEFAULT_MOVIE_COUNT);
    if query.q.len() == 0 {
        StepView::Reply(empty_list_reply())
    } else if query.search_type == Some("full"@) {
        StepView::Fetch(CallView::MovieSearchFull { q: query.q, count })
    } else {
        StepView::Fetch(CallView::MovieSearch { q: query.q, count, img_proxy })
    }
}

/// The decision of the book search route.
pub open spec fn books_step(query: SearchQueryView) -> StepView {
    let count = count_or(query.count, DEFAULT_BOOK_COUNT);
    if query.q.len() == 0 {
        StepView::Reply(empty_list_reply())
    } else if count > MAX_BOOK_COUNT {
        StepView::Reply(text_reply(STATUS_BAD_REQUEST, count_limit_text()))
    } else {
        StepView::Fetch(CallView::BookSearch { q: query.q, count })
    }
}

/// Whether a failure of `call` is reported as the catalog's own error text
/// under a server error, as the book lookups do.
pub open spec fn is_book_lookup(call: CallView) -> bool {
    call is BookInfo || call is BookByIsbn
}

/// The response to the outcome of a catalog call: the JSON text it produced,
/// or the description of its failure.
pub open spec fn respond_spec(call: CallView, outcome: Result<Seq<char>, Seq<char>>) -> ResponseView {
    match outcome {
        Ok(json) => text_reply(STATUS_OK, json),
        Err(e) => if is_book_lookup(call) {
            text_reply(STATUS_INTERNAL_SERVER_ERROR, e)
        } else {
            text_reply(STATUS_BAD_GATEWAY, message_body(e))
        },
    }
}

fn empty_list() -> (r: Response)
    ensures
        r@ == empty_list_reply(),
{
    text_response(STATUS_OK, String::from_str("[]"))
}

/// Decides the movie search route `/movies?q=..&type=..&count=..`.
///
/// An empty term answers with an empty list and calls nothing; `type=full`
/// selects the full search, anything else the brief one, which rewrites
/// image URLs through the configured proxy base.
pub fn movies(query: &SearchQuery, config: &Config) -> (r: Step)
    ensures
        r@ == movies_step(query@, config.img_proxy@),
{
    if query.q.as_str().is_empty() {
        return Step::Reply(empty_list());
    }
    let count: i32 = match query.count {
        Some(c) => c,
        None => DEFAULT_MOVIE_COUNT,
    };
    let full = String::from_str("full");
    let is_full = match &query.search_type {
        Some(t) => *t == full,
        None => false,
    };
    if is_full {
        Step::Fetch(Call::MovieSearchFull { q: query.q.clone(), count })
    } else {
        Step::Fetch(Call::MovieSearch { q: query.q.clone(), count, img_proxy: config.img_proxy.clone() })
    }
}

/// Decides the book search route `/v2/book/search?q=..&count=..`.
///
/// An empty term answers with an empty list; a `count` over the bound is a
/// client error, answered before any call; otherwise the catalog is asked
/// for `count` results, two when none is given.
pub fn books(query: &SearchQuery) -> (r: Step)
    ensures
        r@ == books_step(query@),
{
    if query.q.as_str().is_empty() {
        return Step::Reply(empty_list());
    }
    let count: i32 = match query.count {
        Some(c) => c,
        None => DEFAULT_BOOK_COUNT,
    };
    if count > MAX_BOOK_COUNT {
        return Step::Reply(
            text_response(STATUS_BAD_REQUEST, String::from_str("{\"message\":\"count不能大于20\"}")),
        );
    }
    Step::Fetch(Call::BookSearch { q: query.q.clone(), count })
}

/// Decides the route `/movies/{sid}`: look the movie up.
pub fn movie(sid: String) -> (r: Step)
    ensures
        r@ == StepView::Fetch(CallView::MovieInfo { sid: sid@ }),
{
    Step::Fetch(Call::MovieInfo { sid })
}

/// Decides the route `/movies/{sid}/celebrities`: list the movie's cast.
pub fn celebrities(sid: String) -> (r: Step)
    ensures
        r@ == StepView::Fetch(CallView::Celebrities { sid: sid@ }),
{
    Step::Fetch(Call::Celebrities { sid })
}

/// Decides the route `/celebrities/{id}`: look the cast member up.
pub fn celebrity(id: String) -> (r: Step)
    ensures
        r@ == StepView::Fetch(CallView::Celebrity { id: id@ }),
{
    Step::Fetch(Call::Celebrity { id })
}

/// Decides the route `/photo/{sid}`: list the movie's wallpapers.
pub fn photo(sid: String) -> (r: Step)
    ensures
        r@ == StepView::Fetch(CallView::Wallpaper { sid: sid@ }),
{
    Step::Fetch(Call::Wallpaper { sid })
}

/// Decides the route `/v2/book/id/{sid}`: look the book up by its identifier.
pub fn book(sid: String) -> (r: Step)
    ensures
        r@ == StepView::Fetch(CallView::BookInfo { sid: sid@ }),
{
    Step::Fetch(Call::BookInfo { sid })
}

/// Decides the route `/v2/book/isbn/{isbn}`: look the book up by its ISBN.
pub fn book_by_isbn(isbn: String) -> (r: Step)
    ensures
        r@ == StepView::Fetch(CallView::BookByIsbn { isbn: isbn@ }),
{
    Step::Fetch(Call::BookByIsbn { isbn })
}

/// The view of a catalog outcome.
pub open spec fn outcome_view(outcome: Result<String, String>) -> Result<Seq<char>, Seq<char>> {
    match outcome {
        Ok(json) => Ok(json@),
        Err(e) => Err(e@),
    }
}

/// Maps the outcome of `call` to the response to send.
///
/// The JSON text the catalog produced is forwarded unchanged. A failed book
/// lookup is a server error whose body is the catalog's error text; any
/// other failed call is a bad-gateway error with the structured body
/// `{"message":..}`.
pub fn respond(call: &Call, outcome: Result<String, String>) -> (r: Response)
    ensures
        r@ == respond_spec(call@, outcome_view(outcome)),
{
    match outcome {
        Ok(json) => text_response(STATUS_OK, json),
        Err(e) => {
            let book_lookup = match call {
                Call::BookInfo { .. } => true,
                Call::BookByIsbn { .. } => true,
                _ => false,
            };
            if book_lookup {
                text_response(STATUS_INTERNAL_SERVER_ERROR, e)
            } else {
                text_response(STATUS_BAD_GATEWAY, error_message(e.as_str()))
            }
        },
    }
}

/// What the image relay got from upstream: its status, its content type if
/// it sent one, and its bytes.
pub struct Upstream {
    pub status: u16,
    pub content_type: Option<String>,
    pub body: Vec<u8>,
}

pub struct UpstreamView {
    pub status: u16,
    pub content_type: Option<Seq<char>>,
    pub body: Seq<u8>,
}

impl View for Upstream {
    type V = UpstreamView;

    open spec fn view(&self) -> UpstreamView {
        UpstreamView {
            status: self.status,
            content_type: opt_text(self.content_type),
            body: self.body@,
        }
    }
}

/// The response of the image relay: upstream's status, content type and
/// bytes as they came, or a bad-gateway error where the fetch failed.
pub open spec fn proxy_reply_spec(outcome: Result<UpstreamView, Seq<char>>) -> ResponseView {
    match outcome {
        Ok(up) => ResponseView {
            status: up.status,
            content_type: up.content_type,
            body: BodyView::Bytes(up.body),
        },
        Err(e) => text_reply(STATUS_BAD_GATEWAY, message_body(e)),
    }
}

pub open spec fn upstream_outcome_view(outcome: Result<Upstream, String>) -> Result<UpstreamView, Seq<char>> {
    match outcome {
        Ok(up) => Ok(up@),
        Err(e) => Err(e@),
    }
}

/// Maps the outcome of the image fetch of `/proxy?url=..` to the response.
pub fn proxy_reply(outcome: Result<Upstream, String>) -> (r: Response)
    ensures
        r@ == proxy_reply_spec(upstream_outcome_view(outcome)),
{
    match outcome {
        Ok(up) => Response { status: up.status, content_type: up.content_type, body: Body::Bytes(up.body) },
        Err(e) => text_response(STATUS_BAD_GATEWAY, error_message(e.as_str())),
    }
}

/// The HTML page that lists the routes.
pub const INDEX_PAGE: &'static str = r#"
       接口列表：<br/>
       /movies?q={movie_name}<br/>
       /movies?q={movie_name}&type=full<br/>
       /movies/{sid}<br/>
       /movies/{sid}/celebrities<br/>
       /celebrities/{cid}<br/>
       /photo/{sid}<br/>
       /v2/book/search?q={book_name}<br/>
       /v2/book/id/{sid}<br/>
       /v2/book/isbn/{isbn}<br/>
    "#;

pub const HTML_CONTENT_TYPE: &'static str = "text/html; charset=utf-8";

/// The answer of the route `/`: the list of routes as an HTML page.
pub open spec fn index_reply() -> ResponseView {
    ResponseView {
        status: STATUS_OK,
        content_type: Some(HTML_CONTENT_TYPE@),
        body: BodyView::Text(INDEX_PAGE@),
    }
}

/// Answers the route `/`.
pub fn index() -> (r: Response)
    ensures
        r@ == index_reply(),
{
    Response {
        status: STATUS_OK,
        content_type: Some(String::from_str(HTML_CONTENT_TYPE)),
        body: Body::Text(String::from_str(INDEX_PAGE)),
    }
}

} // verus!
