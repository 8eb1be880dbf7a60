use douban_gateway::request::{Config, SearchQuery};
use douban_gateway::response::Body;
use douban_gateway::routes::{
    book, book_by_isbn, books, celebrities, celebrity, index, movie, movies, photo, proxy_reply,
    respond, Call, Step, Upstream,
};

fn config(img_proxy: &str) -> Config {
    Config { host: "0.0.0.0".to_string(), port: 8080, img_proxy: img_proxy.to_string(), limit: 3 }
}

fn query(q: &str, search_type: Option<&str>, count: Option<i32>) -> SearchQuery {
    SearchQuery::new(q.to_string(), search_type.map(|t| t.to_string()), count)
}

fn text_of(body: &Body) -> String {
    match body {
        Body::Text(t) => t.clone(),
        Body::Bytes(_) => panic!("expected a text body"),
    }
}

fn reply_of(step: Step) -> (u16, String) {
    match step {
        Step::Reply(r) => (r.status, text_of(&r.body)),
        Step::Fetch(_) => panic!("expected an immediate reply"),
    }
}

#[test]
fn empty_movie_query_is_empty_list() {
    let (status, body) = reply_of(movies(&query("", Some("full"), Some(5)), &config("http://p/")));
    assert_eq!(status, 200);
    assert_eq!(body, "[]");
    let (status, body) = reply_of(movies(&query("", None, None), &config("")));
    assert_eq!(status, 200);
    assert_eq!(body, "[]");
}

#[test]
fn empty_book_query_is_empty_list() {
    let (status, body) = reply_of(books(&query("", None, Some(99))));
    assert_eq!(status, 200);
    assert_eq!(body, "[]");
}

#[test]
fn book_count_over_limit_is_client_error() {
    let (status, body) = reply_of(books(&query("rust", None, Some(21))));
    assert_eq!(status, 400);
    assert_eq!(body, "{\"message\":\"count不能大于20\"}");
}

#[test]
fn book_count_at_limit_is_searched() {
    match books(&query("rust", None, Some(20))) {
        Step::Fetch(Call::BookSearch { q, count }) => {
            assert_eq!(q, "rust");
            assert_eq!(count, 20);
        }
        _ => panic!("expected a book search"),
    }
}

#[test]
fn book_count_defaults_to_two() {
    match books(&query("rust", None, None)) {
        Step::Fetch(Call::BookSearch { count, .. }) => assert_eq!(count, 2),
        _ => panic!("expected a book search"),
    }
}

#[test]
fn full_type_selects_full_search() {
    match movies(&query("alien", Some("full"), Some(4)), &config("http://p/")) {
        Step::Fetch(Call::MovieSearchFull { q, count }) => {
            assert_eq!(q, "alien");
            assert_eq!(count, 4);
        }
        _ => panic!("expected the full search"),
    }
}

#[test]
fn other_type_selects_brief_search() {
    for t in [None, Some("brief"), Some("Full"), Some("")] {
        match movies(&query("alien", t, None), &config("http://p/")) {
            Step::Fetch(Call::MovieSearch { q, count, img_proxy }) => {
                assert_eq!(q, "alien");
                assert_eq!(count, 0);
                assert_eq!(img_proxy, "http://p/");
            }
            _ => panic!("expected the brief search"),
        }
    }
}

#[test]
fn lookups_name_their_call() {
    assert!(matches!(movie("1".to_string()), Step::Fetch(Call::MovieInfo { sid }) if sid == "1"));
    assert!(matches!(celebrities("2".to_string()), Step::Fetch(Call::Celebrities { sid }) if sid == "2"));
    assert!(matches!(celebrity("3".to_string()), Step::Fetch(Call::Celebrity { id }) if id == "3"));
    assert!(matches!(photo("4".to_string()), Step::Fetch(Call::Wallpaper { sid }) if sid == "4"));
    assert!(matches!(book("5".to_string()), Step::Fetch(Call::BookInfo { sid }) if sid == "5"));
    assert!(matches!(
        book_by_isbn("9787".to_string()),
        Step::Fetch(Call::BookByIsbn { isbn }) if isbn == "9787"
    ));
}

#[test]
fn lookup_json_is_forwarded_verbatim() {
    let json = "{\"id\":\"1\",\"name\":\"x\",\"extra\":[1,2]}";
    for call in [Call::MovieInfo { sid: "1".to_string() }, Call::BookInfo { sid: "1".to_string() }] {
        let r = respond(&call, Ok(json.to_string()));
        assert_eq!(r.status, 200);
        assert_eq!(r.content_type, None);
        assert_eq!(text_of(&r.body), json);
    }
}

#[test]
fn book_lookup_failure_is_server_error() {
    let e = "book not found: 42";
    let r = respond(&Call::BookInfo { sid: "42".to_string() }, Err(e.to_string()));
    assert_eq!(r.status, 500);
    assert_eq!(text_of(&r.body), e);
    let r = respond(&Call::BookByIsbn { isbn: "42".to_string() }, Err(e.to_string()));
    assert_eq!(r.status, 500);
    assert_eq!(text_of(&r.body), e);
}

#[test]
fn movie_failure_is_bad_gateway_with_message() {
    let r = respond(&Call::MovieInfo { sid: "1".to_string() }, Err("timed \"out\"\n".to_string()));
    assert_eq!(r.status, 502);
    assert_eq!(text_of(&r.body), "{\"message\":\"timed \\\"out\\\"\\n\"}");
    let r = respond(
        &Call::BookSearch { q: "a".to_string(), count: 2 },
        Err("down".to_string()),
    );
    assert_eq!(r.status, 502);
    assert_eq!(text_of(&r.body), "{\"message\":\"down\"}");
}

#[test]
fn proxy_relays_status_and_content_type() {
    let up = Upstream { status: 404, content_type: Some("image/png".to_string()), body: vec![1, 2, 3] };
    let r = proxy_reply(Ok(up));
    assert_eq!(r.status, 404);
    assert_eq!(r.content_type.as_deref(), Some("image/png"));
    match r.body {
        Body::Bytes(b) => assert_eq!(b, vec![1, 2, 3]),
        Body::Text(_) => panic!("expected bytes"),
    }
}

#[test]
fn proxy_failure_is_bad_gateway() {
    let r = proxy_reply(Err("connection refused".to_string()));
    assert_eq!(r.status, 502);
    assert_eq!(text_of(&r.body), "{\"message\":\"connection refused\"}");
}

#[test]
fn index_lists_routes_as_html() {
    let r = index();
    assert_eq!(r.status, 200);
    assert_eq!(r.content_type.as_deref(), Some("text/html; charset=utf-8"));
    let page = text_of(&r.body);
    assert!(page.contains("接口列表"));
    assert!(page.contains("/v2/book/isbn/{isbn}<br/>"));
}
