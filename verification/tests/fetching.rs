use roctokit::fetch::{decoded, received, status_is_success, FetchError, Lookup, Response};
use roctokit::paginator::Page;

fn answer(status: u16, body: &str) -> Response {
    Response { status, link: None, body: body.as_bytes().to_vec() }
}

/// One fetch as a caller makes it: validate the answer, then decode the body.
fn fetch_one(outcome: Result<Response, String>) -> Result<Vec<String>, FetchError> {
    let response = received(outcome)?;
    decoded(serde_json::from_slice::<Vec<String>>(&response.body).map_err(|error| error.to_string()))
}

#[test]
fn only_the_2xx_class_is_success() {
    assert!(!status_is_success(0));
    assert!(!status_is_success(199));
    assert!(status_is_success(200));
    assert!(status_is_success(204));
    assert!(status_is_success(299));
    assert!(!status_is_success(300));
    assert!(!status_is_success(404));
    assert!(!status_is_success(u16::MAX));
}

#[test]
fn a_good_answer_is_decoded() {
    let fetched = fetch_one(Ok(answer(200, "[\"a\", \"b\"]")));
    assert_eq!(fetched.unwrap(), vec!["a".to_string(), "b".to_string()]);
}

#[test]
fn an_accepted_answer_is_passed_on_untouched() {
    let mut given = answer(201, "body");
    given.link = Some("<https://h/2>; rel=\"next\"".to_string());
    let checked = received(Ok(given)).unwrap();
    assert_eq!(checked.status, 201);
    assert_eq!(checked.link, Some("<https://h/2>; rel=\"next\"".to_string()));
    assert_eq!(checked.body, b"body".to_vec());
}

#[test]
fn a_body_of_the_wrong_shape_is_a_decode_error() {
    let fetched = fetch_one(Ok(answer(200, "{\"login\": \"github\"}")));
    assert!(matches!(fetched, Err(FetchError::Decode(_))));
}

#[test]
fn a_body_that_is_no_json_is_a_decode_error_with_the_detail() {
    let parsed = serde_json::from_slice::<u64>(b"<html>").map_err(|error| error.to_string());
    let detail = parsed.clone().unwrap_err();
    match decoded(parsed) {
        Err(FetchError::Decode(given)) => assert_eq!(given, detail),
        other => panic!("a decode error expected, got {:?}", other),
    }
}

#[test]
fn a_bad_status_is_an_error_whatever_the_body_holds() {
    let fetched = fetch_one(Ok(answer(404, "[\"a\"]")));
    assert!(matches!(fetched, Err(FetchError::HttpStatus(404))));
    let fetched = fetch_one(Ok(answer(500, "not json")));
    assert!(matches!(fetched, Err(FetchError::HttpStatus(500))));
    let fetched = fetch_one(Ok(answer(199, "[]")));
    assert!(matches!(fetched, Err(FetchError::HttpStatus(199))));
}

#[test]
fn a_transport_failure_keeps_its_detail() {
    match fetch_one(Err("connection refused".to_string())) {
        Err(FetchError::Transport(detail)) => assert_eq!(detail, "connection refused"),
        other => panic!("a transport error expected, got {:?}", other),
    }
}

#[test]
fn a_decoded_value_is_passed_on() {
    assert_eq!(decoded(Ok::<u64, String>(7)).unwrap(), 7);
}

#[test]
fn a_lookup_keeps_its_route() {
    let lookup: Lookup<u64> = Lookup::new("https://h/one".to_string());
    assert_eq!(lookup.route(), "https://h/one");
}

#[test]
fn a_page_takes_its_links_from_the_header_of_the_answer() {
    let mut given = answer(200, "[1]");
    given.link = Some("<https://h/2>; rel=\"next\", <https://h/9>; rel=\"last\"".to_string());
    let page = Page::from_answer(&given, Ok(vec![1u64])).unwrap();
    assert_eq!(page.items, vec![1]);
    assert_eq!(page.links.next_link, Some("https://h/2".to_string()));
    assert_eq!(page.links.last_link, Some("https://h/9".to_string()));
    assert_eq!(page.links.prev_link, None);
    let bare = Page::from_answer(&answer(200, "[1]"), Ok(vec![1u64])).unwrap();
    assert_eq!(bare.links.next_link, None);
}

#[test]
fn a_page_that_did_not_decode_is_a_decode_error() {
    let page = Page::<u64>::from_answer(&answer(200, "{}"), Err("not a list".to_string()));
    match page {
        Err(FetchError::Decode(detail)) => assert_eq!(detail, "not a list"),
        _ => panic!("a decode error expected"),
    }
}
