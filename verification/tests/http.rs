use rust_mini_web_server::http::{push_decimal, response, route, Route};

#[test]
fn the_root_is_the_home_page() {
    let r = route("GET / HTTP/1.1");
    assert_eq!(r, Route::Home);
    assert_eq!(r.status_line(), "HTTP/1.1 200 OK");
    assert_eq!(r.file_name(), "hello.html");
    assert_eq!(r.delay_secs(), 0);
}

#[test]
fn sleep_is_the_home_page_after_five_seconds() {
    let r = route("GET /sleep HTTP/1.1");
    assert_eq!(r, Route::SlowHome);
    assert_eq!(r.status_line(), "HTTP/1.1 200 OK");
    assert_eq!(r.file_name(), "hello.html");
    assert_eq!(r.delay_secs(), 5);
}

#[test]
fn anything_else_is_not_found() {
    for line in [
        "",
        "GET /",
        "GET /other HTTP/1.1",
        "POST / HTTP/1.1",
        "GET / HTTP/1.0",
        "get / http/1.1",
        " GET / HTTP/1.1",
        "GET / HTTP/1.1 ",
        "GET /sleep/ HTTP/1.1",
    ] {
        let r = route(line);
        assert_eq!(r, Route::NotFound, "{line:?}");
        assert_eq!(r.status_line(), "HTTP/1.1 404 NOT FOUND");
        assert_eq!(r.file_name(), "404.html");
        assert_eq!(r.delay_secs(), 0);
    }
}

#[test]
fn a_response_is_status_line_length_header_blank_line_and_body() {
    assert_eq!(
        response("HTTP/1.1 200 OK", "<h1>Hi</h1>"),
        b"HTTP/1.1 200 OK\r\nContent-Length: 11\r\n\r\n<h1>Hi</h1>".to_vec()
    );
}

#[test]
fn an_empty_body_has_length_zero() {
    assert_eq!(
        response("HTTP/1.1 404 NOT FOUND", ""),
        b"HTTP/1.1 404 NOT FOUND\r\nContent-Length: 0\r\n\r\n".to_vec()
    );
}

#[test]
fn the_length_counts_bytes_not_characters() {
    assert_eq!(
        response("HTTP/1.1 200 OK", "h\u{e9}llo"),
        "HTTP/1.1 200 OK\r\nContent-Length: 6\r\n\r\nh\u{e9}llo".as_bytes().to_vec()
    );
}

#[test]
fn the_response_agrees_with_plain_formatting_for_bodies_of_many_lengths() {
    for len in [0usize, 1, 9, 10, 11, 99, 100, 101, 999, 1000, 12345] {
        let contents = "x".repeat(len);
        let expected = format!("HTTP/1.1 200 OK\r\nContent-Length: {}\r\n\r\n{}", len, contents);
        assert_eq!(response("HTTP/1.1 200 OK", &contents), expected.into_bytes());
    }
}

#[test]
fn decimal_digits_are_appended_most_significant_first() {
    for n in [0usize, 7, 10, 42, 100, 909, 65535, 1234567890, usize::MAX] {
        let mut out = b"n=".to_vec();
        push_decimal(&mut out, n);
        assert_eq!(out, format!("n={n}").into_bytes());
    }
}

#[test]
fn a_routed_request_is_framed_with_its_own_status_line() {
    let r = route("GET /nowhere HTTP/1.1");
    assert_eq!(
        response(r.status_line(), "gone"),
        b"HTTP/1.1 404 NOT FOUND\r\nContent-Length: 4\r\n\r\ngone".to_vec()
    );
}
