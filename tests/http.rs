use simple_http_server::http::{decimal_text, response, route, Route};

#[test]
fn home_request_gets_ok_and_the_home_page() {
    let r = route("GET / HTTP/1.1");
    assert_eq!(r, Route::Home);
    assert_eq!(r.status_line(), "HTTP/1.1 200 OK");
    assert_eq!(r.file_name(), "home.html");
    let body = "<h1>Hello!</h1>";
    let text = response(r.status_line(), body);
    assert_eq!(text, "HTTP/1.1 200 OK\r\nContent-Length: 15\r\n\r\n<h1>Hello!</h1>");
}

#[test]
fn about_request_gets_the_about_page() {
    let r = route("GET /about HTTP/1.1");
    assert_eq!(r, Route::About);
    assert_eq!(r.status_line(), "HTTP/1.1 200 OK");
    assert_eq!(r.file_name(), "about.html");
}

#[test]
fn unknown_request_gets_not_found() {
    for line in ["GET /x HTTP/1.1", "", "GET / HTTP/1.0", "GET /  HTTP/1.1", "get / HTTP/1.1"] {
        let r = route(line);
        assert_eq!(r, Route::NotFound);
        assert_eq!(r.status_line(), "HTTP/1.1 404 NOT FOUND");
        assert_eq!(r.file_name(), "404.html");
    }
}

#[test]
fn content_length_counts_the_bytes_of_the_body() {
    let body = "héllo wörld ✓";
    let text = response("HTTP/1.1 200 OK", body);
    let head = format!("HTTP/1.1 200 OK\r\nContent-Length: {}\r\n\r\n", body.len());
    assert_eq!(body.len(), 17);
    assert_eq!(text, format!("{head}{body}"));
    let (header, rest) = text.split_once("\r\n\r\n").unwrap();
    let length: usize = header.split("Content-Length: ").nth(1).unwrap().parse().unwrap();
    assert_eq!(length, rest.len());
}

#[test]
fn empty_body_has_length_zero() {
    assert_eq!(response("HTTP/1.1 404 NOT FOUND", ""), "HTTP/1.1 404 NOT FOUND\r\nContent-Length: 0\r\n\r\n");
}

#[test]
fn decimal_text_writes_digits() {
    assert_eq!(decimal_text(0), "0");
    assert_eq!(decimal_text(7), "7");
    assert_eq!(decimal_text(10), "10");
    assert_eq!(decimal_text(1234567890), "1234567890");
    assert_eq!(decimal_text(usize::MAX), usize::MAX.to_string());
}
