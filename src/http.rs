//! The request routing and response framing of the small HTTP front end
//! that hands one job per connection to the pool. Reading the request line,
//! loading the page and writing the bytes out are left to the caller.

use vstd::prelude::*;

verus! {

/// The page a request line is answered with.
#[derive(Debug, Clone, Copy, PartialEq, Eq, Structural)]
pub enum Route {
    Home,
    About,
    NotFound,
}

/// The request line of the home page.
pub open spec fn home_request() -> Seq<char> {
    "GET / HTTP/1.1"@
}

/// The request line of the about page.
pub open spec fn about_request() -> Seq<char> {
    "GET /about HTTP/1.1"@
}

/// The route of a request line: an exact match against the two known lines,
/// anything else not found.
pub open spec fn route_of(line: Seq<char>) -> Route {
    if line == home_request() {
        Route::Home
    } else if line == about_request() {
        Route::About
    } else {
        Route::NotFound
    }
}

/// The status line of each route.
pub open spec fn status_of(r: Route) -> Seq<char> {
    match r {
        Route::NotFound => "HTTP/1.1 404 NOT FOUND"@,
        _ => "HTTP/1.1 200 OK"@,
    }
}

/// The file that holds the body of each route.
pub open spec fn file_of(r: Route) -> Seq<char> {
    match r {
        Route::Home => "home.html"@,
        Route::About => "about.html"@,
        Route::NotFound => "404.html"@,
    }
}

/// The decimal digit `d`, for `d < 10`.
pub open spec fn digit_char(d: nat) -> char {
    if d == 0 {
        '0'
    } else if d == 1 {
        '1'
    } else if d == 2 {
        '2'
    } else if d == 3 {
        '3'
    } else if d == 4 {
        '4'
    } else if d == 5 {
        '5'
    } else if d == 6 {
        '6'
    } else if d == 7 {
        '7'
    } else if d == 8 {
        '8'
    } else {
        '9'
    }
}

/// `n` in decimal, most significant digit first, without leading zeros.
pub open spec fn decimal(n: nat) -> Seq<char>
    decreases n,
{
    if n < 10 {
        seq![digit_char(n)]
    } else {
        decimal(n / 10).push(digit_char(n % 10))
    }
}

/// The whole response: status line, the length header, a blank line, then
/// the body. The length counts the body's bytes in UTF-8.
pub open spec fn response_of(status: Seq<char>, body: Seq<char>, body_len: nat) -> Seq<char> {
    status + "\r\nContent-Length: "@ + decimal(body_len) + "\r\n\r\n"@ + body
}

/// Whether two strings hold the same characters.
fn same_text(a: &str, b: &str) -> (r: bool)
    ensures
        r == (a@ == b@),
{
    let n = a.unicode_len();
    if n != b.unicode_len() {
        return false;
    }
    let mut i: usize = 0;
    while i < n
        invariant
            n == a@.len() == b@.len(),
            i <= n,
            forall|k: int| 0 <= k < i ==> a@[k] == b@[k],
        decreases n - i,
    {
        if a.get_char(i) != b.get_char(i) {
            return false;
        }
        i = i + 1;
    }
    assert(a@ =~= b@);
    true
}

/// Routes a request line.
pub fn route(line: &str) -> (r: Route)
    ensures
        r == route_of(line@),
{
    let home = "GET / HTTP/1.1";
    let about = "GET /about HTTP/1.1";
    if same_text(line, home) {
        Route::Home
    } else if same_text(line, about) {
        Route::About
    } else {
        Route::NotFound
    }
}

impl Route {
    /// The status line that answers this route.
    pub fn status_line(&self) -> (s: &'static str)
        ensures
            s@ == status_of(*self),
    {
        match self {
            Route::NotFound => "HTTP/1.1 404 NOT FOUND",
            _ => "HTTP/1.1 200 OK",
        }
    }

    /// The name of the file that holds this route's body.
    pub fn file_name(&self) -> (s: &'static str)
        ensures
            s@ == file_of(*self),
    {
        match self {
            Route::Home => "home.html",
            Route::About => "about.html",
            Route::NotFound => "404.html",
        }
    }
}

/// The digit `d` as a one-character string.
fn digit_text(d: usize) -> (s: &'static str)
    requires
        d < 10,
    ensures
        s@ == seq![digit_char(d as nat)],
{
    proof {
        reveal_strlit("0");
        reveal_strlit("1");
        reveal_strlit("2");
        reveal_strlit("3");
        reveal_strlit("4");
        reveal_strlit("5");
        reveal_strlit("6");
        reveal_strlit("7");
        reveal_strlit("8");
        reveal_strlit("9");
    }
    if d == 0 {
        "0"
    } else if d == 1 {
        "1"
    } else if d == 2 {
        "2"
    } else if d == 3 {
        "3"
    } else if d == 4 {
        "4"
    } else if d == 5 {
        "5"
    } else if d == 6 {
        "6"
    } else if d == 7 {
        "7"
    } else if d == 8 {
        "8"
    } else {
        "9"
    }
}

/// Appends `n` in decimal to `s`.
fn push_decimal(s: &mut String, n: usize)
    ensures
        final(s)@ == old(s)@ + decimal(n as nat),
    decreases n,
{
    if n >= 10 {
        push_decimal(s, n / 10);
    }
    s.append(digit_text(n % 10));
    proof {
        if n >= 10 {
            assert(final(s)@ =~= old(s)@ + decimal(n as nat));
        } else {
            assert(final(s)@ =~= old(s)@ + decimal(n as nat));
        }
    }
}

/// The decimal text of `n`.
pub fn decimal_text(n: usize) -> (s: String)
    ensures
        s@ == decimal(n as nat),
{
    let mut s = String::new();
    push_decimal(&mut s, n);
    assert(s@ =~= decimal(n as nat));
    s
}

/// Frames a response: the status line, a `Content-Length` header with the
/// byte length of `body`, a blank line, then `body` itself.
pub fn response(status_line: &str, body: &str) -> (r: String)
    ensures
        r@ == response_of(status_line@, body@, body.len() as nat),
{
    let mut r = status_line.to_owned();
    r.append("\r\nContent-Length: ");
    let len = decimal_text(body.len());
    r.append(len.as_str());
    r.append("\r\n\r\n");
    r.append(body);
    r
}

} // verus!
