//! What the server answers to a request line. Reading the request and
//! writing the response are the caller's; the choice of the response is made
//! here.

use vstd::prelude::*;
use vstd::string::StringSliceAdditionalSpecFns;

verus! {

/// The pages that the server knows how to answer with.
#[derive(Clone, Copy, Debug, PartialEq, Eq, Structural)]
pub enum Route {
    /// The home page, at once.
    Home,
    /// The home page, after a pause that keeps one worker busy.
    SlowHome,
    /// The page for every request that the server does not know.
    NotFound,
}

/// The route of a request line: the home page for a `GET` of `/`, the slow
/// home page for a `GET` of `/sleep`, both over HTTP/1.1 and letter for
/// letter, and the not-found page for everything else.
pub open spec fn route_of(request_line: Seq<char>) -> Route {
    if request_line == "GET / HTTP/1.1"@ {
        Route::Home
    } else if request_line == "GET /sleep HTTP/1.1"@ {
        Route::SlowHome
    } else {
        Route::NotFound
    }
}

/// Chooses the route of a request line.
pub fn route(request_line: &str) -> (route: Route)
    ensures
        route == route_of(request_line@),
{
    let line = request_line.to_owned();
    if line == "GET / HTTP/1.1".to_owned() {
        Route::Home
    } else if line == "GET /sleep HTTP/1.1".to_owned() {
        Route::SlowHome
    } else {
        Route::NotFound
    }
}

impl Route {
    /// The status line of the response, without its line ending.
    pub open spec fn spec_status_line(self) -> Seq<char> {
        match self {
            Route::Home => "HTTP/1.1 200 OK"@,
            Route::SlowHome => "HTTP/1.1 200 OK"@,
            Route::NotFound => "HTTP/1.1 404 NOT FOUND"@,
        }
    }

    /// The name of the file that holds the body of the response.
    pub open spec fn spec_file_name(self) -> Seq<char> {
        match self {
            Route::Home => "hello.html"@,
            Route::SlowHome => "hello.html"@,
            Route::NotFound => "404.html"@,
        }
    }

    /// The seconds to pause before answering.
    pub open spec fn spec_delay_secs(self) -> u64 {
        match self {
            Route::Home => 0,
            Route::SlowHome => 5,
            Route::NotFound => 0,
        }
    }

    /// The status line of the response, without its line ending.
    pub fn status_line(self) -> (line: &'static str)
        ensures
            line@ == self.spec_status_line(),
    {
        match self {
            Route::Home => "HTTP/1.1 200 OK",
            Route::SlowHome => "HTTP/1.1 200 OK",
            Route::NotFound => "HTTP/1.1 404 NOT FOUND",
        }
    }

    /// The name of the file that holds the body of the response.
    pub fn file_name(self) -> (name: &'static str)
        ensures
            name@ == self.spec_file_name(),
    {
        match self {
            Route::Home => "hello.html",
            Route::SlowHome => "hello.html",
            Route::NotFound => "404.html",
        }
    }

    /// The seconds to pause before answering.
    pub fn delay_secs(self) -> (secs: u64)
        ensures
            secs == self.spec_delay_secs(),
    {
        match self {
            Route::Home => 0,
            Route::SlowHome => 5,
            Route::NotFound => 0,
        }
    }
}

/// The decimal digits of `n`, as ASCII, most significant first and without
/// leading zeros.
pub open spec fn decimal(n: nat) -> Seq<u8>
    decreases n,
{
    if n < 10 {
        seq![(48 + n) as u8]
    } else {
        decimal(n / 10).push((48 + n % 10) as u8)
    }
}

/// The bytes of a response: the status line, the length of the body in a
/// `Content-Length` header, an empty line, and the body.
pub open spec fn response_of(status_line: Seq<u8>, contents: Seq<u8>) -> Seq<u8> {
    status_line + "\r\nContent-Length: ".spec_bytes() + decimal(contents.len()) + "\r\n\r\n".spec_bytes()
        + contents
}

/// Appends the decimal digits of `n` to `out`.
pub fn push_decimal(out: &mut Vec<u8>, n: usize)
    ensures
        final(out)@ == old(out)@ + decimal(n as nat),
    decreases n,
{
    if n >= 10 {
        push_decimal(out, n / 10);
    }
    let digit: u8 = 48 + (n % 10) as u8;
    out.push(digit);
}

/// Frames a response from its status line and its body.
pub fn response(status_line: &str, contents: &str) -> (bytes: Vec<u8>)
    ensures
        bytes@ == response_of(status_line.spec_bytes(), contents.spec_bytes()),
{
    let mut bytes: Vec<u8> = Vec::new();
    bytes.extend_from_slice(status_line.as_bytes());
    bytes.extend_from_slice("\r\nContent-Length: ".as_bytes());
    let body = contents.as_bytes();
    push_decimal(&mut bytes, body.len());
    bytes.extend_from_slice("\r\n\r\n".as_bytes());
    bytes.extend_from_slice(body);
    bytes
}

} // verus!
