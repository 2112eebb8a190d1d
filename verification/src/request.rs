//! The front end's one decision: which page a request asks for. Reading the
//! request and the page, and writing the response, are the host program's part.

use vstd::prelude::*;
use vstd::string::StringExecFns;
use vstd::string::StringSliceAdditionalSpecFns;

verus! {

/// Whether `text` begins with `prefix`.
pub open spec fn starts_with(text: Seq<u8>, prefix: Seq<u8>) -> bool {
    prefix.len() <= text.len() && text.subrange(0, prefix.len() as int) == prefix
}

/// Whether `text` begins with `prefix`.
pub fn has_prefix(text: &[u8], prefix: &[u8]) -> (yes: bool)
    ensures
        yes == starts_with(text@, prefix@),
{
    if prefix.len() > text.len() {
        return false;
    }
    let mut i: usize = 0;
    while i < prefix.len()
        invariant
            i <= prefix@.len() <= text@.len(),
            text@.subrange(0, i as int) == prefix@.subrange(0, i as int),
        decreases prefix@.len() - i,
    {
        if text[i] != prefix[i] {
            return false;
        }
        i = i + 1;
    }
    assert(prefix@.subrange(0, i as int) =~= prefix@);
    true
}

/// What a request is answered with.
#[derive(Debug, Clone, Copy, PartialEq, Eq, Structural)]
pub enum Route {
    /// The front page.
    Index,
    /// The front page, after a pause: a request that keeps its worker busy.
    Sleep,
    /// The page for everything else.
    NotFound,
}

impl Route {
    /// The route of a request: decided by how its first line begins.
    pub open spec fn of(request: Seq<u8>) -> Route {
        if starts_with(request, "GET / HTTP/1.1\r\n".spec_bytes()) {
            Route::Index
        } else if starts_with(request, "GET /sleep HTTP/1.1\r\n".spec_bytes()) {
            Route::Sleep
        } else {
            Route::NotFound
        }
    }

    /// The status line of the response, with the empty line that ends the
    /// header.
    pub open spec fn status_text(self) -> Seq<char> {
        match self {
            Route::Index | Route::Sleep => "HTTP/1.1 200 OK \r\n\r\n"@,
            Route::NotFound => "HTTP/1.1 400 Not found \r\n\r\n"@,
        }
    }

    /// The name of the file that holds the page.
    pub open spec fn file_text(self) -> Seq<char> {
        match self {
            Route::Index | Route::Sleep => "index.html"@,
            Route::NotFound => "404.html"@,
        }
    }

    /// The seconds to pause before the response is written.
    pub open spec fn pause(self) -> nat {
        match self {
            Route::Sleep => 5,
            _ => 0,
        }
    }

    /// Decides the route of a request.
    pub fn route(request: &[u8]) -> (route: Route)
        ensures
            route == Route::of(request@),
    {
        if has_prefix(request, "GET / HTTP/1.1\r\n".as_bytes()) {
            Route::Index
        } else if has_prefix(request, "GET /sleep HTTP/1.1\r\n".as_bytes()) {
            Route::Sleep
        } else {
            Route::NotFound
        }
    }

    /// The status line of the response.
    pub fn status_line(&self) -> (line: &'static str)
        ensures
            line@ == self.status_text(),
    {
        match self {
            Route::Index | Route::Sleep => "HTTP/1.1 200 OK \r\n\r\n",
            Route::NotFound => "HTTP/1.1 400 Not found \r\n\r\n",
        }
    }

    /// The name of the file that holds the page.
    pub fn file_name(&self) -> (name: &'static str)
        ensures
            name@ == self.file_text(),
    {
        match self {
            Route::Index | Route::Sleep => "index.html",
            Route::NotFound => "404.html",
        }
    }

    /// The seconds to pause before the response is written.
    pub fn pause_seconds(&self) -> (seconds: u64)
        ensures
            seconds == self.pause(),
    {
        match self {
            Route::Sleep => 5,
            _ => 0,
        }
    }

    /// The response: the status line, then the page.
    pub fn response(&self, page: &str) -> (out: String)
        ensures
            out@ == self.status_text() + page@,
    {
        let mut out = String::from_str(self.status_line());
        out.append(page);
        out
    }
}

} // verus!
