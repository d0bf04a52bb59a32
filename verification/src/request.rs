//! What the web server makes of a request: which page answers it, and the
//! bytes of the response.

use vstd::prelude::*;
use vstd::string::StringSliceAdditionalSpecFns;

verus! {

/// The page a request is answered with.
#[derive(Debug, Clone, Copy, PartialEq, Eq, Structural)]
pub enum Route {
    /// The greeting page.
    Hello,
    /// The greeting page, served after a pause.
    Sleep,
    /// The page for anything else.
    NotFound,
}

/// The number of seconds that a request for the slow page is held.
pub const SLEEP_SECS: u64 = 5;

/// Whether `bytes` begins with `prefix`.
pub fn starts_with(bytes: &[u8], prefix: &[u8]) -> (found: bool)
    ensures
        found == prefix@.is_prefix_of(bytes@),
{
    if prefix.len() > bytes.len() {
        return false;
    }
    let mut i: usize = 0;
    while i < prefix.len()
        invariant
            i <= prefix.len() <= bytes.len(),
            forall|k: int| 0 <= k < i ==> bytes[k] == prefix[k],
        decreases prefix.len() - i,
    {
        if bytes[i] != prefix[i] {
            assert(bytes@.subrange(0, prefix@.len() as int)[i as int] != prefix@[i as int]);
            return false;
        }
        i = i + 1;
    }
    assert(prefix@ =~= bytes@.subrange(0, prefix@.len() as int));
    true
}

impl Route {
    /// The request line that asks for the greeting page.
    pub open spec fn hello_line() -> &'static str {
        "GET / HTTP/1.1\r\n"
    }

    /// The request line that asks for the slow page.
    pub open spec fn sleep_line() -> &'static str {
        "GET /sleep HTTP/1.1\r\n"
    }

    /// The route of a request: decided by the request line that `request`
    /// begins with.
    pub open spec fn spec_of(request: Seq<u8>) -> Route {
        if Self::hello_line().spec_bytes().is_prefix_of(request) {
            Route::Hello
        } else if Self::sleep_line().spec_bytes().is_prefix_of(request) {
            Route::Sleep
        } else {
            Route::NotFound
        }
    }

    /// The status line of the response.
    pub open spec fn spec_status_line(self) -> &'static str {
        match self {
            Route::Hello | Route::Sleep => "HTTP/1.1 200 OK\r\n\r\n",
            Route::NotFound => "HTTP/1.1 404 NOT FOUND\r\n\r\n",
        }
    }

    /// The name of the file that holds the page.
    pub open spec fn spec_file_name(self) -> &'static str {
        match self {
            Route::Hello | Route::Sleep => "hello.html",
            Route::NotFound => "404.html",
        }
    }

    /// The seconds to wait before the page is read.
    pub open spec fn spec_delay_secs(self) -> u64 {
        match self {
            Route::Sleep => SLEEP_SECS,
            _ => 0,
        }
    }

    /// Finds the route of the request whose bytes, as far as they were
    /// read, are `request`.
    pub fn of(request: &[u8]) -> (route: Route)
        ensures
            route == Route::spec_of(request@),
    {
        if starts_with(request, "GET / HTTP/1.1\r\n".as_bytes()) {
            Route::Hello
        } else if starts_with(request, "GET /sleep HTTP/1.1\r\n".as_bytes()) {
            Route::Sleep
        } else {
            Route::NotFound
        }
    }

    /// The status line of the response to this route.
    #[verifier::when_used_as_spec(spec_status_line)]
    pub fn status_line(self) -> (line: &'static str)
        ensures
            line == self.spec_status_line(),
    {
        match self {
            Route::Hello | Route::Sleep => "HTTP/1.1 200 OK\r\n\r\n",
            Route::NotFound => "HTTP/1.1 404 NOT FOUND\r\n\r\n",
        }
    }

    /// The name of the file that holds the page of this route.
    #[verifier::when_used_as_spec(spec_file_name)]
    pub fn file_name(self) -> (name: &'static str)
        ensures
            name == self.spec_file_name(),
    {
        match self {
            Route::Hello | Route::Sleep => "hello.html",
            Route::NotFound => "404.html",
        }
    }

    /// The seconds to wait before the page of this route is read.
    #[verifier::when_used_as_spec(spec_delay_secs)]
    pub fn delay_secs(self) -> (secs: u64)
        ensures
            secs == self.spec_delay_secs(),
    {
        match self {
            Route::Sleep => SLEEP_SECS,
            _ => 0,
        }
    }

    /// The bytes of the response: the status line, then the page.
    pub fn response(self, page: &[u8]) -> (bytes: Vec<u8>)
        ensures
            bytes@ == self.status_line().spec_bytes() + page@,
    {
        let head = self.status_line().as_bytes();
        let mut bytes: Vec<u8> = Vec::new();
        let mut i: usize = 0;
        while i < head.len()
            invariant
                i <= head.len(),
                bytes@ == head@.take(i as int),
            decreases head.len() - i,
        {
            bytes.push(head[i]);
            i = i + 1;
        }
        let mut j: usize = 0;
        while j < page.len()
            invariant
                j <= page.len(),
                bytes@ == head@ + page@.take(j as int),
            decreases page.len() - j,
        {
            bytes.push(page[j]);
            j = j + 1;
        }
        bytes
    }
}

} // verus!
