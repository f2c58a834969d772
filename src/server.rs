//! Request routing: which response a request gets.

use vstd::prelude::*;
use vstd::string::StrSliceExecFns;
use crate::config::{lookup, Config};

verus! {

/// `s` without its leading slashes.
pub open spec fn trim_start(s: Seq<char>) -> Seq<char>
    decreases s.len(),
{
    if s.len() > 0 && s[0] == '/' {
        trim_start(s.subrange(1, s.len() as int))
    } else {
        s
    }
}

/// `s` without its trailing slashes.
pub open spec fn trim_end(s: Seq<char>) -> Seq<char>
    decreases s.len(),
{
    if s.len() > 0 && s.last() == '/' {
        trim_end(s.drop_last())
    } else {
        s
    }
}

/// The device label that a request path names: the path without leading
/// and trailing slashes.
pub open spec fn label_of(url: Seq<char>) -> Seq<char> {
    trim_end(trim_start(url))
}

/// What to answer a request with.
#[derive(Clone, Debug, PartialEq, Eq)]
pub enum Route {
    /// The reading of one configured device, as JSON.
    Device { name: String, address: String },
    /// The readings of all configured devices, as a JSON array.
    All,
    /// 404: no device has that label.
    NotFound,
    /// 405: only GET is served.
    MethodNotAllowed,
}

/// The route that `conf` gives a request with path `url` (`is_get` when its
/// method is GET).
pub open spec fn routes(conf: Config, is_get: bool, url: Seq<char>, r: Route) -> bool {
    if !is_get {
        r is MethodNotAllowed
    } else {
        match lookup(conf.devices@, label_of(url)) {
            Some(a) => match r {
                Route::Device { name, address } => name@ == label_of(url) && address == a,
                _ => false,
            },
            None => if url == seq!['/'] {
                r is All
            } else {
                r is NotFound
            },
        }
    }
}

/// The label named by `url`.
pub fn label(url: &str) -> (r: &str)
    ensures
        r@ == label_of(url@),
{
    let n = url.unicode_len();
    let mut a: usize = 0;
    assert(url@.subrange(0, n as int) =~= url@);
    while a < n && url.get_char(a) == '/'
        invariant
            n == url@.len(),
            a <= n,
            trim_start(url@) == trim_start(url@.subrange(a as int, n as int)),
        decreases n - a,
    {
        let ghost rest = url@.subrange(a as int, n as int);
        assert(rest.subrange(1, rest.len() as int) =~= url@.subrange(a + 1, n as int));
        a = a + 1;
    }
    let mut b: usize = n;
    while b > a && url.get_char(b - 1) == '/'
        invariant
            n == url@.len(),
            a <= b <= n,
            trim_start(url@) == url@.subrange(a as int, n as int),
            trim_end(url@.subrange(a as int, n as int)) == trim_end(
                url@.subrange(a as int, b as int),
            ),
        decreases b - a,
    {
        assert(url@.subrange(a as int, b as int).drop_last() =~= url@.subrange(
            a as int,
            b - 1,
        ));
        b = b - 1;
    }
    url.substring_char(a, b)
}

/// Decides how to answer a request for path `url`.
pub fn route(conf: &Config, is_get: bool, url: &str) -> (r: Route)
    ensures
        routes(*conf, is_get, url@, r),
{
    if !is_get {
        return Route::MethodNotAllowed;
    }
    let name = label(url);
    match conf.address(name) {
        Some(address) => Route::Device { name: name.to_owned(), address },
        None => {
            if url.unicode_len() == 1 && url.get_char(0) == '/' {
                assert(url@ =~= seq!['/']);
                Route::All
            } else {
                Route::NotFound
            }
        },
    }
}

impl Route {
    /// The HTTP status code of the response.
    pub fn status(&self) -> (r: u16)
        ensures
            r == match self {
                Route::Device { .. } | Route::All => 200u16,
                Route::NotFound => 404u16,
                Route::MethodNotAllowed => 405u16,
            },
    {
        match self {
            Route::Device { .. } | Route::All => 200,
            Route::NotFound => 404,
            Route::MethodNotAllowed => 405,
        }
    }
}

} // verus!
