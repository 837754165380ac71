//! The retrieval service's request routing: a pure function of method,
//! path and query to one of the named outcomes, with no hidden state
//! beyond the registry.

use vstd::prelude::*;

use crate::registry::{spec_contains_digest, spec_lookup, Registry};
use crate::strutil::{basename, spec_basename, str_eq};
use crate::utils::{query_split_opt, spec_pairs_view, spec_query_pairs};

verus! {

/// The request method, as far as routing cares.
#[derive(Clone, Copy, Debug, PartialEq, Eq, Structural)]
pub enum Method {
    Get,
    Post,
    Other,
}

/// Where a request is routed.
pub enum RouteOutcome {
    /// Serve the file at `path` with a content-disposition filename.
    Download { path: String, filename: String },
    /// Serve the QR image for the download URL of `digest`.
    QrPage { digest: String },
    /// Serve the file listing page.
    ListPage,
    /// Serve the static icon.
    Favicon,
    /// Accept new paths for serving.
    Enqueue,
    /// Refuse remote enqueueing.
    Forbidden,
    /// The digest is unknown, or the served path has no usable name.
    NotFound,
    /// The query lacks its digest parameter.
    Unprocessable,
    /// Nothing is routed here.
    MethodNotAllowed,
}

/// The routing decision over plain character strings.
pub enum RouteDecision {
    Download { path: Seq<char>, filename: Seq<char> },
    QrPage { digest: Seq<char> },
    ListPage,
    Favicon,
    Enqueue,
    Forbidden,
    NotFound,
    Unprocessable,
    MethodNotAllowed,
}

/// The decision an outcome stands for.
pub open spec fn spec_outcome_view(o: RouteOutcome) -> RouteDecision {
    match o {
        RouteOutcome::Download { path, filename } => RouteDecision::Download {
            path: path@,
            filename: filename@,
        },
        RouteOutcome::QrPage { digest } => RouteDecision::QrPage { digest: digest@ },
        RouteOutcome::ListPage => RouteDecision::ListPage,
        RouteOutcome::Favicon => RouteDecision::Favicon,
        RouteOutcome::Enqueue => RouteDecision::Enqueue,
        RouteOutcome::Forbidden => RouteDecision::Forbidden,
        RouteOutcome::NotFound => RouteDecision::NotFound,
        RouteOutcome::Unprocessable => RouteDecision::Unprocessable,
        RouteOutcome::MethodNotAllowed => RouteDecision::MethodNotAllowed,
    }
}

/// The value of the first pair whose key is `k`.
pub open spec fn spec_first_value(ps: Seq<(Seq<char>, Seq<char>)>, k: Seq<char>) -> Option<
    Seq<char>,
>
    decreases ps.len(),
{
    if ps.len() == 0 {
        None
    } else if ps.first().0 == k {
        Some(ps.first().1)
    } else {
        spec_first_value(ps.drop_first(), k)
    }
}

/// The view of an optional query string.
pub open spec fn spec_opt_text(q: Option<&str>) -> Option<Seq<char>> {
    match q {
        Some(s) => Some(s@),
        None => None,
    }
}

/// The digest parameter `h` of a query string, if present.
pub open spec fn spec_query_h(q: Option<Seq<char>>) -> Option<Seq<char>> {
    match q {
        Some(s) => spec_first_value(spec_query_pairs(s), "h"@),
        None => None,
    }
}

/// The routing table. A download or QR request needs its `h` parameter
/// (else unprocessable) and a digest known to the registry (else not
/// found); a served file also needs a nonempty base name. Enqueueing is
/// refused unless explicitly allowed. Anything unrouted is refused as
/// method-not-allowed.
pub open spec fn spec_route(
    m: Method,
    path: Seq<char>,
    query: Option<Seq<char>>,
    entries: Seq<(Seq<char>, Seq<char>)>,
    allow_enqueue: bool,
) -> RouteDecision {
    match m {
        Method::Get => {
            if path == "/sha512/"@ || path == "/sha512"@ {
                match spec_query_h(query) {
                    None => RouteDecision::Unprocessable,
                    Some(d) => match spec_lookup(entries, d) {
                        None => RouteDecision::NotFound,
                        Some(p) => if spec_basename(p).len() == 0 {
                            RouteDecision::NotFound
                        } else {
                            RouteDecision::Download { path: p, filename: spec_basename(p) }
                        },
                    },
                }
            } else if path == "/qr/sha512/"@ {
                match spec_query_h(query) {
                    None => RouteDecision::Unprocessable,
                    Some(d) => if spec_contains_digest(entries, d) {
                        RouteDecision::QrPage { digest: d }
                    } else {
                        RouteDecision::NotFound
                    },
                }
            } else if path == "/list.html"@ {
                RouteDecision::ListPage
            } else if path == "/favicon.ico"@ {
                RouteDecision::Favicon
            } else {
                RouteDecision::MethodNotAllowed
            }
        },
        Method::Post => if path == "/serve"@ {
            if allow_enqueue {
                RouteDecision::Enqueue
            } else {
                RouteDecision::Forbidden
            }
        } else {
            RouteDecision::MethodNotAllowed
        },
        Method::Other => RouteDecision::MethodNotAllowed,
    }
}

/// The `h` parameter of an optional query string.
pub fn query_h(query: Option<&str>) -> (r: Option<String>)
    ensures
        match r {
            Some(v) => spec_query_h(spec_opt_text(query)) == Some(v@),
            None => spec_query_h(spec_opt_text(query)) is None,
        },
{
    let pairs = query_split_opt(query);
    let ghost ps = spec_pairs_view(pairs@);
    let n = pairs.len();
    proof {
        assert(ps.skip(0) =~= ps);
    }
    for i in 0..n
        invariant
            n == pairs@.len(),
            ps == spec_pairs_view(pairs@),
            match query {
                Some(q) => ps == spec_query_pairs(q@),
                None => ps.len() == 0,
            },
            spec_first_value(ps, "h"@) == spec_first_value(ps.skip(i as int), "h"@),
    {
        proof {
            assert(ps.skip(i as int).first() == ps[i as int]);
        }
        if str_eq(pairs[i].0.as_str(), "h") {
            return Some(pairs[i].1.clone());
        }
        proof {
            assert(ps.skip(i as int).drop_first() =~= ps.skip(i + 1));
        }
    }
    proof {
        assert(ps.skip(n as int).len() == 0);
    }
    None
}

/// Route one request. The outcome is exactly what the routing table
/// decides for the method, path, query and currently recorded digests.
pub fn route(m: Method, path: &str, query: Option<&str>, registry: &Registry, allow_enqueue: bool)
    -> (r: RouteOutcome)
    ensures
        spec_outcome_view(r) == spec_route(
            m,
            path@,
            spec_opt_text(query),
            registry.spec_entries(),
            allow_enqueue,
        ),
{
    match m {
        Method::Get => {
            if str_eq(path, "/sha512/") || str_eq(path, "/sha512") {
                match query_h(query) {
                    None => RouteOutcome::Unprocessable,
                    Some(d) => match registry.lookup_by_digest(d.as_str()) {
                        None => RouteOutcome::NotFound,
                        Some(p) => {
                            let filename = basename(p.as_str());
                            if filename.as_str().unicode_len() == 0 {
                                RouteOutcome::NotFound
                            } else {
                                RouteOutcome::Download { path: p, filename }
                            }
                        },
                    },
                }
            } else if str_eq(path, "/qr/sha512/") {
                match query_h(query) {
                    None => RouteOutcome::Unprocessable,
                    Some(d) => match registry.lookup_by_digest(d.as_str()) {
                        None => RouteOutcome::NotFound,
                        Some(_) => RouteOutcome::QrPage { digest: d },
                    },
                }
            } else if str_eq(path, "/list.html") {
                RouteOutcome::ListPage
            } else if str_eq(path, "/favicon.ico") {
                RouteOutcome::Favicon
            } else {
                RouteOutcome::MethodNotAllowed
            }
        },
        Method::Post => {
            if str_eq(path, "/serve") {
                if allow_enqueue {
                    RouteOutcome::Enqueue
                } else {
                    RouteOutcome::Forbidden
                }
            } else {
                RouteOutcome::MethodNotAllowed
            }
        },
        Method::Other => RouteOutcome::MethodNotAllowed,
    }
}

/// The body of an enqueue request: one path, or several.
pub enum Enqueue {
    Single { path: String },
    Multiple { path: Vec<String> },
}

/// The paths an enqueue request carries, in order.
pub open spec fn spec_enqueue_paths(e: Enqueue) -> Seq<Seq<char>> {
    match e {
        Enqueue::Single { path } => seq![path@],
        Enqueue::Multiple { path } => path@.map_values(|p: String| p@),
    }
}

impl Enqueue {
    /// Flatten the request into its list of paths.
    pub fn into_paths(self) -> (r: Vec<String>)
        ensures
            r@.map_values(|p: String| p@) == spec_enqueue_paths(self),
    {
        match self {
            Enqueue::Single { path } => {
                let mut v: Vec<String> = Vec::new();
                v.push(path);
                proof {
                    assert(v@.map_values(|p: String| p@) =~= spec_enqueue_paths(self));
                }
                v
            },
            Enqueue::Multiple { path } => path,
        }
    }
}

/// The attachment header value carrying the served file's base name, so
/// a client's download manager proposes a sensible filename.
pub fn content_disposition(filename: &str) -> (r: String)
    ensures
        r@ == "attachment; filename=\""@ + filename@ + "\""@,
{
    let mut s = String::from_str("attachment; filename=\"");
    s.append(filename);
    s.append("\"");
    s
}

} // verus!
