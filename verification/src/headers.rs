//! Response-header rewrites on the proxy path.
//!
//! Every proxied response loses its `server` header and gains exactly one
//! `x-powered-by: authentik`; nothing else is touched. Header names are in
//! the lowercase canonical form in which the HTTP layer stores them, so
//! matching is exact. Static-asset responses get a fixed set of caching
//! headers instead.

use vstd::prelude::*;

use crate::text::str_eq;

verus! {

/// One response header: its name in lowercase canonical form, and its value.
pub struct Header {
    /// Lowercase canonical header name.
    pub name: String,
    /// Header value, unmodified.
    pub value: String,
}

/// The contents of a header list, as name/value character sequences.
pub open spec fn header_views(hs: Seq<Header>) -> Seq<(Seq<char>, Seq<char>)> {
    hs.map_values(|h: Header| (h.name@, h.value@))
}

/// A header the proxy rewrite keeps: neither the stripped `server` header
/// nor a `x-powered-by` claim of the backend's own.
pub open spec fn kept_by_rewrite(p: (Seq<char>, Seq<char>)) -> bool {
    p.0 != "server"@ && p.0 != "x-powered-by"@
}

/// The proxy's header rewrite: drop every `server` and `x-powered-by`
/// header, then append `x-powered-by: authentik`.
pub open spec fn spec_rewrite(hs: Seq<(Seq<char>, Seq<char>)>) -> Seq<(Seq<char>, Seq<char>)> {
    hs.filter(|p: (Seq<char>, Seq<char>)| kept_by_rewrite(p)).push(("x-powered-by"@, "authentik"@))
}

/// Applies the proxy's response-header rewrite: strips any `server` header,
/// and replaces any `x-powered-by` with the router's own
/// `x-powered-by: authentik`.
#[verifier::loop_isolation(false)]
pub fn rewrite_proxy_headers(headers: Vec<Header>) -> (r: Vec<Header>)
    ensures
        header_views(r@) == spec_rewrite(header_views(headers@)),
{
    let mut out: Vec<Header> = Vec::new();
    let mut i: usize = 0;
    while i < headers.len()
        invariant
            0 <= i <= headers@.len(),
            header_views(out@) == header_views(headers@).take(i as int).filter(
                |p: (Seq<char>, Seq<char>)| kept_by_rewrite(p),
            ),
        decreases headers@.len() - i,
    {
        let keep = !str_eq(headers[i].name.as_str(), "server") && !str_eq(
            headers[i].name.as_str(),
            "x-powered-by",
        );
        proof {
            let pred = |p: (Seq<char>, Seq<char>)| kept_by_rewrite(p);
            let prefix = header_views(headers@).take(i as int);
            let entry = (headers@[i as int].name@, headers@[i as int].value@);
            assert(header_views(headers@).take(i + 1) =~= prefix.push(entry));
            lemma_filter_push(prefix, pred, entry);
        }
        if keep {
            let name = headers[i].name.clone();
            let value = headers[i].value.clone();
            out.push(Header { name, value });
            proof {
                let pred = |p: (Seq<char>, Seq<char>)| kept_by_rewrite(p);
                let prefix = header_views(headers@).take(i as int);
                let entry = (headers@[i as int].name@, headers@[i as int].value@);
                assert(header_views(out@) =~= prefix.filter(pred).push(entry));
            }
        }
        i = i + 1;
    }
    proof {
        assert(header_views(headers@).take(headers@.len() as int) =~= header_views(headers@));
    }
    out.push(Header { name: "x-powered-by".to_owned(), value: "authentik".to_owned() });
    proof {
        assert(header_views(out@) =~= spec_rewrite(header_views(headers@)));
    }
    out
}

/// Appending an element to a sequence filters to the old filtering, plus the
/// element when the predicate holds of it.
proof fn lemma_filter_push<A>(s: Seq<A>, pred: spec_fn(A) -> bool, x: A)
    ensures
        s.push(x).filter(pred) == (if pred(x) {
            s.filter(pred).push(x)
        } else {
            s.filter(pred)
        }),
{
    reveal(Seq::filter);
    assert(s.push(x).drop_last() =~= s);
    assert(s.push(x).last() == x);
}

/// Filtering twice by the same predicate is filtering once.
proof fn lemma_filter_idempotent<A>(s: Seq<A>, pred: spec_fn(A) -> bool)
    ensures
        s.filter(pred).filter(pred) == s.filter(pred),
    decreases s.len(),
{
    reveal(Seq::filter);
    if s.len() > 0 {
        let front = s.drop_last();
        lemma_filter_idempotent(front, pred);
        if pred(s.last()) {
            lemma_filter_push(front.filter(pred), pred, s.last());
        }
    }
}

/// A filtering by `pred` contains nothing that `excl` accepts, when the two
/// predicates exclude each other.
proof fn lemma_filter_excludes<A>(s: Seq<A>, pred: spec_fn(A) -> bool, excl: spec_fn(A) -> bool)
    requires
        forall|x: A| #[trigger] pred(x) ==> !excl(x),
    ensures
        s.filter(pred).filter(excl) =~= Seq::<A>::empty(),
    decreases s.len(),
{
    reveal(Seq::filter);
    if s.len() > 0 {
        let front = s.drop_last();
        lemma_filter_excludes(front, pred, excl);
        if pred(s.last()) {
            lemma_filter_push(front.filter(pred), excl, s.last());
        }
    }
}

/// How many headers of the list carry the given name.
pub open spec fn count_named(hs: Seq<(Seq<char>, Seq<char>)>, name: Seq<char>) -> nat {
    hs.filter(|p: (Seq<char>, Seq<char>)| p.0 == name).len()
}

/// Header-rewrite idempotence: repeated passes yield the same headers as a
/// single pass, and a rewritten response carries exactly one
/// `x-powered-by: authentik` and no `server` header, whatever the backend
/// sent.
pub proof fn lemma_header_rewrite_idempotent(hs: Seq<(Seq<char>, Seq<char>)>)
    ensures
        spec_rewrite(spec_rewrite(hs)) == spec_rewrite(hs),
        count_named(spec_rewrite(hs), "x-powered-by"@) == 1,
        count_named(spec_rewrite(hs), "server"@) == 0,
        spec_rewrite(hs).last() == ("x-powered-by"@, "authentik"@),
{
    reveal_strlit("server");
    reveal_strlit("x-powered-by");
    let kept = |p: (Seq<char>, Seq<char>)| kept_by_rewrite(p);
    let stamp = ("x-powered-by"@, "authentik"@);
    let once = spec_rewrite(hs);
    let filtered = hs.filter(kept);

    assert(!kept(stamp));
    lemma_filter_push(filtered, kept, stamp);
    lemma_filter_idempotent(hs, kept);
    assert(once.filter(kept) == filtered);

    let powered = |p: (Seq<char>, Seq<char>)| p.0 == "x-powered-by"@;
    assert(forall|x: (Seq<char>, Seq<char>)| #[trigger] kept(x) ==> !powered(x));
    lemma_filter_excludes(hs, kept, powered);
    lemma_filter_push(filtered, powered, stamp);
    assert(once.filter(powered) =~= Seq::<(Seq<char>, Seq<char>)>::empty().push(stamp));

    let server = |p: (Seq<char>, Seq<char>)| p.0 == "server"@;
    assert("x-powered-by"@.len() != "server"@.len());
    assert(!server(stamp));
    assert(forall|x: (Seq<char>, Seq<char>)| #[trigger] kept(x) ==> !server(x));
    lemma_filter_excludes(hs, kept, server);
    lemma_filter_push(filtered, server, stamp);
}

/// The headers stamped onto every static-asset response: caching policy, the
/// build version, and the matching `vary` set.
pub fn static_asset_headers(version: &str) -> (r: Vec<Header>)
    ensures
        header_views(r@) =~= seq![
            ("cache-control"@, "public, no-transform"@),
            ("x-authentik-version"@, version@),
            ("vary"@, "X-authentik-version, Etag"@),
        ],
{
    let mut out: Vec<Header> = Vec::new();
    out.push(Header { name: "cache-control".to_owned(), value: "public, no-transform".to_owned() });
    out.push(Header { name: "x-authentik-version".to_owned(), value: version.to_owned() });
    out.push(Header { name: "vary".to_owned(), value: "X-authentik-version, Etag".to_owned() });
    out
}

} // verus!
