use vstd::prelude::*;
use crate::util::strings::str_eq;
use crate::util::url::{LevelUrl, url_join, url_scheme};

verus! {

/// Why an asset could not be fetched; the payloads are the texts of the
/// underlying errors.
#[derive(Debug)]
pub enum Error {
    HTTP(String),
    IO(String),
    URLJoin(String),
    InvalidScheme,
}

/// Where an asset is read from.
pub enum Source {
    /// An `http` or `https` URL, read with an HTTP GET.
    Http(LevelUrl),
    /// A `file` URL, read from the local file system.
    File(LevelUrl),
}

/// Whether a scheme is served over HTTP.
pub open spec fn is_http_scheme(scheme: Seq<char>) -> bool {
    scheme == "http"@ || scheme == "https"@
}

/// The scheme of a serialization whose first `:` is at `n` is its first `n`
/// characters.
proof fn lemma_scheme_prefix(u: Seq<char>, n: int)
    requires
        0 <= n < u.len(),
        u[n] == ':',
        forall|i: int| 0 <= i < n ==> u[i] != ':',
    ensures
        url_scheme(u) == u.take(n),
    decreases n,
{
    if n > 0 {
        let t = u.drop_first();
        assert forall|i: int| 0 <= i < n - 1 implies t[i] != ':' by {
            assert(t[i] == u[i + 1]);
        }
        lemma_scheme_prefix(t, n - 1);
        assert(u.take(n) =~= seq![u[0]] + t.take(n - 1));
    } else {
        assert(u.take(0) =~= Seq::<char>::empty());
    }
}

/// Scheme law: a URL whose serialization begins `http:` or `https:` is read
/// over HTTP, and one that begins `file:` is read from the file system.
pub proof fn lemma_scheme_source(u: Seq<char>)
    ensures
        u.len() >= 5 && u.take(5) == "http:"@ ==> url_scheme(u) == "http"@ && is_http_scheme(url_scheme(u)),
        u.len() >= 6 && u.take(6) == "https:"@ ==> url_scheme(u) == "https"@ && is_http_scheme(url_scheme(u)),
        u.len() >= 5 && u.take(5) == "file:"@ ==> url_scheme(u) == "file"@ && !is_http_scheme(url_scheme(u)),
{
    reveal_strlit("http:");
    reveal_strlit("https:");
    reveal_strlit("file:");
    reveal_strlit("http");
    reveal_strlit("https");
    reveal_strlit("file");
    if u.len() >= 5 && u.take(5) == "http:"@ {
        assert(u[0] == u.take(5)[0] && u.take(5)[0] == "http:"@[0]);
        assert(u[1] == u.take(5)[1] && u.take(5)[1] == "http:"@[1]);
        assert(u[2] == u.take(5)[2] && u.take(5)[2] == "http:"@[2]);
        assert(u[3] == u.take(5)[3] && u.take(5)[3] == "http:"@[3]);
        assert(u[4] == u.take(5)[4] && u.take(5)[4] == "http:"@[4]);
        lemma_scheme_prefix(u, 4);
        assert(u.take(4) =~= "http"@);
    }
    if u.len() >= 6 && u.take(6) == "https:"@ {
        assert(u[0] == u.take(6)[0] && u.take(6)[0] == "https:"@[0]);
        assert(u[1] == u.take(6)[1] && u.take(6)[1] == "https:"@[1]);
        assert(u[2] == u.take(6)[2] && u.take(6)[2] == "https:"@[2]);
        assert(u[3] == u.take(6)[3] && u.take(6)[3] == "https:"@[3]);
        assert(u[4] == u.take(6)[4] && u.take(6)[4] == "https:"@[4]);
        assert(u[5] == u.take(6)[5] && u.take(6)[5] == "https:"@[5]);
        lemma_scheme_prefix(u, 5);
        assert(u.take(5) =~= "https"@);
    }
    if u.len() >= 5 && u.take(5) == "file:"@ {
        assert(u[0] == u.take(5)[0] && u.take(5)[0] == "file:"@[0]);
        assert(u[1] == u.take(5)[1] && u.take(5)[1] == "file:"@[1]);
        assert(u[2] == u.take(5)[2] && u.take(5)[2] == "file:"@[2]);
        assert(u[3] == u.take(5)[3] && u.take(5)[3] == "file:"@[3]);
        assert(u[4] == u.take(5)[4] && u.take(5)[4] == "file:"@[4]);
        lemma_scheme_prefix(u, 4);
        assert(u.take(4) =~= "file"@);
        assert("file"@[0] != "http"@[0]);
        assert("file"@.len() != "https"@.len());
    }
}

/// Resolves `href` against `base_url` and decides how the asset is read: HTTP for
/// `http` and `https`, the file system for `file`; a failed join and any other
/// scheme are errors.
pub fn resolve(base_url: &LevelUrl, href: &str) -> (res: Result<Source, Error>)
    ensures
        url_join(base_url@, href@) matches Ok(u) ==> (url_scheme(u) == "http"@ || url_scheme(u) == "https"@
            ==> (res matches Ok(Source::Http(v)) && v@ == u)),
        url_join(base_url@, href@) matches Ok(u) ==> (url_scheme(u) == "file"@
            ==> (res matches Ok(Source::File(v)) && v@ == u)),
        url_join(base_url@, href@) matches Ok(u) ==> (url_scheme(u) != "http"@ && url_scheme(u) != "https"@
            && url_scheme(u) != "file"@ ==> res matches Err(Error::InvalidScheme)),
        match url_join(base_url@, href@) {
            Err(e) => res matches Err(Error::URLJoin(m)) && m@ == e,
            Ok(u) => if is_http_scheme(url_scheme(u)) {
                res matches Ok(Source::Http(v)) && v@ == u
            } else if url_scheme(u) == "file"@ {
                res matches Ok(Source::File(v)) && v@ == u
            } else {
                res matches Err(Error::InvalidScheme)
            },
        },
{
    let url = match base_url.join(href) {
        Ok(url) => url,
        Err(e) => return Err(Error::URLJoin(e)),
    };
    let scheme = url.scheme();
    proof {
        reveal_strlit("http");
        reveal_strlit("https");
        reveal_strlit("file");
        assert("file"@[0] != "http"@[0]);
        assert("file"@.len() != "https"@.len());
    }
    if str_eq(scheme, "http") || str_eq(scheme, "https") {
        Ok(Source::Http(url))
    } else if str_eq(scheme, "file") {
        Ok(Source::File(url))
    } else {
        Err(Error::InvalidScheme)
    }
}

} // verus!
