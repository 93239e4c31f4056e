//! Asset requests are answered with a redirect to the collection's cache.
use vstd::prelude::*;
use vstd::string::{StrSliceExecFns, StringExecFns};
use crate::types::HttpResponse;

verus! {

/// Where asset requests are redirected to; the asset path is appended.
pub const REDIRECT_BASE: &'static str = "https://cache.icpunks.com/metachess/";

/// `i` is where the query part of `url` starts: its first `?`, or its end.
pub open spec fn query_start(url: Seq<char>, i: int) -> bool {
    &&& 0 <= i <= url.len()
    &&& (i == url.len() || url[i] == '?')
    &&& forall|k: int| 0 <= k < i ==> url[k] != '?'
}

/// A permanent-cache redirect of the asset named by `url`, query dropped.
pub fn http_request(url: &str) -> (r: HttpResponse)
    ensures
        r.status_code == 302,
        r.body@.len() == 0,
        r.headers@.len() == 2,
        r.headers@[0].0@ == "Cache-Control"@,
        r.headers@[0].1@ == "public, max-age=604800, immutable"@,
        r.headers@[1].0@ == "Location"@,
        exists|i: int|
            query_start(url@, i) && r.headers@[1].1@ == REDIRECT_BASE@ + url@.subrange(0, i),
{
    let n = url.unicode_len();
    let mut i: usize = 0;
    while i < n && url.get_char(i) != '?'
        invariant
            n == url@.len(),
            i <= n,
            forall|k: int| 0 <= k < i ==> url@[k] != '?',
        decreases n - i,
    {
        i = i + 1;
    }
    let path = url.substring_char(0, i);
    let location = String::from_str(REDIRECT_BASE).concat(path);
    assert(query_start(url@, i as int));
    let mut headers: Vec<(String, String)> = Vec::new();
    headers.push(
        (String::from_str("Cache-Control"), String::from_str("public, max-age=604800, immutable")),
    );
    headers.push((String::from_str("Location"), location));
    HttpResponse { status_code: 302, headers, body: Vec::new() }
}

} // verus!
