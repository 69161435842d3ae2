//! The client's side of the pool service's HTTP surface: which URLs are
//! requested and how the responses are read.  The driver performs the GETs
//! and hands status, headers and body back as plain values.

use vstd::prelude::*;

use crate::error::Error;

verus! {

/// A success HTTP status, as status classes define it.
pub open spec fn is_success_status(status: u16) -> bool {
    200 <= status < 300
}

/// Checks an HTTP status for success.
pub fn status_is_success(status: u16) -> (r: bool)
    ensures
        r == is_success_status(status),
{
    200 <= status && status < 300
}

/// The digest endpoint for a pool: `{server}/api/pool/{pool}/digest`.
pub fn digest_url(server_url: &str, pool_name: &str) -> (r: String)
    ensures
        r@ == server_url@ + "/api/pool/"@ + pool_name@ + "/digest"@,
{
    let mut url = server_url.to_owned();
    url.append("/api/pool/");
    url.append(pool_name);
    url.append("/digest");
    url
}

/// The wallpaper endpoint for a pool: `{server}/api/pool/{pool}/wallpaper`.
pub fn wallpaper_url(server_url: &str, pool_name: &str) -> (r: String)
    ensures
        r@ == server_url@ + "/api/pool/"@ + pool_name@ + "/wallpaper"@,
{
    let mut url = server_url.to_owned();
    url.append("/api/pool/");
    url.append(pool_name);
    url.append("/wallpaper");
    url
}

/// The interval endpoint: `{server}/api/interval`.
pub fn interval_url(server_url: &str) -> (r: String)
    ensures
        r@ == server_url@ + "/api/interval"@,
{
    let mut url = server_url.to_owned();
    url.append("/api/interval");
    url
}

/// The subtype of a content type: everything after the first `/`, if the
/// string holds one.
pub open spec fn subtype_of(s: Seq<char>) -> Option<Seq<char>>
    decreases s.len(),
{
    if s.len() == 0 {
        None
    } else if s[0] == '/' {
        Some(s.subrange(1, s.len() as int))
    } else {
        subtype_of(s.subrange(1, s.len() as int))
    }
}

/// The subtype is the part after the first slash.
proof fn lemma_subtype_at_first_slash(s: Seq<char>, j: int)
    requires
        0 <= j < s.len(),
        s[j] == '/',
        forall|i: int| 0 <= i < j ==> s[i] != '/',
    ensures
        subtype_of(s) == Some(s.subrange(j + 1, s.len() as int)),
    decreases j,
{
    if j == 0 {
    } else {
        let t = s.subrange(1, s.len() as int);
        lemma_subtype_at_first_slash(t, j - 1);
        assert(t.subrange(j, t.len() as int) =~= s.subrange(j + 1, s.len() as int));
    }
}

/// A string without a slash has no subtype.
proof fn lemma_subtype_none(s: Seq<char>)
    requires
        forall|i: int| 0 <= i < s.len() ==> s[i] != '/',
    ensures
        subtype_of(s) is None,
    decreases s.len(),
{
    if s.len() > 0 {
        lemma_subtype_none(s.subrange(1, s.len() as int));
    }
}

/// Reads the mandatory `Content-Type` header of a wallpaper response into
/// the file extension the wallpaper is cached under.
///
/// `Ok` holds the nonempty subtype (the portion after the first `/`); a
/// missing header, a content type without a slash, or an empty subtype is a
/// `ProtocolFailure` — never a silent default.
pub fn extension_from_content_type(content_type: Option<&String>) -> (r: Result<String, Error>)
    ensures
        match content_type {
            Some(ct) => {
                match subtype_of(ct@) {
                    Some(sub) => if sub.len() > 0 {
                        r matches Ok(e) && e@ == sub
                    } else {
                        r matches Err(f) && f is ProtocolFailure
                    },
                    None => r matches Err(f) && f is ProtocolFailure,
                }
            },
            None => r matches Err(f) && f is ProtocolFailure,
        },
{
    let ct = match content_type {
        Some(ct) => ct,
        None => {
            return Err(
                Error::ProtocolFailure(
                    String::from_str("the wallpaper response carried no content type"),
                ),
            );
        },
    };
    let s = ct.as_str();
    let n = s.unicode_len();
    let mut i: usize = 0;
    while i < n
        invariant
            content_type == Some(ct),
            ct@ == s@,
            n == s@.len(),
            i <= n,
            forall|k: int| 0 <= k < i ==> s@[k] != '/',
        decreases n - i,
    {
        if s.get_char(i) == '/' {
            proof {
                lemma_subtype_at_first_slash(s@, i as int);
            }
            if i + 1 == n {
                return Err(
                    Error::ProtocolFailure(
                        String::from_str("the wallpaper response's content type names no subtype"),
                    ),
                );
            }
            let sub = s.substring_char(i + 1, n);
            return Ok(sub.to_owned());
        }
        i = i + 1;
    }
    proof {
        lemma_subtype_none(s@);
    }
    Err(
        Error::ProtocolFailure(
            String::from_str("the wallpaper response's content type holds no slash"),
        ),
    )
}

} // verus!
