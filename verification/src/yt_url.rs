use vstd::prelude::*;

use crate::text::str_eq;

verus! {

/// One decoded key/value pair of a URL query string.
#[derive(Debug)]
pub struct QueryPair {
    pub key: String,
    pub value: String,
}

/// The parts of a parsed URL that id extraction reads, as plain values.
#[derive(Debug)]
pub struct UrlParts {
    /// The host, when it is a domain name.
    pub domain: Option<String>,
    /// The path, including its leading slash.
    pub path: String,
    /// The percent-decoded query pairs, in order.
    pub query: Vec<QueryPair>,
}

/// What the URL parser returns for a given string: its decomposition into
/// domain, path and query pairs, or nothing when the string is not a URL.
pub uninterp spec fn url_parts_of(s: Seq<char>) -> Option<UrlParts>;

/// Relies on `url::Url::parse` and its accessors `domain`, `path` and
/// `query_pairs`: the decomposition of a URL string into plain parts. The
/// result depends on the string alone.
#[verifier::external_body]
pub(crate) fn parse_url(s: &str) -> (r: Option<UrlParts>)
    ensures
        r == url_parts_of(s@),
{
    match url::Url::parse(s) {
        Ok(u) => {
            let domain = u.domain().map(|d| d.to_owned());
            let path = u.path().to_owned();
            let query = u
                .query_pairs()
                .map(|(k, v)| QueryPair { key: k.into_owned(), value: v.into_owned() })
                .collect();
            Some(UrlParts { domain, path, query })
        },
        Err(_) => None,
    }
}

/// The ids a URL carries, when it is a recognized video or playlist URL.
#[derive(Debug)]
pub struct YtUrlIds {
    pub video_id: Option<String>,
    pub playlist_id: Option<String>,
}

pub open spec fn opt_str_view(o: Option<String>) -> Option<Seq<char>> {
    match o {
        Some(s) => Some(s@),
        None => None,
    }
}

pub open spec fn short_link_domain() -> Seq<char> {
    seq!['y', 'o', 'u', 't', 'u', '.', 'b', 'e']
}

pub open spec fn long_link_domain_suffix() -> Seq<char> {
    seq!['y', 'o', 'u', 't', 'u', 'b', 'e', '.', 'c', 'o', 'm']
}

pub open spec fn is_short_link_domain(d: Seq<char>) -> bool {
    d == short_link_domain()
}

pub open spec fn is_long_link_domain(d: Seq<char>) -> bool {
    d.len() >= 11 && d.subrange(d.len() - 11, d.len() as int) == long_link_domain_suffix()
}

/// First value among the query pairs whose key matches, in order.
pub open spec fn first_query_value(q: Seq<QueryPair>, key: Seq<char>) -> Option<Seq<char>>
    decreases q.len(),
{
    if q.len() == 0 {
        None
    } else if q[0].key@ == key {
        Some(q[0].value@)
    } else {
        first_query_value(q.subrange(1, q.len() as int), key)
    }
}

/// The video id the parts carry: the path without its leading slash for a
/// short link, the first `v` query value for a long link.
pub open spec fn spec_video_id(p: Option<UrlParts>) -> Option<Seq<char>> {
    match p {
        None => None,
        Some(p) => if p.domain is Some && is_short_link_domain(p.domain->0@) {
            if p.path@.len() >= 1 {
                Some(p.path@.subrange(1, p.path@.len() as int))
            } else {
                None
            }
        } else if p.domain is Some && is_long_link_domain(p.domain->0@) {
            first_query_value(p.query@, seq!['v'])
        } else {
            None
        },
    }
}

/// The playlist id the parts carry: the first `list` query value for a long
/// link; a short link never carries one.
pub open spec fn spec_playlist_id(p: Option<UrlParts>) -> Option<Seq<char>> {
    match p {
        None => None,
        Some(p) => if p.domain is Some && is_short_link_domain(p.domain->0@) {
            None
        } else if p.domain is Some && is_long_link_domain(p.domain->0@) {
            first_query_value(p.query@, seq!['l', 'i', 's', 't'])
        } else {
            None
        },
    }
}

/// First value among the query pairs whose key matches.
fn find_query_value(q: &Vec<QueryPair>, key: &str) -> (r: Option<String>)
    ensures
        opt_str_view(r) == first_query_value(q@, key@),
{
    let mut i: usize = 0;
    proof {
        assert(q@.subrange(0, q@.len() as int) =~= q@);
    }
    while i < q.len()
        invariant
            i <= q@.len(),
            first_query_value(q@.subrange(i as int, q@.len() as int), key@)
                == first_query_value(q@, key@),
        decreases q@.len() - i,
    {
        let ghost rest = q@.subrange(i as int, q@.len() as int);
        if str_eq(q[i].key.as_str(), key) {
            return Some(q[i].value.clone());
        }
        proof {
            assert(rest.subrange(1, rest.len() as int) =~= q@.subrange(
                i + 1,
                q@.len() as int,
            ));
        }
        i = i + 1;
    }
    proof {
        assert(q@.subrange(q@.len() as int, q@.len() as int) =~= Seq::<QueryPair>::empty());
    }
    None
}

/// Whether the domain is exactly the short-link domain.
fn domain_is_short(d: &str) -> (r: bool)
    ensures
        r == is_short_link_domain(d@),
{
    proof {
        reveal_strlit("youtu.be");
        assert("youtu.be"@ =~= short_link_domain());
    }
    str_eq(d, "youtu.be")
}

/// Whether the domain is the long-link domain or a subdomain of it.
fn domain_is_long(d: &str) -> (r: bool)
    ensures
        r == is_long_link_domain(d@),
{
    proof {
        reveal_strlit("youtube.com");
        assert("youtube.com"@ =~= long_link_domain_suffix());
    }
    let n = d.unicode_len();
    if n < 11 {
        return false;
    }
    let suffix = d.substring_char(n - 11, n);
    str_eq(suffix, "youtube.com")
}

/// Id extraction over already parsed URL parts.
pub fn extract_ids_from_parts(p: &UrlParts) -> (r: YtUrlIds)
    ensures
        opt_str_view(r.video_id) == spec_video_id(Some(*p)),
        opt_str_view(r.playlist_id) == spec_playlist_id(Some(*p)),
{
    let is_short = match &p.domain {
        Some(d) => domain_is_short(d.as_str()),
        None => false,
    };
    if is_short {
        let path = p.path.as_str();
        let n = path.unicode_len();
        if n >= 1 {
            let tail = path.substring_char(1, n);
            YtUrlIds { video_id: Some(tail.to_owned()), playlist_id: None }
        } else {
            YtUrlIds { video_id: None, playlist_id: None }
        }
    } else {
        let is_long = match &p.domain {
            Some(d) => domain_is_long(d.as_str()),
            None => false,
        };
        if is_long {
            proof {
                reveal_strlit("v");
                reveal_strlit("list");
                assert("v"@ =~= seq!['v']);
                assert("list"@ =~= seq!['l', 'i', 's', 't']);
            }
            YtUrlIds {
                video_id: find_query_value(&p.query, "v"),
                playlist_id: find_query_value(&p.query, "list"),
            }
        } else {
            YtUrlIds { video_id: None, playlist_id: None }
        }
    }
}

/// Determines whether the string is a recognized video or playlist URL and
/// extracts the embedded ids. A pure string operation: no network call.
pub fn get_yt_id_from_url(url: &str) -> (r: YtUrlIds)
    ensures
        opt_str_view(r.video_id) == spec_video_id(url_parts_of(url@)),
        opt_str_view(r.playlist_id) == spec_playlist_id(url_parts_of(url@)),
{
    match parse_url(url) {
        Some(p) => extract_ids_from_parts(&p),
        None => YtUrlIds { video_id: None, playlist_id: None },
    }
}

} // verus!
