//! Derivation of the URL of a `did:web` identifier's document, and the
//! choice between `http` and `https` for a host.
use vstd::prelude::*;

use crate::metadata::{ResolutionMetadata, ERROR_INVALID_DID};
use crate::text::{
    first_sep, join_path, join_with, lemma_first_sep, lemma_split_first, lemma_split_nonempty,
    split_on, split_str, views,
};

verus! {

/// Hostnames resolved over plain `http` when no other list is configured.
pub const DEFAULT_FORCE_HTTP_HOSTNAMES: &'static str = "localhost";

/// The character views of a list of hostnames.
pub open spec fn host_views(hosts: Seq<String>) -> Seq<Seq<char>> {
    hosts.map_values(|h: String| h@)
}

/// `d` holds the escaped port separator `%3A` at index `i`.
pub open spec fn escape_at(d: Seq<char>, i: int) -> bool {
    &&& 0 <= i
    &&& i + 3 <= d.len()
    &&& d[i] == '%'
    &&& d[i + 1] == '3'
    &&& d[i + 2] == 'A'
}

/// Index of the first `%3A` in `d` at or after `i`, or `d.len()` if there is none.
pub open spec fn first_escape_from(d: Seq<char>, i: int) -> int
    decreases d.len() - i,
{
    if i < 0 || i + 3 > d.len() {
        d.len() as int
    } else if escape_at(d, i) {
        i
    } else {
        first_escape_from(d, i + 1)
    }
}

/// The hostname of a domain: what stands before its first `%3A`.
pub open spec fn host_of(domain: Seq<char>) -> Seq<char> {
    domain.take(first_escape_from(domain, 0))
}

/// The domain with its first `%3A` turned into `:`.
pub open spec fn decoded_domain(domain: Seq<char>) -> Seq<char> {
    let k = first_escape_from(domain, 0);
    if k < domain.len() {
        domain.take(k) + seq![':'] + domain.skip(k + 3)
    } else {
        domain
    }
}

/// `did` names `did:web` and a non-empty domain.
pub open spec fn is_web_did(did: Seq<char>) -> bool {
    let t = split_on(did, ':');
    &&& t.len() >= 3
    &&& t[0] == "did"@
    &&& t[1] == "web"@
    &&& t[2].len() > 0
}

/// The path of the document: the segments after the domain joined with `/`, or
/// `.well-known` where there are none.
pub open spec fn did_path(t: Seq<Seq<char>>) -> Seq<char> {
    if t.len() <= 3 {
        ".well-known"@
    } else {
        join_with(t.skip(3), '/')
    }
}

/// The protocol for `host`: `http` if the allow-list holds it, else `https`.
pub open spec fn protocol_for(host: Seq<char>, hosts: Seq<Seq<char>>) -> Seq<char> {
    if hosts.contains(host) {
        "http"@
    } else {
        "https"@
    }
}

/// The URL of the document of a valid `did:web` identifier.
pub open spec fn web_url(did: Seq<char>, hosts: Seq<Seq<char>>) -> Seq<char> {
    let t = split_on(did, ':');
    let d = t[2];
    protocol_for(host_of(d), hosts) + "://"@ + decoded_domain(d) + "/"@ + did_path(t) + "/did.json"@
}

proof fn lemma_split_known_head(s: Seq<char>, head: Seq<char>)
    requires
        s.len() > head.len(),
        s.take(head.len() as int) == head,
        s[head.len() as int] == ':',
        !head.contains(':'),
    ensures
        split_on(s, ':') == seq![head] + split_on(s.skip(head.len() as int + 1), ':'),
{
    lemma_first_sep(s, ':');
    lemma_split_first(s, ':', Seq::empty());
    let k = first_sep(s, ':');
    if k < head.len() {
        assert(head[k] == s[k]);
    }
    assert(Seq::<char>::empty() + s.take(k) =~= head);
}

/// An identifier is accepted exactly when it begins with `did:web:` and the
/// domain that follows, up to the next `:`, is not empty.
pub proof fn lemma_web_did_prefix(did: Seq<char>)
    ensures
        is_web_did(did) <==> {
            &&& did.len() >= 8
            &&& did.take(8) == "did:web:"@
            &&& split_on(did.skip(8), ':')[0].len() > 0
        },
{
    reveal_strlit("did:web:");
    reveal_strlit("did");
    reveal_strlit("web");
    let t = split_on(did, ':');
    let rest = did.skip(4);
    lemma_split_first(did, ':', Seq::empty());
    lemma_first_sep(did, ':');
    lemma_split_first(rest, ':', Seq::empty());
    lemma_first_sep(rest, ':');
    lemma_split_nonempty(did.skip(8), ':');
    lemma_split_nonempty(rest, ':');
    assert(!"did"@.contains(':'));
    assert(!"web"@.contains(':'));
    if did.len() >= 8 && did.take(8) == "did:web:"@ {
        assert forall|j: int| 0 <= j < 3 implies did.take(3)[j] == "did"@[j] by {
            assert(did.take(3)[j] == did.take(8)[j]);
        }
        assert(did.take(3) =~= "did"@);
        assert(did[3] == did.take(8)[3]);
        lemma_split_known_head(did, "did"@);
        assert forall|j: int| 0 <= j < 3 implies rest.take(3)[j] == "web"@[j] by {
            assert(rest.take(3)[j] == did.take(8)[j + 4]);
        }
        assert(rest.take(3) =~= "web"@);
        assert(rest[3] == did.take(8)[7]);
        lemma_split_known_head(rest, "web"@);
        assert(rest.skip(4) =~= did.skip(8));
    }
    if is_web_did(did) {
        let k0 = first_sep(did, ':');
        assert(k0 < did.len());
        assert(Seq::<char>::empty() + did.take(k0) =~= did.take(k0));
        assert(did.take(k0) == "did"@);
        assert(k0 == 3);
        assert(did.skip(k0 + 1) =~= rest);
        let k1 = first_sep(rest, ':');
        assert(k1 < rest.len());
        assert(Seq::<char>::empty() + rest.take(k1) =~= rest.take(k1));
        assert(rest.take(k1) == "web"@);
        assert(k1 == 3);
        assert(rest.skip(4) =~= did.skip(8));
        assert(did.take(8) =~= "did:web:"@) by {
            assert forall|j: int| 0 <= j < 8 implies did.take(8)[j] == "did:web:"@[j] by {
                if j < 3 {
                    assert(did.take(3)[j] == did[j]);
                } else if j > 3 && j < 7 {
                    assert(rest.take(3)[j - 4] == did[j]);
                } else if j == 7 {
                    assert(rest[3] == did[7]);
                }
            }
        }
    }
}

/// Hostnames on the allow-list are reached over `http`, all others over
/// `https`.
pub proof fn lemma_protocol_choice(did: Seq<char>, hosts: Seq<Seq<char>>)
    requires
        is_web_did(did),
    ensures
        hosts.contains(host_of(split_on(did, ':')[2])) ==> web_url(did, hosts).take(7) == "http://"@,
        !hosts.contains(host_of(split_on(did, ':')[2])) ==> web_url(did, hosts).take(8) == "https://"@,
{
    reveal_strlit("http");
    reveal_strlit("https");
    reveal_strlit("://");
    reveal_strlit("http://");
    reveal_strlit("https://");
    let u = web_url(did, hosts);
    if hosts.contains(host_of(split_on(did, ':')[2])) {
        assert(u.take(7) =~= "http://"@);
    } else {
        assert(u.take(8) =~= "https://"@);
    }
}

/// Every URL that an identifier resolves to ends in `/did.json`.
pub proof fn lemma_url_suffix(did: Seq<char>, hosts: Seq<Seq<char>>)
    ensures
        web_url(did, hosts).len() >= 9,
        web_url(did, hosts).skip(web_url(did, hosts).len() - 9) == "/did.json"@,
{
    reveal_strlit("/did.json");
    let u = web_url(did, hosts);
    assert(u.skip(u.len() - 9) =~= "/did.json"@);
}

fn same_text(a: &str, b: &str) -> (r: bool)
    ensures
        r == (a@ == b@),
{
    String::from_str(a) == String::from_str(b)
}

proof fn lemma_first_escape(d: Seq<char>, i: int)
    ensures
        first_escape_from(d, i) <= d.len(),
        first_escape_from(d, i) < d.len() ==> escape_at(d, first_escape_from(d, i)),
    decreases d.len() - i,
{
    if !(i < 0 || i + 3 > d.len()) && !escape_at(d, i) {
        lemma_first_escape(d, i + 1);
    }
}

fn first_escape(d: &str) -> (k: usize)
    ensures
        k == first_escape_from(d@, 0),
        k <= d@.len(),
        k < d@.len() ==> escape_at(d@, k as int),
{
    proof {
        lemma_first_escape(d@, 0);
    }
    let n = d.unicode_len();
    let mut i: usize = 0;
    while i < n && n - i >= 3
        invariant
            n == d@.len(),
            i <= n,
            first_escape_from(d@, 0) == first_escape_from(d@, i as int),
        decreases n - i,
    {
        if d.get_char(i) == '%' && d.get_char(i + 1) == '3' && d.get_char(i + 2) == 'A' {
            return i;
        }
        i = i + 1;
    }
    n
}

/// The hostname of `domain`: what stands before its first `%3A`.
pub fn host_name(domain: &str) -> (r: String)
    ensures
        r@ == host_of(domain@),
{
    let k = first_escape(domain);
    let h = domain.substring_char(0, k);
    proof {
        assert(h@ =~= host_of(domain@));
    }
    String::from_str(h)
}

/// `domain` with its first `%3A` replaced by `:`.
pub fn decode_domain(domain: &str) -> (r: String)
    ensures
        r@ == decoded_domain(domain@),
{
    let n = domain.unicode_len();
    let k = first_escape(domain);
    if k < n {
        let mut r = String::from_str(domain.substring_char(0, k));
        proof {
            reveal_strlit(":");
        }
        r.append(":");
        r.append(domain.substring_char(k + 3, n));
        proof {
            assert(r@ =~= decoded_domain(domain@));
        }
        r
    } else {
        String::from_str(domain)
    }
}

/// Whether `host` is resolved over plain `http`: it equals an entry of `hosts`.
pub fn uses_http(host: &String, hosts: &Vec<String>) -> (r: bool)
    ensures
        r == host_views(hosts@).contains(host@),
{
    let mut j: usize = 0;
    while j < hosts.len()
        invariant
            j <= hosts.len(),
            forall|m: int| 0 <= m < j ==> hosts@[m]@ != host@,
        decreases hosts.len() - j,
    {
        if hosts[j] == *host {
            proof {
                assert(host_views(hosts@)[j as int] == host@);
            }
            return true;
        }
        j = j + 1;
    }
    proof {
        if host_views(hosts@).contains(host@) {
            let m = choose|m: int| 0 <= m < host_views(hosts@).len() && host_views(hosts@)[m] == host@;
            assert(hosts@[m]@ == host@);
        }
    }
    false
}

/// Reads a comma-delimited list of hostnames.
pub fn parse_hostname_list(s: &str) -> (r: Vec<String>)
    ensures
        host_views(r@) == split_on(s@, ','),
{
    let parts = split_str(s, ',');
    let mut r: Vec<String> = Vec::new();
    let mut i: usize = 0;
    while i < parts.len()
        invariant
            i <= parts.len(),
            host_views(r@) == views(parts@).take(i as int),
        decreases parts.len() - i,
    {
        let h = String::from_str(parts[i]);
        let ghost prev = r@;
        r.push(h);
        proof {
            assert(r@ == prev.push(h));
            assert(host_views(r@) =~= host_views(prev).push(h@));
            assert(views(parts@).take(i + 1) =~= views(parts@).take(i as int).push(parts@[i as int]@));
        }
        i = i + 1;
    }
    proof {
        assert(views(parts@).take(parts.len() as int) =~= views(parts@));
    }
    r
}

/// The hostnames resolved over plain `http` when no other list is configured.
pub fn default_force_http_hostnames() -> (r: Vec<String>)
    ensures
        host_views(r@) == seq![DEFAULT_FORCE_HTTP_HOSTNAMES@],
{
    let r = vec![String::from_str(DEFAULT_FORCE_HTTP_HOSTNAMES)];
    proof {
        assert(host_views(r@) =~= seq![DEFAULT_FORCE_HTTP_HOSTNAMES@]);
    }
    r
}

/// The URL of the document that `did` names, where the hostnames of `hosts` use
/// `http` and all others `https`; metadata with the error `invalidDid` where
/// `did` is not a `did:web` identifier with a non-empty domain.
pub fn did_web_url_with(did: &str, hosts: &Vec<String>) -> (r: Result<String, ResolutionMetadata>)
    ensures
        match r {
            Ok(url) => is_web_did(did@) && url@ == web_url(did@, host_views(hosts@)),
            Err(meta) => !is_web_did(did@) && meta.is_error(ERROR_INVALID_DID@),
        },
{
    let parts = split_str(did, ':');
    proof {
        assert(views(parts@).len() == parts@.len());
    }
    if parts.len() < 3 || !same_text(parts[0], "did") || !same_text(parts[1], "web")
        || parts[2].unicode_len() == 0 {
        return Err(ResolutionMetadata::from_error(ERROR_INVALID_DID));
    }
    let domain = parts[2];
    let path = if parts.len() == 3 {
        String::from_str(".well-known")
    } else {
        join_path(&parts, 3)
    };
    let host = host_name(domain);
    let proto = if uses_http(&host, hosts) {
        "http"
    } else {
        "https"
    };
    let mut url = String::from_str(proto);
    url.append("://");
    let decoded = decode_domain(domain);
    url.append(decoded.as_str());
    url.append("/");
    url.append(path.as_str());
    url.append("/did.json");
    Ok(url)
}

/// [`did_web_url_with`] under the default allow-list, `localhost`.
pub fn did_web_url(did: &str) -> (r: Result<String, ResolutionMetadata>)
    ensures
        match r {
            Ok(url) => is_web_did(did@) && url@ == web_url(did@, seq![DEFAULT_FORCE_HTTP_HOSTNAMES@]),
            Err(meta) => !is_web_did(did@) && meta.is_error(ERROR_INVALID_DID@),
        },
{
    let hosts = default_force_http_hostnames();
    did_web_url_with(did, &hosts)
}

} // verus!
