//! The forwarding rules of the web front end: which requests under `/api` go
//! to the API server, at what URL, and which response headers come back.

use vstd::prelude::*;
use vstd::string::StringSliceAdditionalSpecFns;
use url::Url;

verus! {

#[verifier::external_type_specification]
#[verifier::external_body]
pub struct ExUrl(Url);

/// What a URL holds: its serialization, the text `Url::as_str` gives.
pub uninterp spec fn url_serialization(url: Url) -> Seq<char>;

/// Whether a URL has a host, as `Url::has_host` tells.
pub uninterp spec fn url_holds_host(url: Url) -> bool;

/// Whether a URL is cannot-be-a-base (its path does not start with "/"), as
/// `Url::cannot_be_a_base` tells.
pub uninterp spec fn url_is_cannot_be_a_base(url: Url) -> bool;

/// Whether a URL's text fixes where its path, query and fragment lie: it has
/// a host and is not cannot-be-a-base. Only for such URLs is what the path
/// and query setters make a function of the text.
pub open spec fn url_text_fixed(url: Url) -> bool {
    url_holds_host(url) && !url_is_cannot_be_a_base(url)
}

/// The serialization, after `Url::set_path` with `path`, of a URL whose text
/// fixes its structure.
pub uninterp spec fn url_with_path(serialization: Seq<char>, path: Seq<char>) -> Seq<char>;

/// The serialization, after `Url::set_query` with `query`, of a URL whose
/// text fixes its structure.
pub uninterp spec fn url_with_query(serialization: Seq<char>, query: Option<Seq<char>>) -> Seq<char>;

/// The length in bytes of a text.
pub open spec fn byte_len(text: Seq<char>) -> int {
    vstd::utf8::encode_utf8(text).len() as int
}

/// The text of an optional text.
pub open spec fn opt_view(text: Option<&str>) -> Option<Seq<char>> {
    match text {
        Some(t) => Some(t@),
        None => None,
    }
}

/// The byte length of an optional text, zero when there is none.
pub open spec fn opt_byte_len(text: Option<&str>) -> int {
    match text {
        Some(t) => byte_len(t@),
        None => 0,
    }
}

/// Calls `<Url as Clone>::clone`. Claimed: the copy holds the same
/// serialization, host and path kind.
#[verifier::external_body]
fn url_clone(url: &Url) -> (res: Url)
    ensures
        url_serialization(res) == url_serialization(*url),
        url_holds_host(res) == url_holds_host(*url),
        url_is_cannot_be_a_base(res) == url_is_cannot_be_a_base(*url),
{
    url.clone()
}

/// Calls `Url::set_path`. Claimed: for a URL whose text fixes its structure,
/// the new serialization is the named result of the old one and the path, and
/// the host and the leading "/" of the path stay; for any URL, the path comes
/// in percent-encoded, at most three bytes for each of its bytes and a few
/// separator bytes more. The crate panics when the serialization outgrows
/// `u32`; `requires` keeps clear of that.
#[verifier::external_body]
fn url_set_path(url: &mut Url, path: &str)
    requires
        byte_len(url_serialization(*old(url))) + 3 * byte_len(path@) + 4 <= u32::MAX,
    ensures
        url_text_fixed(*old(url)) ==> url_serialization(*final(url)) == url_with_path(
            url_serialization(*old(url)),
            path@,
        ),
        url_text_fixed(*old(url)) ==> url_text_fixed(*final(url)),
        byte_len(url_serialization(*final(url))) <= byte_len(url_serialization(*old(url))) + 3
            * byte_len(path@) + 4,
{
    url.set_path(path)
}

/// Calls `Url::set_query`. Claimed: for a URL whose text fixes its structure,
/// the new serialization is the named result of the old one and the query,
/// and the host and path stay. The crate panics when the serialization
/// outgrows `u32`, which `requires` keeps clear of.
#[verifier::external_body]
fn url_set_query(url: &mut Url, query: Option<&str>)
    requires
        byte_len(url_serialization(*old(url))) + 3 * opt_byte_len(query) + 4 <= u32::MAX,
    ensures
        url_text_fixed(*old(url)) ==> url_serialization(*final(url)) == url_with_query(
            url_serialization(*old(url)),
            opt_view(query),
        ),
        url_text_fixed(*old(url)) ==> url_text_fixed(*final(url)),
{
    url.set_query(query)
}

/// Calls `Url::as_str`. Claimed: the text is the URL's serialization.
#[verifier::external_body]
fn url_as_str(url: &Url) -> (res: &str)
    ensures
        res@ == url_serialization(*url),
{
    url.as_str()
}

/// Calls `Url::has_host`.
#[verifier::external_body]
fn url_has_host(url: &Url) -> (res: bool)
    ensures
        res == url_holds_host(*url),
{
    url.has_host()
}

/// Calls `Url::cannot_be_a_base`.
#[verifier::external_body]
fn url_cannot_be_a_base(url: &Url) -> (res: bool)
    ensures
        res == url_is_cannot_be_a_base(*url),
{
    url.cannot_be_a_base()
}

/// Whether the URL's text fixes where its path, query and fragment lie, so
/// that what `forward_handler` makes of it is stated by its text: it has a
/// host and is not cannot-be-a-base. The API server's URL is such a URL.
pub fn text_fixes_structure(url: &Url) -> (res: bool)
    ensures
        res == url_text_fixed(*url),
{
    url_has_host(url) && !url_cannot_be_a_base(url)
}

/// Why a request cannot be forwarded; both are answered "404 bad path".
#[derive(Clone, Copy, Debug, PartialEq, Eq, Structural)]
pub enum ForwardError {
    /// The path is `/api` itself, naming no target API.
    MissingTargetApi,
    /// The path does not start with `/api`.
    NotUnderApi,
}

/// The characters of "/api".
pub open spec fn api_prefix() -> Seq<char> {
    seq!['/', 'a', 'p', 'i']
}

/// The path on the API server that a request path is forwarded to: what
/// follows "/api", which must not be empty.
pub open spec fn api_target_path(path: Seq<char>) -> Result<Seq<char>, ForwardError> {
    if path.len() >= 4 && path.subrange(0, 4) == api_prefix() {
        if path.len() == 4 {
            Err(ForwardError::MissingTargetApi)
        } else {
            Ok(path.subrange(4, path.len() as int))
        }
    } else {
        Err(ForwardError::NotUnderApi)
    }
}

/// The path forwarded for a request path under "/api" is everything that
/// follows the prefix, nothing cut: the prefix and it give back the request
/// path; a path that is not under "/api", or is "/api" alone, is refused.
pub proof fn lemma_api_target_path_whole(path: Seq<char>)
    ensures
        (path.len() > 4 && path.subrange(0, 4) == seq!['/', 'a', 'p', 'i']) ==> (api_target_path(
            path,
        ) matches Ok(p) && seq!['/', 'a', 'p', 'i'] + p == path),
        api_target_path(path) matches Ok(p) ==> seq!['/', 'a', 'p', 'i'] + p == path && p.len() > 0,
        path == seq!['/', 'a', 'p', 'i'] ==> api_target_path(path) == Err::<Seq<char>, ForwardError>(
            ForwardError::MissingTargetApi,
        ),
        !(path.len() >= 4 && path.subrange(0, 4) == seq!['/', 'a', 'p', 'i']) ==> api_target_path(path)
            == Err::<Seq<char>, ForwardError>(ForwardError::NotUnderApi),
{
    if path.len() >= 4 && path.subrange(0, 4) == seq!['/', 'a', 'p', 'i'] {
        assert(path =~= path.subrange(0, 4) + path.subrange(4, path.len() as int));
    }
    if path == seq!['/', 'a', 'p', 'i'] {
        assert(path.subrange(0, 4) =~= path);
    }
}

/// Finds the path on the API server for a request path.
pub fn api_path(request_path: &str) -> (res: Result<&str, ForwardError>)
    ensures
        match api_target_path(request_path@) {
            Ok(p) => res matches Ok(r) && r@ == p,
            Err(e) => res == Err::<&str, ForwardError>(e),
        },
        res matches Ok(r) ==> seq!['/', 'a', 'p', 'i'] + r@ == request_path@ && r@.len() > 0,
        (request_path@.len() > 4 && request_path@.subrange(0, 4) == seq!['/', 'a', 'p', 'i'])
            ==> res is Ok,
        request_path@ == seq!['/', 'a', 'p', 'i'] ==> res == Err::<&str, ForwardError>(
            ForwardError::MissingTargetApi,
        ),
        !(request_path@.len() >= 4 && request_path@.subrange(0, 4) == seq!['/', 'a', 'p', 'i'])
            ==> res == Err::<&str, ForwardError>(ForwardError::NotUnderApi),
{
    let n = request_path.unicode_len();
    if n >= 4 && request_path.get_char(0) == '/' && request_path.get_char(1) == 'a'
        && request_path.get_char(2) == 'p' && request_path.get_char(3) == 'i' {
        assert(request_path@.subrange(0, 4) =~= api_prefix());
        if n == 4 {
            Err(ForwardError::MissingTargetApi)
        } else {
            Ok(request_path.substring_char(4, n))
        }
    } else {
        assert(request_path@.len() >= 4 ==> request_path@.subrange(0, 4)[0] == request_path@[0]);
        assert(request_path@.len() >= 4 ==> request_path@.subrange(0, 4)[1] == request_path@[1]);
        assert(request_path@.len() >= 4 ==> request_path@.subrange(0, 4)[2] == request_path@[2]);
        assert(request_path@.len() >= 4 ==> request_path@.subrange(0, 4)[3] == request_path@[3]);
        Err(ForwardError::NotUnderApi)
    }
}

/// The UTF-8 length of joined texts is the sum of their lengths.
pub proof fn lemma_byte_len_concat(a: Seq<char>, b: Seq<char>)
    ensures
        byte_len(a + b) == byte_len(a) + byte_len(b),
    decreases a.len(),
{
    if a.len() > 0 {
        assert((a + b).drop_first() =~= a.drop_first() + b);
        assert((a + b)[0] == a[0]);
        lemma_byte_len_concat(a.drop_first(), b);
    } else {
        assert(a + b =~= b);
    }
}

/// A request to forward to the API server.
pub struct ForwardRequest {
    /// Where to send it.
    pub url: Url,
    /// The address of the peer, for an "x-forwarded-for" header, when known.
    pub forwarded_for: Option<String>,
}

/// Decides where a request under `/api` goes: the API server's URL with the
/// path that follows "/api" and the request's query, with the peer's address
/// to pass on. Other paths are refused. The text of the new URL is stated for
/// a server URL whose text fixes its structure (see `text_fixes_structure`).
pub fn forward_handler(url: &Url, request_path: &str, query: Option<&str>, peer_ip: Option<String>) -> (res: Result<ForwardRequest, ForwardError>)
    requires
        byte_len(url_serialization(*url)) + 3 * byte_len(request_path@) + 3 * opt_byte_len(query) + 8
            <= u32::MAX,
    ensures
        match api_target_path(request_path@) {
            Ok(p) => res matches Ok(f) && (url_text_fixed(*url) ==> url_serialization(f.url)
                == url_with_query(url_with_path(url_serialization(*url), p), opt_view(query))
                && url_text_fixed(f.url)) && f.forwarded_for == peer_ip,
            Err(e) => res matches Err(r) && r == e,
        },
{
    let path = match api_path(request_path) {
        Ok(path) => path,
        Err(e) => return Err(e),
    };
    proof {
        assert(request_path@ =~= request_path@.subrange(0, 4) + path@);
        lemma_byte_len_concat(request_path@.subrange(0, 4), path@);
    }
    let mut new_url = url_clone(url);
    url_set_path(&mut new_url, path);
    url_set_query(&mut new_url, query);
    Ok(ForwardRequest { url: new_url, forwarded_for: peer_ip })
}

/// Whether the URL, the request path and the query are small enough for
/// `forward_handler`: `url` panics once a serialization outgrows `u32`.
pub open spec fn forward_fits(url: Url, request_path: Seq<char>, query: Option<&str>) -> bool {
    byte_len(url_serialization(url)) + 3 * byte_len(request_path) + 3 * opt_byte_len(query) + 8
        <= u32::MAX
}

/// Decides as `forward_handler` does when the sizes fit, and gives `None`
/// when they do not.
pub fn checked_forward_handler(url: &Url, request_path: &str, query: Option<&str>, peer_ip: Option<String>) -> (res: Option<Result<ForwardRequest, ForwardError>>)
    ensures
        res is Some == forward_fits(*url, request_path@, query),
        res matches Some(r) ==> match api_target_path(request_path@) {
            Ok(p) => r matches Ok(f) && (url_text_fixed(*url) ==> url_serialization(f.url)
                == url_with_query(url_with_path(url_serialization(*url), p), opt_view(query))
                && url_text_fixed(f.url)) && f.forwarded_for == peer_ip,
            Err(e) => r matches Err(x) && x == e,
        },
{
    let base_text = url_as_str(url);
    let base = base_text.as_bytes().len() as u128;
    let path = request_path.as_bytes().len() as u128;
    let query_len: u128 = match query {
        Some(q) => q.as_bytes().len() as u128,
        None => 0,
    };
    if base + 3 * path + 3 * query_len + 8 <= 0xFFFF_FFFF {
        Some(forward_handler(url, request_path, query, peer_ip))
    } else {
        None
    }
}

/// A header of the API server's response: its name and value bytes.
pub struct Header {
    pub name: String,
    pub value: Vec<u8>,
}

impl View for Header {
    type V = (Seq<char>, Seq<u8>);

    open spec fn view(&self) -> (Seq<char>, Seq<u8>) {
        (self.name@, self.value@)
    }
}

/// An ASCII byte in lower case.
pub open spec fn ascii_lower(b: u8) -> u8 {
    if 65 <= b <= 90 {
        (b + 32) as u8
    } else {
        b
    }
}

/// The bytes of "connection".
pub open spec fn connection_bytes() -> Seq<u8> {
    seq![99u8, 111u8, 110u8, 110u8, 101u8, 99u8, 116u8, 105u8, 111u8, 110u8]
}

/// Whether a header name is "connection", ignoring ASCII case.
pub open spec fn is_connection_header(name: Seq<char>) -> bool {
    let bytes = vstd::utf8::encode_utf8(name);
    bytes.len() == 10 && forall|i: int| 0 <= i < 10 ==> ascii_lower(#[trigger] bytes[i]) == connection_bytes()[i]
}

/// The headers passed back to the client: all but "connection", in order.
pub open spec fn passed_headers(headers: Seq<(Seq<char>, Seq<u8>)>) -> Seq<(Seq<char>, Seq<u8>)>
    decreases headers.len(),
{
    if headers.len() == 0 {
        seq![]
    } else {
        let rest = passed_headers(headers.drop_last());
        if is_connection_header(headers.last().0) {
            rest
        } else {
            rest.push(headers.last())
        }
    }
}

/// Whether a header name is "connection", ignoring ASCII case.
pub fn connection_header(name: &str) -> (res: bool)
    ensures
        res == is_connection_header(name@),
        res == ({
            let b = name.spec_bytes();
            let lower = seq![99u8, 111u8, 110u8, 110u8, 101u8, 99u8, 116u8, 105u8, 111u8, 110u8];
            let upper = seq![67u8, 79u8, 78u8, 78u8, 69u8, 67u8, 84u8, 73u8, 79u8, 78u8];
            b.len() == 10 && forall|i: int| 0 <= i < 10 ==> (b[i] == lower[i] || b[i] == upper[i])
        }),
{
    proof {
        lemma_connection_header_spelling(name@);
    }
    let bytes = name.as_bytes();
    if bytes.len() != 10 {
        return false;
    }
    let expected: [u8; 10] = [99, 111, 110, 110, 101, 99, 116, 105, 111, 110];
    assert(expected@ =~= connection_bytes());
    let mut i: usize = 0;
    while i < 10
        invariant
            bytes@ == vstd::utf8::encode_utf8(name@),
            bytes@.len() == 10,
            expected@ == connection_bytes(),
            i <= 10,
            forall|j: int| 0 <= j < i ==> ascii_lower(#[trigger] bytes@[j]) == connection_bytes()[j],
        decreases 10 - i,
    {
        let b = bytes[i];
        let lower = if 65 <= b && b <= 90 {
            b + 32
        } else {
            b
        };
        if lower != expected[i] {
            return false;
        }
        i = i + 1;
    }
    true
}

/// The response headers to pass back to the client: all but "connection",
/// in their order.
pub fn response_headers(headers: Vec<Header>) -> (res: Vec<Header>)
    ensures
        res@.map_values(|h: Header| h@) == passed_headers(headers@.map_values(|h: Header| h@)),
        res@.map_values(|h: Header| h@) == headers@.map_values(|h: Header| h@).filter(
            |h: (Seq<char>, Seq<u8>)| !is_connection_header(h.0),
        ),
{
    let ghost all = headers@.map_values(|h: Header| h@);
    let mut kept: Vec<Header> = Vec::new();
    let n = headers.len();
    let mut i: usize = 0;
    while i < n
        invariant
            n == headers.len(),
            headers@.map_values(|h: Header| h@) == all,
            i <= n,
            kept@.map_values(|h: Header| h@) == passed_headers(all.take(i as int)),
        decreases n - i,
    {
        let h = &headers[i];
        let pass = !connection_header(h.name.as_str());
        assert(all.take(i + 1).drop_last() =~= all.take(i as int));
        assert(all.take(i + 1).last() == h@);
        if pass {
            let copy = Header { name: h.name.clone(), value: h.value.clone() };
            kept.push(copy);
            assert(kept@.map_values(|h: Header| h@) =~= passed_headers(all.take(i as int)).push(h@));
        }
        i = i + 1;
    }
    assert(all.take(n as int) =~= all);
    proof {
        lemma_passed_headers_filter(all);
    }
    kept
}

/// No "connection" header is passed back, and passing the headers back a
/// second time changes nothing.
pub proof fn lemma_passed_headers_clean(headers: Seq<(Seq<char>, Seq<u8>)>)
    ensures
        forall|i: int| 0 <= i < passed_headers(headers).len() ==> !is_connection_header(
            #[trigger] passed_headers(headers)[i].0,
        ),
        passed_headers(passed_headers(headers)) == passed_headers(headers),
    decreases headers.len(),
{
    if headers.len() > 0 {
        let rest = headers.drop_last();
        lemma_passed_headers_clean(rest);
        if !is_connection_header(headers.last().0) {
            let kept = passed_headers(rest).push(headers.last());
            assert(kept.drop_last() =~= passed_headers(rest));
            assert(kept.last() == headers.last());
        }
    }
}

/// A header name is "connection" exactly when its bytes spell "connection"
/// with each letter in lower or upper case: ten bytes, nothing else.
pub proof fn lemma_connection_header_spelling(name: Seq<char>)
    ensures
        is_connection_header(name) <==> ({
            let b = vstd::utf8::encode_utf8(name);
            let lower = seq![99u8, 111u8, 110u8, 110u8, 101u8, 99u8, 116u8, 105u8, 111u8, 110u8];
            let upper = seq![67u8, 79u8, 78u8, 78u8, 69u8, 67u8, 84u8, 73u8, 79u8, 78u8];
            b.len() == 10 && forall|i: int| 0 <= i < 10 ==> (b[i] == lower[i] || b[i] == upper[i])
        }),
{
    let b = vstd::utf8::encode_utf8(name);
    let lower = seq![99u8, 111u8, 110u8, 110u8, 101u8, 99u8, 116u8, 105u8, 111u8, 110u8];
    let upper = seq![67u8, 79u8, 78u8, 78u8, 69u8, 67u8, 84u8, 73u8, 79u8, 78u8];
    assert(lower =~= connection_bytes());
    assert forall|i: int| 0 <= i < 10 && b.len() == 10 implies (ascii_lower(b[i]) == connection_bytes()[i]
        <==> (b[i] == lower[i] || b[i] == upper[i])) by {
        assert(97 <= lower[i] <= 122);
        assert(upper[i] == lower[i] - 32);
    }
}

/// The headers passed back are exactly the response's headers but those
/// named "connection", in their order: none is dropped, added or moved.
pub proof fn lemma_passed_headers_filter(headers: Seq<(Seq<char>, Seq<u8>)>)
    ensures
        passed_headers(headers) == headers.filter(
            |h: (Seq<char>, Seq<u8>)| !is_connection_header(h.0),
        ),
        forall|i: int| 0 <= i < headers.len() && !is_connection_header(#[trigger] headers[i].0)
            ==> passed_headers(headers).contains(headers[i]),
        forall|j: int| 0 <= j < passed_headers(headers).len() ==> headers.contains(
            #[trigger] passed_headers(headers)[j],
        ),
    decreases headers.len(),
{
    let keep = |h: (Seq<char>, Seq<u8>)| !is_connection_header(h.0);
    reveal(Seq::filter);
    if headers.len() > 0 {
        let rest = headers.drop_last();
        lemma_passed_headers_filter(rest);
        assert(passed_headers(headers) == headers.filter(keep));
        assert forall|i: int| 0 <= i < headers.len() && !is_connection_header(#[trigger] headers[i].0)
            implies passed_headers(headers).contains(headers[i]) by {
            if i < headers.len() - 1 {
                assert(rest[i] == headers[i]);
                let k = choose|k: int| 0 <= k < passed_headers(rest).len() && passed_headers(rest)[k] == rest[i];
                if !is_connection_header(headers.last().0) {
                    assert(passed_headers(headers)[k] == passed_headers(rest)[k]);
                }
            } else {
                assert(passed_headers(headers).last() == headers[i]);
            }
        }
        assert forall|j: int| 0 <= j < passed_headers(headers).len() implies headers.contains(
            #[trigger] passed_headers(headers)[j],
        ) by {
            if j < passed_headers(rest).len() {
                assert(passed_headers(headers)[j] == passed_headers(rest)[j]);
                let k = choose|k: int| 0 <= k < rest.len() && rest[k] == passed_headers(rest)[j];
                assert(headers[k] == rest[k]);
            } else {
                assert(passed_headers(headers)[j] == headers.last());
                assert(headers[headers.len() - 1] == headers.last());
            }
        }
    }
}

} // verus!
