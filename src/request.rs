//! The request boundary: where the page title is read from, and the headers
//! of a served image.

use vstd::prelude::*;
use vstd::utf8::{decode_utf8, encode_utf8, valid_utf8};

use crate::b2::Error;
use crate::generation::{Generation, Stage};
use crate::http::{pair_views, push_pair};

verus! {

/// The name/value pairs of an `application/x-www-form-urlencoded` query,
/// decoded, in order; none when the query cannot be read as such pairs.
pub uninterp spec fn form_decoded(query: Seq<char>) -> Option<Seq<(Seq<char>, Seq<char>)>>;

/// Relies on `serde_urlencoded::from_str` into a vector of string pairs:
/// the decoded pairs of the query, a function of the text alone.
#[verifier::external_body]
fn form_pairs(query: &str) -> (r: Option<Vec<(String, String)>>)
    ensures
        r matches Some(v) ==> form_decoded(query@) == Some(pair_views(v@)),
        r is None ==> form_decoded(query@) is None,
{
    serde_urlencoded::from_str::<Vec<(String, String)>>(query).ok()
}

/// The value of an ASCII hexadecimal digit, either case.
pub open spec fn hex_value(b: u8) -> Option<u8> {
    if 48 <= b <= 57 {
        Some((b - 48) as u8)
    } else if 65 <= b <= 70 {
        Some((b - 55) as u8)
    } else if 97 <= b <= 102 {
        Some((b - 87) as u8)
    } else {
        None
    }
}

/// Percent-decoding of bytes: `%` followed by two hexadecimal digits
/// becomes the byte they spell; every other byte, a `%` that does not start
/// such a triple included, stays as it is. `+` stays `+`.
pub open spec fn percent_decode_bytes(d: Seq<u8>) -> Seq<u8>
    decreases d.len(),
{
    if d.len() == 0 {
        Seq::empty()
    } else if d[0] == 37 && d.len() >= 3 && hex_value(d[1]) is Some && hex_value(d[2]) is Some {
        seq![(hex_value(d[1]).unwrap() * 16 + hex_value(d[2]).unwrap()) as u8]
            + percent_decode_bytes(d.subrange(3, d.len() as int))
    } else {
        seq![d[0]] + percent_decode_bytes(d.drop_first())
    }
}

/// The text that percent-decoding the UTF-8 bytes of `s` gives, read as
/// UTF-8; none when the decoded bytes are not UTF-8.
pub open spec fn percent_decoded(s: Seq<char>) -> Option<Seq<char>> {
    let b = percent_decode_bytes(encode_utf8(s));
    if valid_utf8(b) {
        Some(decode_utf8(b))
    } else {
        None
    }
}

/// Relies on `urlencoding::decode`: the percent-decoded text, or its UTF-8
/// error.
#[verifier::external_body]
fn url_decode(s: &str) -> (r: Option<String>)
    ensures
        r matches Some(d) ==> percent_decoded(s@) == Some(d@),
        r is None ==> percent_decoded(s@) is None,
{
    match urlencoding::decode(s) {
        Ok(d) => Some(d.into_owned()),
        Err(_) => None,
    }
}

#[derive(Clone, Copy, Debug, PartialEq, Eq, Structural)]
pub enum RequestError {
    /// Neither the path nor the query names a page title.
    MissingPageTitle,
    /// Both the path and the query name a page title.
    BothPathAndQuery,
    /// The title does not decode to UTF-8 text.
    InvalidPath,
}

/// The name of the query parameter that carries the title.
pub open spec fn title_param() -> Seq<char> {
    seq!['p', 'a', 'g', 'e', '_', 't', 'i', 't', 'l', 'e']
}

/// The values of the title parameter among `pairs`, in order.
pub open spec fn title_values(pairs: Seq<(Seq<char>, Seq<char>)>) -> Seq<Seq<char>>
    decreases pairs.len(),
{
    if pairs.len() == 0 {
        Seq::empty()
    } else {
        let rest = title_values(pairs.drop_last());
        if pairs.last().0 == title_param() {
            rest.push(pairs.last().1)
        } else {
            rest
        }
    }
}

/// The title that a query names: the value of its one title parameter.
/// Other parameters are ignored; a repeated title parameter names none.
pub open spec fn query_title_of(query: Seq<char>) -> Option<Seq<char>> {
    match form_decoded(query) {
        Some(pairs) => if title_values(pairs).len() == 1 {
            Some(title_values(pairs)[0])
        } else {
            None
        },
        None => None,
    }
}

/// The title that a path names: what follows its leading `/`, if anything.
pub open spec fn path_title_of(path: Seq<char>) -> Option<Seq<char>> {
    if path.len() > 1 && path[0] == '/' {
        Some(path.subrange(1, path.len() as int))
    } else {
        None
    }
}

pub open spec fn spec_page_title(path: Seq<char>, query: Option<Seq<char>>) -> Result<Seq<char>, RequestError> {
    let from_query = match query {
        Some(q) => query_title_of(q),
        None => None,
    };
    match (path_title_of(path), from_query) {
        (Some(_), Some(_)) => Err(RequestError::BothPathAndQuery),
        (None, None) => Err(RequestError::MissingPageTitle),
        (Some(t), None) | (None, Some(t)) => match percent_decoded(t) {
            Some(d) => Ok(d),
            None => Err(RequestError::InvalidPath),
        },
    }
}

pub open spec fn query_view(query: Option<&str>) -> Option<Seq<char>> {
    match query {
        Some(q) => Some(q@),
        None => None,
    }
}

/// What follows the leading `/` of a request path, when that is not empty.
pub fn path_title(path: &str) -> (r: Option<String>)
    ensures
        r matches Some(t) ==> path_title_of(path@) == Some(t@),
        r is None ==> path_title_of(path@) is None,
{
    let n = path.unicode_len();
    if n > 1 && path.get_char(0) == '/' {
        Some(path.substring_char(1, n).to_owned())
    } else {
        None
    }
}

/// The value of the one title parameter of a query string.
pub fn query_title(query: &str) -> (r: Option<String>)
    ensures
        r matches Some(t) ==> query_title_of(query@) == Some(t@),
        r is None ==> query_title_of(query@) is None,
{
    let pairs = match form_pairs(query) {
        Some(p) => p,
        None => return None,
    };
    let name = "page_title";
    proof {
        reveal_strlit("page_title");
        assert(name@ =~= title_param());
    }
    let ghost views = pair_views(pairs@);
    let mut count: usize = 0;
    let mut found: Option<String> = None;
    let mut i: usize = 0;
    while i < pairs.len()
        invariant
            i <= pairs@.len(),
            views == pair_views(pairs@),
            name@ == title_param(),
            count as int == title_values(views.subrange(0, i as int)).len(),
            count <= i,
            count >= 1 ==> (found matches Some(f) && f@ == title_values(views.subrange(0, i as int))[0]),
        decreases pairs@.len() - i,
    {
        proof {
            let sub = views.subrange(0, i as int + 1);
            assert(sub.drop_last() =~= views.subrange(0, i as int));
            assert(sub.last() == views[i as int]);
        }
        if pairs[i].0 == name.to_owned() {
            if count == 0 {
                found = Some(pairs[i].1.clone());
            }
            count = count + 1;
        }
        i = i + 1;
    }
    assert(views.subrange(0, pairs@.len() as int) =~= views);
    if count == 1 {
        found
    } else {
        None
    }
}

/// The page title a request names, by its path or by its query, decoded.
pub fn page_title(path: &str, query: Option<&str>) -> (r: Result<String, RequestError>)
    ensures
        r matches Ok(t) ==> spec_page_title(path@, query_view(query)) == Ok::<Seq<char>, RequestError>(t@),
        r matches Err(e) ==> spec_page_title(path@, query_view(query)) == Err::<Seq<char>, RequestError>(e),
{
    let from_path = path_title(path);
    let from_query = match query {
        Some(q) => query_title(q),
        None => None,
    };
    let title = match (from_path, from_query) {
        (Some(_), Some(_)) => return Err(RequestError::BothPathAndQuery),
        (None, None) => return Err(RequestError::MissingPageTitle),
        (Some(t), None) => t,
        (None, Some(t)) => t,
    };
    match url_decode(title.as_str()) {
        Some(d) => Ok(d),
        None => Err(RequestError::InvalidPath),
    }
}

/// Both a path title and a query title, or neither, is a malformed request;
/// exactly one is accepted as far as its shape goes, and then fails only
/// when it does not decode.
pub proof fn request_shape(path: Seq<char>, query: Option<Seq<char>>)
    ensures
        ({
            let from_query = match query {
                Some(q) => query_title_of(q),
                None => None,
            };
            let r = spec_page_title(path, query);
            &&& (path_title_of(path) is Some && from_query is Some) ==> r == Err::<Seq<char>, RequestError>(RequestError::BothPathAndQuery)
            &&& (path_title_of(path) is None && from_query is None) ==> r == Err::<Seq<char>, RequestError>(RequestError::MissingPageTitle)
            &&& (path_title_of(path) is Some != from_query is Some) ==> (
                r is Ok || r == Err::<Seq<char>, RequestError>(RequestError::InvalidPath))
        }),
{
}

pub open spec fn spec_response_headers(etag: Seq<char>) -> Seq<(Seq<char>, Seq<char>)> {
    seq![
        ("Content-Type"@, "image/png"@),
        ("Cache-Control"@, "public, max-age=31536000"@),
        ("ETag"@, etag),
    ]
}

/// The headers of a served image: PNG, cacheable for a year, tagged with
/// its cache key.
pub fn response_headers(etag: &str) -> (r: Vec<(String, String)>)
    ensures
        pair_views(r@) == spec_response_headers(etag@),
{
    let mut headers: Vec<(String, String)> = Vec::new();
    push_pair(&mut headers, "Content-Type", "image/png");
    push_pair(&mut headers, "Cache-Control", "public, max-age=31536000");
    push_pair(&mut headers, "ETag", etag);
    assert(pair_views(headers@) =~= spec_response_headers(etag@));
    headers
}

/// The origin pattern that cross-origin requests may come from.
pub fn allowed_origin(is_prod: bool) -> (r: &'static str)
    ensures
        is_prod ==> r@ == "https://*.chriskrycho.com"@,
        !is_prod ==> r@ == "http://localhost:*"@,
{
    if is_prod {
        "https://*.chriskrycho.com"
    } else {
        "http://localhost:*"
    }
}

#[derive(Debug)]
pub struct ImageResponse {
    pub headers: Vec<(String, String)>,
    pub body: Vec<u8>,
}

impl Generation {
    /// The response once the generation has finished: the image with its
    /// headers, or the error that ended it. None before that.
    pub fn into_response(self) -> (r: Option<Result<ImageResponse, Error>>)
        ensures
            self.stage matches Stage::Finished(Ok(b)) ==> (r matches Some(Ok(resp))
                && resp.body == b && pair_views(resp.headers@) == spec_response_headers(self.key@)),
            self.stage matches Stage::Finished(Err(e)) ==> r == Some(Err::<ImageResponse, Error>(e)),
            !(self.stage is Finished) ==> r is None,
    {
        match self.stage {
            Stage::Finished(Ok(body)) => Some(Ok(ImageResponse { headers: response_headers(self.key.as_str()), body })),
            Stage::Finished(Err(e)) => Some(Err(e)),
            _ => None,
        }
    }
}

/// A successful response is tagged with the cache key and carries the
/// year-long public cache policy.
pub proof fn response_tagged_with_key(build: Seq<char>, title: Seq<char>)
    ensures
        spec_response_headers(crate::key::key_for(build, title)).contains(("ETag"@, crate::key::key_for(build, title))),
        spec_response_headers(crate::key::key_for(build, title)).contains(("Cache-Control"@, "public, max-age=31536000"@)),
{
    let h = spec_response_headers(crate::key::key_for(build, title));
    assert(h[2] == ("ETag"@, crate::key::key_for(build, title)));
    assert(h[1] == ("Cache-Control"@, "public, max-age=31536000"@));
}

} // verus!
