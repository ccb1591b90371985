//! Passing requests on to other servers.

use vstd::prelude::*;

use crate::error::Error;
use crate::http::HeaderText;
use crate::text::{
    eq_ignore_ascii_case, first_char, is_word, join, last_char, push_text, spec_ascii_lowercase,
    spec_join, spec_split, spec_strip_end, spec_trim, spec_views, split_char, strip_end, trim,
};

verus! {

/// The segment with its control characters and everything beyond ASCII
/// written as percent escapes, as `percent_encoding::utf8_percent_encode`
/// writes it for the set `CONTROLS`.
pub uninterp spec fn spec_percent_encode(segment: Seq<char>) -> Seq<char>;

/// Calls `percent_encoding::utf8_percent_encode` with the set `CONTROLS` and
/// collects what it yields. The result depends on the segment alone and is
/// what [`spec_percent_encode`] names.
#[verifier::external_body]
fn percent_encode(segment: &str) -> (out: String)
    ensures
        out@ == spec_percent_encode(segment@),
{
    percent_encoding::utf8_percent_encode(segment, percent_encoding::CONTROLS).to_string()
}

/// Calls `fastrand::usize` for a number below `len`. Which one comes out is
/// left open.
#[verifier::external_body]
fn random_below(len: usize) -> (index: usize)
    requires
        len > 0,
    ensures
        index < len,
{
    fastrand::usize(..len)
}

/// Every segment of `segments`, percent-encoded.
pub open spec fn spec_encode_all(segments: Seq<Seq<char>>) -> Seq<Seq<char>> {
    Seq::new(segments.len(), |i: int| spec_percent_encode(segments[i]))
}

/// The path with each of its segments percent-encoded. The slashes stay.
pub open spec fn spec_encode_url_path(path: Seq<char>) -> Seq<char> {
    spec_join(spec_encode_all(spec_split(path, '/')), "/"@)
}

/// Percent-encodes each segment of the path. The slashes stay.
pub fn encode_url_path(path: &str) -> (encoded: String)
    ensures
        encoded@ == spec_encode_url_path(path@),
{
    let segments = split_char(path, '/');
    let mut encoded: Vec<String> = Vec::new();
    let mut i: usize = 0;
    while i < segments.len()
        invariant
            i <= segments.len(),
            encoded@.len() == i,
            forall|j: int| 0 <= j < i ==> (#[trigger] encoded@[j])@ == spec_percent_encode(segments@[j]@),
        decreases segments.len() - i,
    {
        encoded.push(percent_encode(segments[i].as_str()));
        i += 1;
    }
    assert(spec_views(encoded@) =~= spec_encode_all(spec_views(segments@)));
    join(&encoded, "/")
}

/// Chooses the server to which a request is passed on.
pub trait Upstreams {
    /// The servers to choose from.
    spec fn spec_candidates(&self) -> Seq<Seq<char>>;

    /// Chooses a server. Where there is none to choose from, that is an error.
    fn elect(&self) -> (elected: Result<&str, Error>)
        ensures
            match elected {
                Ok(upstream) => self.spec_candidates().contains(upstream@),
                Err(error) => self.spec_candidates().len() == 0 && error.spec_message()
                    == "upstreams is empty"@,
            },
    ;
}

impl Upstreams for &'static str {
    open spec fn spec_candidates(&self) -> Seq<Seq<char>> {
        seq![self@]
    }

    fn elect(&self) -> (elected: Result<&str, Error>) {
        assert(seq![self@][0] == self@);
        Ok(*self)
    }
}

impl Upstreams for String {
    open spec fn spec_candidates(&self) -> Seq<Seq<char>> {
        seq![self@]
    }

    fn elect(&self) -> (elected: Result<&str, Error>) {
        assert(seq![self@][0] == self@);
        Ok(self.as_str())
    }
}

impl<const N: usize> Upstreams for [&'static str; N] {
    open spec fn spec_candidates(&self) -> Seq<Seq<char>> {
        Seq::new(self@.len(), |i: int| self@[i]@)
    }

    fn elect(&self) -> (elected: Result<&str, Error>) {
        if N == 0 {
            return Err(Error::other("upstreams is empty"));
        }
        let index = random_below(N);
        assert(self.spec_candidates()[index as int] == self@[index as int]@);
        Ok(self[index])
    }
}

impl Upstreams for Vec<String> {
    open spec fn spec_candidates(&self) -> Seq<Seq<char>> {
        spec_views(self@)
    }

    fn elect(&self) -> (elected: Result<&str, Error>) {
        if self.len() == 0 {
            return Err(Error::other("upstreams is empty"));
        }
        let index = random_below(self.len());
        assert(spec_views(self@)[index as int] == self@[index as int]@);
        Ok(self[index].as_str())
    }
}

/// What follows the upstream in the URL that a request is passed on to:
/// the path, and the query after a `?`, which is added unless the query
/// brings its own.
pub open spec fn spec_rest(path: Seq<char>, query: Option<Seq<char>>) -> Seq<char> {
    match query {
        Some(text) => if text.len() > 0 && text[0] == '?' {
            path + text
        } else {
            path + "?"@ + text
        },
        None => path,
    }
}

/// The URL that a request is passed on to: the upstream and the rest, with
/// exactly one slash between them unless the rest is empty.
pub open spec fn spec_forward_url(upstream: Seq<char>, rest: Seq<char>) -> Seq<char> {
    let ends = upstream.len() > 0 && upstream.last() == '/';
    let starts = rest.len() > 0 && rest[0] == '/';
    if ends && starts {
        spec_strip_end(upstream, '/') + rest
    } else if ends || starts {
        upstream + rest
    } else if rest.len() == 0 {
        upstream
    } else {
        upstream + "/"@ + rest
    }
}

/// What follows the upstream in the URL that a request is passed on to.
pub fn rest_of_url(path: &str, query: Option<&str>) -> (rest: String)
    ensures
        rest@ == spec_rest(
            path@,
            match query {
                Some(text) => Some(text@),
                None => None,
            },
        ),
{
    let mut rest = String::new();
    push_text(&mut rest, path);
    match query {
        Some(text) => {
            let with_mark = match first_char(text) {
                Some(c) => c == '?',
                None => false,
            };
            if !with_mark {
                push_text(&mut rest, "?");
            }
            push_text(&mut rest, text);
            proof {
                reveal_strlit("?");
                assert(rest@ =~= spec_rest(path@, Some(text@)));
            }
        },
        None => {
            assert(rest@ =~= path@);
        },
    }
    rest
}

/// Joins the upstream and the rest into the URL that a request is passed on to.
pub fn join_forward_url(upstream: &str, rest: &str) -> (url: String)
    ensures
        url@ == spec_forward_url(upstream@, rest@),
{
    let ends = match last_char(upstream) {
        Some(c) => c == '/',
        None => false,
    };
    let starts = match first_char(rest) {
        Some(c) => c == '/',
        None => false,
    };
    let mut url = String::new();
    if ends && starts {
        url = strip_end(upstream, '/');
        push_text(&mut url, rest);
    } else if ends || starts {
        push_text(&mut url, upstream);
        push_text(&mut url, rest);
    } else if rest.unicode_len() == 0 {
        push_text(&mut url, upstream);
    } else {
        push_text(&mut url, upstream);
        push_text(&mut url, "/");
        push_text(&mut url, rest);
    }
    assert(url@ =~= spec_forward_url(upstream@, rest@));
    url
}

/// The URL that a request is passed on to, given the upstream that was
/// elected, the path that is asked for and the query. An upstream without a
/// name is an error.
pub fn forward_url(upstream: &str, path: Option<&str>, query: Option<&str>) -> (url: Result<
    String,
    Error,
>)
    ensures
        match url {
            Ok(text) => upstream@.len() > 0 && text@ == spec_forward_url(
                upstream@,
                spec_rest(
                    spec_encode_url_path(
                        match path {
                            Some(asked) => asked@,
                            None => Seq::empty(),
                        },
                    ),
                    match query {
                        Some(text) => Some(text@),
                        None => None,
                    },
                ),
            ),
            Err(error) => upstream@.len() == 0 && error.spec_message() == "upstreams is empty"@,
        },
{
    if upstream.unicode_len() == 0 {
        return Err(Error::other("upstreams is empty"));
    }
    let encoded = match path {
        Some(asked) => encode_url_path(asked),
        None => {
            proof {
                reveal_strlit("");
            }
            encode_url_path("")
        },
    };
    let rest = rest_of_url(encoded.as_str(), query);
    Ok(join_forward_url(upstream, rest.as_str()))
}

/// The path that is asked of the upstream: what the wildcard of the route
/// has caught, percent-encoded.
pub fn default_url_path_getter(caught: Option<&str>) -> (path: Option<String>)
    ensures
        match (caught, path) {
            (Some(rest), Some(encoded)) => encoded@ == spec_encode_url_path(rest@),
            (None, None) => true,
            _ => false,
        },
{
    match caught {
        Some(rest) => Some(encode_url_path(rest)),
        None => None,
    }
}

/// The query that is asked of the upstream: that of the request.
pub fn default_url_query_getter(query: Option<&str>) -> (passed: Option<String>)
    ensures
        match (query, passed) {
            (Some(text), Some(copy)) => copy@ == text@,
            (None, None) => true,
            _ => false,
        },
{
    match query {
        Some(text) => Some(text.to_owned()),
        None => None,
    }
}

/// Whether one of the tokens of a `Connection` value is `upgrade`, in any case.
pub open spec fn spec_asks_upgrade(connection: Seq<char>) -> bool {
    exists|i: int|
        0 <= i < spec_split(connection, ',').len() && spec_ascii_lowercase(
            spec_trim(#[trigger] spec_split(connection, ',')[i]),
        ) == spec_ascii_lowercase("upgrade"@)
}

/// Whether one of the tokens of a `Connection` value is `upgrade`, in any case.
pub fn asks_upgrade(connection: &str) -> (asks: bool)
    ensures
        asks == spec_asks_upgrade(connection@),
{
    let tokens = split_char(connection, ',');
    let mut i: usize = 0;
    while i < tokens.len()
        invariant
            i <= tokens.len(),
            spec_views(tokens@) == spec_split(connection@, ','),
            forall|j: int|
                0 <= j < i ==> spec_ascii_lowercase(
                    spec_trim(#[trigger] spec_split(connection@, ',')[j]),
                ) != spec_ascii_lowercase("upgrade"@),
        decreases tokens.len() - i,
    {
        assert(spec_views(tokens@)[i as int] == tokens@[i as int]@);
        let token = trim(tokens[i].as_str());
        if eq_ignore_ascii_case(token.as_str(), "upgrade") {
            return true;
        }
        i += 1;
    }
    assert(spec_views(tokens@).len() == tokens@.len());
    false
}

/// The protocol that a request asks to switch to: the value of `Upgrade`,
/// where `Connection` has the token `upgrade` and `Upgrade` is text.
pub fn get_upgrade_type<'a>(connection: &HeaderText, upgrade: &'a HeaderText) -> (protocol: Option<
    &'a str,
>)
    ensures
        match protocol {
            Some(name) => {
                &&& connection matches HeaderText::Text(value) && spec_asks_upgrade(value@)
                &&& upgrade matches HeaderText::Text(text) && text@ == name@
            },
            None => !(connection matches HeaderText::Text(value) && spec_asks_upgrade(value@))
                || !(upgrade is Text),
        },
{
    let asks = match connection {
        HeaderText::Text(value) => asks_upgrade(value.as_str()),
        _ => false,
    };
    if asks {
        match upgrade {
            HeaderText::Text(text) => Some(text.as_str()),
            _ => None,
        }
    } else {
        None
    }
}

/// `headers` without those named `host`, in their order.
pub open spec fn spec_without_host(headers: Seq<(Seq<char>, Seq<char>)>) -> Seq<
    (Seq<char>, Seq<char>),
>
    decreases headers.len(),
{
    if headers.len() == 0 {
        Seq::empty()
    } else if headers.last().0 == "host"@ {
        spec_without_host(headers.drop_last())
    } else {
        spec_without_host(headers.drop_last()).push(headers.last())
    }
}

/// The headers of the request that is passed on: those of the request that
/// came in, but for `host`, and after them `host` with the host of the
/// upstream, where that is known.
pub open spec fn spec_proxied_headers(
    headers: Seq<(Seq<char>, Seq<char>)>,
    host: Option<Seq<char>>,
) -> Seq<(Seq<char>, Seq<char>)> {
    match host {
        Some(name) => spec_without_host(headers).push(("host"@, name)),
        None => spec_without_host(headers),
    }
}

/// The names and values of `headers`.
pub open spec fn spec_pairs(headers: Seq<(String, String)>) -> Seq<(Seq<char>, Seq<char>)> {
    Seq::new(headers.len(), |i: int| (headers[i].0@, headers[i].1@))
}

/// The headers of the request that is passed on to an upstream at `host`.
/// The names of `headers` are in lower case.
pub fn proxied_headers(headers: &Vec<(String, String)>, host: Option<&str>) -> (passed: Vec<
    (String, String),
>)
    ensures
        spec_pairs(passed@) == spec_proxied_headers(
            spec_pairs(headers@),
            match host {
                Some(name) => Some(name@),
                None => None,
            },
        ),
{
    let ghost all = spec_pairs(headers@);
    let mut passed: Vec<(String, String)> = Vec::new();
    let mut i: usize = 0;
    assert(all.take(0) =~= Seq::empty());
    assert(spec_pairs(passed@) =~= Seq::empty());
    while i < headers.len()
        invariant
            i <= headers.len(),
            all == spec_pairs(headers@),
            spec_pairs(passed@) == spec_without_host(all.take(i as int)),
        decreases headers.len() - i,
    {
        let ghost before = spec_pairs(passed@);
        proof {
            assert(all.take(i + 1).drop_last() =~= all.take(i as int));
            assert(all.take(i + 1).last() == all[i as int]);
        }
        if !is_word(headers[i].0.as_str(), "host") {
            passed.push((headers[i].0.clone(), headers[i].1.clone()));
            assert(spec_pairs(passed@) =~= before.push(all[i as int]));
        }
        i += 1;
    }
    assert(all.take(headers@.len() as int) =~= all);
    let ghost kept = spec_pairs(passed@);
    if let Some(name) = host {
        passed.push(("host".to_owned(), name.to_owned()));
        assert(spec_pairs(passed@) =~= kept.push(("host"@, name@)));
    }
    passed
}

} // verus!
