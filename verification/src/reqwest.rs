//! The decisions the HTTP transport makes before a request leaves: which
//! token header it carries, and which URL it goes to.
//!
//! The transport itself (the `reqwest` client, the secret token store and
//! the network exchange) lives outside this crate's verified part; it hands
//! the exposed token, the configured base URL and the endpoint path to
//! [`prepare_request`] and sends what comes back.

use vstd::prelude::*;
use vstd::string::*;

verus! {

/// The production base URL of the Lettermint API.
pub const LETTERMINT_API_URL: &'static str = "https://api.lettermint.co/v1";

/// The `User-Agent` header value that the default transport sends.
pub const USER_AGENT: &'static str = "Lettermint/0.3.0 (Rust)";

/// The default transport's request timeout, in seconds.
pub const DEFAULT_TIMEOUT_SECS: u64 = 30;

/// Name of the header that carries the API token.
pub const TOKEN_HEADER: &'static str = "x-lettermint-token";

#[verifier::external_type_specification]
#[verifier::external_body]
pub struct ExHeaderValue(http::HeaderValue);

#[verifier::external_type_specification]
#[verifier::external_body]
pub struct ExInvalidHeaderValue(http::header::InvalidHeaderValue);

#[verifier::external_type_specification]
#[verifier::external_body]
pub struct ExUri(http::Uri);

#[verifier::external_type_specification]
#[verifier::external_body]
pub struct ExInvalidUri(http::uri::InvalidUri);

/// Whether `c` may stand in an HTTP header value: any character but the
/// ASCII control characters, of which only the horizontal tab is allowed.
pub open spec fn is_header_value_char(c: char) -> bool {
    (c as int >= 32 && c as int != 127) || c == '\t'
}

/// Whether every character of `s` may stand in an HTTP header value.
pub open spec fn is_valid_header_value(s: Seq<char>) -> bool {
    forall|i: int| 0 <= i < s.len() ==> is_header_value_char(#[trigger] s[i])
}

/// What `http`'s `FromStr for Uri` makes of the text `s`: the parsed URI,
/// or the error that refuses it.
pub uninterp spec fn parsed_uri(s: Seq<char>) -> Result<http::Uri, http::uri::InvalidUri>;

/// Whether `http::Uri` accepts the text `s` as a URI.
pub open spec fn uri_parses(s: Seq<char>) -> bool {
    parsed_uri(s) is Ok
}

/// The header value that `http`'s `HeaderValue::try_from(&str)` makes of
/// the text `s` where it accepts it.
pub uninterp spec fn header_value_of(s: Seq<char>) -> http::HeaderValue;

/// `s` without its trailing `'/'` characters.
pub open spec fn trim_end_slashes(s: Seq<char>) -> Seq<char>
    decreases s.len(),
{
    if s.len() > 0 && s.last() == '/' {
        trim_end_slashes(s.drop_last())
    } else {
        s
    }
}

/// `s` without its leading `'/'` characters.
pub open spec fn trim_start_slashes(s: Seq<char>) -> Seq<char>
    decreases s.len(),
{
    if s.len() > 0 && s[0] == '/' {
        trim_start_slashes(s.drop_first())
    } else {
        s
    }
}

/// The URL of endpoint `path` under `base`: both joined by exactly one `'/'`.
pub open spec fn spec_join_url(base: Seq<char>, path: Seq<char>) -> Seq<char> {
    trim_end_slashes(base) + seq!['/'] + trim_start_slashes(path)
}

/// `trim_end_slashes(s)` is `s` with exactly its trailing run of `'/'`
/// removed: a prefix of `s` that does not end in `'/'`, followed in `s` by
/// nothing but `'/'`.
pub proof fn lemma_trim_end_slashes_shape(s: Seq<char>)
    ensures
        trim_end_slashes(s).len() <= s.len(),
        trim_end_slashes(s) == s.subrange(0, trim_end_slashes(s).len() as int),
        trim_end_slashes(s).len() > 0 ==> trim_end_slashes(s).last() != '/',
        forall|i: int| trim_end_slashes(s).len() <= i < s.len() ==> s[i] == '/',
    decreases s.len(),
{
    if s.len() > 0 && s.last() == '/' {
        lemma_trim_end_slashes_shape(s.drop_last());
        let t = trim_end_slashes(s.drop_last());
        assert(s.drop_last().subrange(0, t.len() as int) =~= s.subrange(0, t.len() as int));
        assert forall|i: int| t.len() <= i < s.len() implies s[i] == '/' by {
            if i < s.len() - 1 {
                assert(s[i] == s.drop_last()[i]);
            }
        }
    } else {
        assert(s.subrange(0, s.len() as int) =~= s);
    }
}

/// `trim_start_slashes(s)` is `s` with exactly its leading run of `'/'`
/// removed: a suffix of `s` that does not start with `'/'`, preceded in `s`
/// by nothing but `'/'`.
pub proof fn lemma_trim_start_slashes_shape(s: Seq<char>)
    ensures
        trim_start_slashes(s).len() <= s.len(),
        trim_start_slashes(s) == s.subrange(
            s.len() - trim_start_slashes(s).len(),
            s.len() as int,
        ),
        trim_start_slashes(s).len() > 0 ==> trim_start_slashes(s)[0] != '/',
        forall|i: int| 0 <= i < s.len() - trim_start_slashes(s).len() ==> s[i] == '/',
    decreases s.len(),
{
    if s.len() > 0 && s[0] == '/' {
        lemma_trim_start_slashes_shape(s.drop_first());
        let t = trim_start_slashes(s.drop_first());
        assert(s.drop_first().subrange(s.len() - 1 - t.len(), s.len() - 1) =~= s.subrange(
            s.len() - t.len(),
            s.len() as int,
        ));
        assert forall|i: int| 0 <= i < s.len() - t.len() implies s[i] == '/' by {
            if i > 0 {
                assert(s[i] == s.drop_first()[i - 1]);
            }
        }
    } else {
        assert(s.subrange(0, s.len() as int) =~= s);
    }
}

/// A base URL with or without a trailing `'/'` leads to the same URL.
pub proof fn lemma_join_url_ignores_trailing_slash(base: Seq<char>, path: Seq<char>)
    ensures
        spec_join_url(base.push('/'), path) == spec_join_url(base, path),
{
    assert(base.push('/').drop_last() =~= base);
}

/// An endpoint path with or without a leading `'/'` leads to the same URL.
pub proof fn lemma_join_url_ignores_leading_slash(base: Seq<char>, path: Seq<char>)
    ensures
        spec_join_url(base, seq!['/'] + path) == spec_join_url(base, path),
{
    assert((seq!['/'] + path).drop_first() =~= path);
}

/// Where the base URL does not end in `'/'` and the path does not start with
/// one, the URL is the base, one `'/'`, and the path, unchanged.
pub proof fn lemma_join_url_plain(base: Seq<char>, path: Seq<char>)
    requires
        base.len() > 0 ==> base.last() != '/',
        path.len() > 0 ==> path[0] != '/',
    ensures
        spec_join_url(base, path) == base + seq!['/'] + path,
{
}

/// The URL holds exactly one `'/'` where base and path meet: the base's text
/// up to its trailing slashes, then one `'/'`, then the path's text after its
/// leading slashes, and neither side of that `'/'` is another `'/'`.
pub proof fn lemma_join_url_single_separator(base: Seq<char>, path: Seq<char>)
    ensures
        ({
            let url = spec_join_url(base, path);
            let b = trim_end_slashes(base);
            let p = trim_start_slashes(path);
            &&& url.len() == b.len() + 1 + p.len()
            &&& url.subrange(0, b.len() as int) == base.subrange(0, b.len() as int)
            &&& url[b.len() as int] == '/'
            &&& url.subrange(b.len() + 1int, url.len() as int) == path.subrange(
                path.len() - p.len(),
                path.len() as int,
            )
            &&& b.len() > 0 ==> url[b.len() - 1] != '/'
            &&& p.len() > 0 ==> url[b.len() + 1int] != '/'
        }),
{
    lemma_trim_end_slashes_shape(base);
    lemma_trim_start_slashes_shape(path);
    let url = spec_join_url(base, path);
    let b = trim_end_slashes(base);
    let p = trim_start_slashes(path);
    assert(url.subrange(0, b.len() as int) =~= b);
    assert(url.subrange(b.len() + 1int, url.len() as int) =~= p);
    if b.len() > 0 {
        assert(url[b.len() - 1] == b[b.len() - 1]);
    }
    if p.len() > 0 {
        assert(url[b.len() + 1int] == p[0]);
    }
}

/// Converts the token text into a header value with `http`'s
/// `HeaderValue::try_from(&str)`, which the `http` source shows to succeed
/// exactly when every byte of the text is a tab or at least 32 and not 127;
/// in characters, exactly when `is_valid_header_value` holds. The value it
/// makes is named `header_value_of`: it depends on the text alone.
#[verifier::external_body]
fn header_value_from_str(s: &str) -> (res: Result<http::HeaderValue, http::header::InvalidHeaderValue>)
    ensures
        res is Ok <==> is_valid_header_value(s@),
        res matches Ok(v) ==> v == header_value_of(s@),
{
    http::HeaderValue::try_from(s)
}

/// Parses a URI with `http`'s `FromStr for Uri`. Its outcome is named
/// `parsed_uri`: the grammar that decides it is `http`'s own, and the outcome
/// depends on the text alone.
#[verifier::external_body]
fn parse_uri(s: &str) -> (res: Result<http::Uri, http::uri::InvalidUri>)
    ensures
        res == parsed_uri(s@),
{
    s.parse::<http::Uri>()
}

/// What keeps a request from being prepared.
#[derive(Debug)]
pub enum RequestSetupError {
    /// The API token cannot stand in an HTTP header.
    AuthError { source: http::header::InvalidHeaderValue },
    /// The joined URL is not a URI.
    InvalidUri { source: http::uri::InvalidUri },
}

/// Everything the transport puts into a request before sending it.
#[derive(Debug)]
pub struct PreparedRequest {
    /// The value of the `TOKEN_HEADER` header.
    pub token_header: http::HeaderValue,
    /// The full URL, as text.
    pub url: String,
    /// The full URL, parsed.
    pub uri: http::Uri,
}

/// `s` without its trailing `'/'` characters.
pub fn trim_trailing_slashes(s: &str) -> (res: &str)
    ensures
        res@ == trim_end_slashes(s@),
{
    let len = s.unicode_len();
    let mut end: usize = len;
    proof {
        assert(s@.subrange(0, len as int) =~= s@);
    }
    loop
        invariant
            len == s@.len(),
            end <= len,
            trim_end_slashes(s@.subrange(0, end as int)) == trim_end_slashes(s@),
        ensures
            s@.subrange(0, end as int) == trim_end_slashes(s@),
        decreases end,
    {
        if end == 0 || s.get_char(end - 1) != '/' {
            break;
        }
        proof {
            assert(s@.subrange(0, end as int).drop_last() =~= s@.subrange(0, end - 1));
        }
        end = end - 1;
    }
    s.substring_char(0, end)
}

/// `s` without its leading `'/'` characters.
pub fn trim_leading_slashes(s: &str) -> (res: &str)
    ensures
        res@ == trim_start_slashes(s@),
{
    let len = s.unicode_len();
    let mut start: usize = 0;
    proof {
        assert(s@.subrange(0, len as int) =~= s@);
    }
    loop
        invariant
            len == s@.len(),
            start <= len,
            trim_start_slashes(s@.subrange(start as int, len as int)) == trim_start_slashes(s@),
        ensures
            s@.subrange(start as int, len as int) == trim_start_slashes(s@),
        decreases len - start,
    {
        if start == len || s.get_char(start) != '/' {
            break;
        }
        proof {
            assert(s@.subrange(start as int, len as int).drop_first() =~= s@.subrange(
                start + 1,
                len as int,
            ));
        }
        start = start + 1;
    }
    s.substring_char(start, len)
}

/// The URL of endpoint `path` under `base`: `base` without its trailing
/// slashes, one `'/'`, and `path` without its leading slashes.
pub fn join_url(base: &str, path: &str) -> (url: String)
    ensures
        url@ == spec_join_url(base@, path@),
{
    let base_part = trim_trailing_slashes(base);
    let path_part = trim_leading_slashes(path);
    let mut url = String::from_str(base_part);
    proof {
        reveal_strlit("/");
    }
    url.append("/");
    url.append(path_part);
    url
}

/// Assembles a prepared request from an accepted token header, the URL and
/// the outcome of parsing that URL.
pub fn assemble_request(
    token_header: http::HeaderValue,
    url: String,
    uri: Result<http::Uri, http::uri::InvalidUri>,
) -> (res: Result<PreparedRequest, RequestSetupError>)
    ensures
        uri is Ok <==> res is Ok,
        res matches Ok(p) ==> p.token_header == token_header && p.url == url && uri == Ok::<
            http::Uri,
            http::uri::InvalidUri,
        >(p.uri),
        res matches Err(e) ==> e is InvalidUri && uri == Err::<http::Uri, http::uri::InvalidUri>(
            e->InvalidUri_source,
        ),
{
    match uri {
        Ok(uri) => Ok(PreparedRequest { token_header, url, uri }),
        Err(source) => Err(RequestSetupError::InvalidUri { source }),
    }
}

/// Prepares a request to endpoint `path` for a transport configured with
/// `api_token` and `base_url`: the token becomes the `TOKEN_HEADER` value,
/// the URL is `join_url(base_url, path)`, and the URI is that URL parsed.
///
/// Fails with `AuthError` exactly when the token holds a character that no
/// header value may hold, and otherwise with `InvalidUri` exactly when the
/// joined URL is not a URI.
pub fn prepare_request(api_token: &str, base_url: &str, path: &str) -> (res: Result<
    PreparedRequest,
    RequestSetupError,
>)
    ensures
        res matches Err(RequestSetupError::AuthError { .. }) <==> !is_valid_header_value(
            api_token@,
        ),
        res matches Err(RequestSetupError::InvalidUri { .. }) <==> is_valid_header_value(
            api_token@,
        ) && !uri_parses(spec_join_url(base_url@, path@)),
        res matches Ok(p) ==> p.url@ == spec_join_url(base_url@, path@),
        res matches Ok(p) ==> p.token_header == header_value_of(api_token@),
        res matches Ok(p) ==> parsed_uri(p.url@) == Ok::<http::Uri, http::uri::InvalidUri>(p.uri),
{
    let token_header = match header_value_from_str(api_token) {
        Ok(value) => value,
        Err(source) => {
            return Err(RequestSetupError::AuthError { source });
        },
    };
    let url = join_url(base_url, path);
    let uri = parse_uri(url.as_str());
    assemble_request(token_header, url, uri)
}

} // verus!
