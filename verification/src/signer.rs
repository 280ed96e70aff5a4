//! SigV4 signing of one HTTP request with an empty body.

use crate::error::{SigningFailure, Sigv4Error, Sigv4ErrorView};
use crate::headers::{
    header_map_entries, header_map_from, header_map_spec, is_header_name, lowercase, pairs_of,
    to_lower, SignedHeader,
};
use aws_credential_types::Credentials as AwsCredentials;
use aws_sigv4::http_request;
use aws_sigv4::http_request::{SignableBody, SignableRequest, SigningSettings};
use aws_sigv4::sign::v4::SigningParams;
use reqwest::header::{HeaderMap, HeaderValue};
use std::iter::empty;
use std::time::{Duration, UNIX_EPOCH};
use vstd::prelude::*;
use vstd::std_specs::iter::IteratorSpec;
use vstd::utf8::encode_utf8;

verus! {

/// The longest URL that is signed, in bytes.
pub const MAX_URL_BYTES: usize = 16384;

/// The last second of the year 9999, in seconds since the Unix epoch.
pub const MAX_EPOCH_SECS: u64 = 253_402_300_799;

/// Temporary credentials: an access key, its secret, and the session token
/// that came with them, if one did.
#[derive(Debug)]
pub struct Credentials {
    pub access_key_id: String,
    pub secret_key: String,
    pub session_token: Option<String>,
}

/// What [`Credentials`] hold.
pub struct CredentialsView {
    pub access_key_id: Seq<char>,
    pub secret_key: Seq<char>,
    pub session_token: Option<Seq<char>>,
}

impl View for Credentials {
    type V = CredentialsView;

    open spec fn view(&self) -> CredentialsView {
        CredentialsView {
            access_key_id: self.access_key_id@,
            secret_key: self.secret_key@,
            session_token: match self.session_token {
                Some(token) => Some(token@),
                None => None,
            },
        }
    }
}

/// A point in time: whole seconds since the Unix epoch, in UTC, and the
/// nanoseconds into that second.
#[derive(Clone, Copy, Debug, PartialEq, Eq, Structural)]
pub struct Timestamp {
    pub secs: u64,
    pub nanos: u32,
}

/// Whether `text` begins with `prefix`, capitals in `text` counting as their
/// small letters.
pub open spec fn has_prefix_ignoring_case(text: Seq<char>, prefix: Seq<char>) -> bool {
    &&& prefix.len() <= text.len()
    &&& forall|i: int| 0 <= i < prefix.len() ==> to_lower(#[trigger] text[i]) == prefix[i]
}

/// Whether `url` begins with `http://` or `https://`, in either case of letter.
pub open spec fn has_http_scheme(url: Seq<char>) -> bool {
    has_prefix_ignoring_case(url, "http://"@) || has_prefix_ignoring_case(url, "https://"@)
}

/// `c` with an ASCII capital turned into its small letter.
fn lower(c: char) -> (r: char)
    ensures
        r == to_lower(c),
{
    if 'A' <= c && c <= 'Z' {
        ((c as u8) + 32) as char
    } else {
        c
    }
}

/// Whether `text` begins with `prefix`, capitals in `text` counting as their
/// small letters.
fn starts_with_ignoring_case(text: &str, prefix: &str) -> (b: bool)
    ensures
        b == has_prefix_ignoring_case(text@, prefix@),
{
    let wanted = prefix.unicode_len();
    let mut chars = text.chars();
    let mut i: usize = 0;
    while i < wanted
        invariant
            wanted == prefix@.len(),
            i <= wanted,
            chars.remaining() == text@.skip(i as int),
            i <= text@.len(),
            forall|j: int| 0 <= j < i ==> to_lower(#[trigger] text@[j]) == prefix@[j],
        decreases wanted - i,
    {
        let expected = prefix.get_char(i);
        match chars.next() {
            None => {
                return false;
            },
            Some(c) => {
                if lower(c) != expected {
                    return false;
                }
            },
        }
        proof {
            assert(text@.skip(i as int).drop_first() == text@.skip(i + 1));
        }
        i = i + 1;
    }
    true
}

/// Whether `url` begins with `http://` or `https://`, in either case of letter.
pub fn url_has_http_scheme(url: &str) -> (b: bool)
    ensures
        b == has_http_scheme(url@),
{
    starts_with_ignoring_case(url, "http://") || starts_with_ignoring_case(url, "https://")
}

/// `aws_sigv4::http_request::SigningError`, carried as it comes.
#[verifier::external_type_specification]
#[verifier::external_body]
pub struct ExSigningError(http_request::SigningError);

/// The headers that SigV4 signing with the default settings asks to be added
/// to a request without headers and with an empty body, at `epoch_secs`
/// seconds after the Unix epoch; `None` where the signer refuses.
pub uninterp spec fn sigv4_headers(
    access_key_id: Seq<char>,
    secret_key: Seq<char>,
    session_token: Option<Seq<char>>,
    method: Seq<char>,
    url: Seq<char>,
    region: Seq<char>,
    service_name: Seq<char>,
    epoch_secs: int,
) -> Option<Seq<(Seq<char>, Seq<char>)>>;

/// Whether `text` is a time as the timestamp header carries it: eight
/// digits of date, `T`, six digits of time, `Z`.
pub open spec fn is_amz_date(text: Seq<char>) -> bool {
    &&& text.len() == 16
    &&& text[8] == 'T'
    &&& text[15] == 'Z'
    &&& forall|i: int| 0 <= i < 15 && i != 8 ==> '0' <= #[trigger] text[i] <= '9'
}

/// Whether `text` is a signature: 64 hexadecimal digits, the letters small.
pub open spec fn is_signature(text: Seq<char>) -> bool {
    &&& text.len() == 64
    &&& forall|i: int|
        0 <= i < 64 ==> ('0' <= #[trigger] text[i] <= '9' || 'a' <= text[i] <= 'f')
}

/// The scope of a signature: the day, the region, the service and the
/// closing word, with slashes between them.
pub open spec fn credential_scope(
    amz_date: Seq<char>,
    region: Seq<char>,
    service_name: Seq<char>,
) -> Seq<char> {
    amz_date.take(8) + "/"@ + region + "/"@ + service_name + "/aws4_request"@
}

/// The names of the headers that are signed, as the authorization header
/// lists them.
pub open spec fn signed_header_list(session_token: Option<Seq<char>>) -> Seq<char> {
    if session_token is Some {
        "host;x-amz-date;x-amz-security-token"@
    } else {
        "host;x-amz-date"@
    }
}

/// What stands in an authorization header between the access key and the
/// signature.
pub open spec fn authorization_middle(
    amz_date: Seq<char>,
    region: Seq<char>,
    service_name: Seq<char>,
    session_token: Option<Seq<char>>,
) -> Seq<char> {
    "/"@ + credential_scope(amz_date, region, service_name) + ", SignedHeaders="@
        + signed_header_list(session_token) + ", Signature="@
}

/// Whether `value` is the authorization header for these credentials, this
/// scope and some signature: the algorithm, the access key with the scope,
/// the list of signed headers, and the signature last.
pub open spec fn is_authorization(
    value: Seq<char>,
    credentials: CredentialsView,
    amz_date: Seq<char>,
    region: Seq<char>,
    service_name: Seq<char>,
) -> bool {
    let before = "AWS4-HMAC-SHA256 Credential="@ + credentials.access_key_id
        + authorization_middle(amz_date, region, service_name, credentials.session_token);
    &&& value.len() == before.len() + 64
    &&& value.take(before.len() as int) == before
    &&& is_signature(value.skip(before.len() as int))
}

/// What the signer is seen to emit: the timestamp header, then the
/// authorization header made with that timestamp, then the session token
/// under its header where the credentials hold one, and nothing else.
pub open spec fn emitted_as_documented(
    headers: Seq<(Seq<char>, Seq<char>)>,
    credentials: CredentialsView,
    region: Seq<char>,
    service_name: Seq<char>,
) -> bool {
    &&& headers.len() == if credentials.session_token is Some {
        3int
    } else {
        2int
    }
    &&& headers[0].0 == "x-amz-date"@
    &&& is_amz_date(headers[0].1)
    &&& headers[1].0 == "authorization"@
    &&& is_authorization(headers[1].1, credentials, headers[0].1, region, service_name)
    &&& credentials.session_token matches Some(token) ==> headers[2] == (
        "x-amz-security-token"@,
        token,
    )
}

/// `aws_sigv4::http_request::sign`, on a `SignableRequest` made of `method`,
/// `url`, no headers and an empty body, with `SigningParams` made of the
/// credentials, the default `SigningSettings`, `region`, `service_name` and the
/// time `epoch_secs` seconds after the Unix epoch.
///
/// Signing draws on nothing but these values, so the headers it hands out are
/// a function of them. They are `x-amz-date` with the time as sixteen
/// characters; `authorization` with the algorithm, the access key, the scope
/// that begins with the day of that time, the list of signed headers and a
/// signature of 64 hexadecimal digits; and, with a session token,
/// `x-amz-security-token` carrying that token. An URL without
/// a scheme makes the signer panic, one of many kilobytes can, and so does a
/// time after the year 9999: the preconditions keep all three away.
#[verifier::external_body]
fn sigv4_sign(
    credentials: &Credentials,
    method: &str,
    url: &str,
    region: &str,
    service_name: &str,
    epoch_secs: u64,
) -> (r: Result<Vec<SignedHeader>, http_request::SigningError>)
    requires
        has_http_scheme(url@),
        encode_utf8(url@).len() <= MAX_URL_BYTES,
        epoch_secs <= MAX_EPOCH_SECS,
    ensures
        match sigv4_headers(
            credentials@.access_key_id,
            credentials@.secret_key,
            credentials@.session_token,
            method@,
            url@,
            region@,
            service_name@,
            epoch_secs as int,
        ) {
            Some(headers) => r is Ok && pairs_of(r->Ok_0@) == headers,
            None => r is Err,
        },
        r is Ok ==> emitted_as_documented(
            pairs_of(r->Ok_0@),
            credentials@,
            region@,
            service_name@,
        ),
{
    let identity = AwsCredentials::from_keys(
        &credentials.access_key_id,
        &credentials.secret_key,
        credentials.session_token.clone(),
    ).into();
    let time = UNIX_EPOCH.checked_add(Duration::from_secs(epoch_secs)).unwrap();
    let request = SignableRequest::new(method, url, empty(), SignableBody::Bytes(&[]))?;
    let params = SigningParams::builder().identity(&identity).settings(SigningSettings::default())
        .region(region).name(service_name).time(time).build().unwrap().into();
    let (instructions, _) = http_request::sign(request, &params)?.into_parts();
    Ok(instructions.headers().map(|(name, value)| SignedHeader { name: name.into(), value: value.into() }).collect())
}

/// The signing headers for a request, or why there are none: the URL is
/// judged first, by length and then by scheme, then the time, and then the
/// signer decides.
pub open spec fn sign_spec(
    credentials: CredentialsView,
    method: Seq<char>,
    url: Seq<char>,
    region: Seq<char>,
    service_name: Seq<char>,
    now: Timestamp,
) -> Result<Seq<(Seq<char>, Seq<char>)>, SigningFailure> {
    if encode_utf8(url).len() > MAX_URL_BYTES {
        Err(SigningFailure::UrlTooLong)
    } else if !has_http_scheme(url) {
        Err(SigningFailure::UrlWithoutScheme)
    } else if now.secs > MAX_EPOCH_SECS {
        Err(SigningFailure::TimeOutOfRange)
    } else {
        match sigv4_headers(
            credentials.access_key_id,
            credentials.secret_key,
            credentials.session_token,
            method,
            url,
            region,
            service_name,
            now.secs as int,
        ) {
            Some(headers) => Ok(headers),
            None => Err(SigningFailure::Rejected),
        }
    }
}

/// The pairs in a result of [`sign`].
pub open spec fn signed_pairs(r: Result<Vec<SignedHeader>, SigningFailure>) -> Result<
    Seq<(Seq<char>, Seq<char>)>,
    SigningFailure,
> {
    match r {
        Ok(headers) => Ok(pairs_of(headers@)),
        Err(failure) => Err(failure),
    }
}

/// Signs a request for `method` and `url` that has no headers of its own and
/// an empty body, for `service_name` in `region`, at the second of `now`.
///
/// The headers to add come back in the order in which the signer emits them.
pub fn sign(
    credentials: &Credentials,
    method: &str,
    url: &str,
    region: &str,
    service_name: &str,
    now: Timestamp,
) -> (r: Result<Vec<SignedHeader>, SigningFailure>)
    ensures
        signed_pairs(r) == sign_spec(credentials@, method@, url@, region@, service_name@, now),
        r matches Ok(headers) ==> emitted_as_documented(
            pairs_of(headers@),
            credentials@,
            region@,
            service_name@,
        ),
{
    if url.as_bytes().len() > MAX_URL_BYTES {
        return Err(SigningFailure::UrlTooLong);
    }
    if !url_has_http_scheme(url) {
        return Err(SigningFailure::UrlWithoutScheme);
    }
    if now.secs > MAX_EPOCH_SECS {
        return Err(SigningFailure::TimeOutOfRange);
    }
    match sigv4_sign(credentials, method, url, region, service_name, now.secs) {
        Ok(headers) => Ok(headers),
        Err(_) => Err(SigningFailure::Rejected),
    }
}

/// The names under which the signing headers are sent.
pub open spec fn signing_header_names(session_token: Option<Seq<char>>) -> Set<Seq<char>> {
    if session_token is Some {
        set!["x-amz-date"@, "authorization"@, "x-amz-security-token"@]
    } else {
        set!["x-amz-date"@, "authorization"@]
    }
}

/// The header map for a request, or why there is none: what [`sign_spec`]
/// gives, placed in a map.
pub open spec fn signing_headers_spec(
    credentials: CredentialsView,
    method: Seq<char>,
    url: Seq<char>,
    region: Seq<char>,
    service_name: Seq<char>,
    now: Timestamp,
) -> Result<Map<Seq<char>, Seq<char>>, Sigv4ErrorView> {
    match sign_spec(credentials, method, url, region, service_name, now) {
        Err(failure) => Err(Sigv4ErrorView::Signing(failure)),
        Ok(pairs) => match header_map_spec(pairs) {
            Err(failure) => Err(Sigv4ErrorView::Signing(failure)),
            Ok(entries) => Ok(entries),
        },
    }
}

/// What a result of [`get_signing_headers`] holds.
pub open spec fn headers_or_error(r: Result<HeaderMap<HeaderValue>, Sigv4Error>) -> Result<
    Map<Seq<char>, Seq<char>>,
    Sigv4ErrorView,
> {
    match r {
        Ok(map) => Ok(header_map_entries(map)),
        Err(error) => Err(error@),
    }
}

/// The three names under which signing headers are sent are header names,
/// and are in lower case already.
proof fn lemma_signing_names()
    ensures
        is_header_name("x-amz-date"@),
        is_header_name("authorization"@),
        is_header_name("x-amz-security-token"@),
        lowercase("x-amz-date"@) == "x-amz-date"@,
        lowercase("authorization"@) == "authorization"@,
        lowercase("x-amz-security-token"@) == "x-amz-security-token"@,
        "x-amz-date"@ != "authorization"@,
        "x-amz-date"@ != "x-amz-security-token"@,
        "authorization"@ != "x-amz-security-token"@,
{
    reveal_strlit("x-amz-date");
    reveal_strlit("authorization");
    reveal_strlit("x-amz-security-token");
    assert(lowercase("x-amz-date"@) =~= "x-amz-date"@);
    assert(lowercase("authorization"@) =~= "authorization"@);
    assert(lowercase("x-amz-security-token"@) =~= "x-amz-security-token"@);
    assert("x-amz-date"@[0] != "authorization"@[0]);
    assert("x-amz-date"@.len() != "x-amz-security-token"@.len());
    assert("authorization"@[0] != "x-amz-security-token"@[0]);
}

/// Whether `entries` are the signing headers for these credentials and this
/// scope: they stand under the signing names and under no other, the
/// timestamp under its own, the authorization made with that timestamp, and
/// the session token as it is.
pub open spec fn are_signing_headers(
    entries: Map<Seq<char>, Seq<char>>,
    credentials: CredentialsView,
    region: Seq<char>,
    service_name: Seq<char>,
) -> bool {
    &&& entries.dom() == signing_header_names(credentials.session_token)
    &&& is_amz_date(entries["x-amz-date"@])
    &&& is_authorization(
        entries["authorization"@],
        credentials,
        entries["x-amz-date"@],
        region,
        service_name,
    )
    &&& credentials.session_token matches Some(token) ==> entries["x-amz-security-token"@]
        == token
}

/// Headers that the signer emits fail to be placed only for a value, and
/// once placed they are the signing headers.
proof fn lemma_emitted_headers_placed(
    pairs: Seq<(Seq<char>, Seq<char>)>,
    credentials: CredentialsView,
    region: Seq<char>,
    service_name: Seq<char>,
)
    requires
        emitted_as_documented(pairs, credentials, region, service_name),
    ensures
        header_map_spec(pairs) != Err::<Map<Seq<char>, Seq<char>>, _>(
            SigningFailure::InvalidHeaderName,
        ),
        header_map_spec(pairs) matches Ok(entries) ==> are_signing_headers(
            entries,
            credentials,
            region,
            service_name,
        ),
{
    lemma_signing_names();
    reveal_with_fuel(header_map_spec, 4);
    let two = if credentials.session_token is Some {
        pairs.drop_last()
    } else {
        pairs
    };
    let one = two.drop_last();
    assert(one.drop_last().len() == 0);
    assert(one.last() == pairs[0]);
    assert(two.last() == pairs[1]);
    if header_map_spec(pairs) is Ok {
        let entries = header_map_spec(pairs)->Ok_0;
        assert(entries.dom() =~= signing_header_names(credentials.session_token));
        assert(entries["x-amz-date"@] == pairs[0].1);
        assert(entries["authorization"@] == pairs[1].1);
    }
}

/// Whether `r` is what [`get_signing_headers`] returns for these inputs.
///
/// It holds the headers of [`signing_headers_spec`], or fails as that says.
/// Headers that are there are the signing headers for the credentials and
/// the scope; and no failure is that of a header name.
pub open spec fn is_signing_result(
    credentials: CredentialsView,
    method: Seq<char>,
    url: Seq<char>,
    region: Seq<char>,
    service_name: Seq<char>,
    now: Timestamp,
    r: Result<HeaderMap<HeaderValue>, Sigv4Error>,
) -> bool {
    &&& headers_or_error(r) == signing_headers_spec(
        credentials,
        method,
        url,
        region,
        service_name,
        now,
    )
    &&& r matches Ok(map) ==> are_signing_headers(
        header_map_entries(map),
        credentials,
        region,
        service_name,
    )
    &&& r matches Err(error) ==> error@ != Sigv4ErrorView::Signing(
        SigningFailure::InvalidHeaderName,
    )
}

/// Computes the headers that sign a request for `method` and `url` with an
/// empty body, and places them in a header map.
///
/// There is a timestamp header, an authorization header that names the
/// algorithm, the access key, the scope and the signed headers before the
/// signature, and, where the credentials hold a session token, a header that
/// carries it; the map holds nothing else. No header name that signing
/// computes is ever refused.
pub fn get_signing_headers(
    credentials: &Credentials,
    method: &str,
    url: &str,
    region: &str,
    service_name: &str,
    now: Timestamp,
) -> (r: Result<HeaderMap<HeaderValue>, Sigv4Error>)
    ensures
        is_signing_result(credentials@, method@, url@, region@, service_name@, now, r),
{
    let headers = match sign(credentials, method, url, region, service_name, now) {
        Ok(headers) => headers,
        Err(failure) => {
            return Err(Sigv4Error::Signing(failure));
        },
    };
    proof {
        lemma_emitted_headers_placed(
            pairs_of(headers@),
            credentials@,
            region@,
            service_name@,
        );
    }
    match header_map_from(&headers) {
        Ok(map) => Ok(map),
        Err(failure) => Err(Sigv4Error::Signing(failure)),
    }
}

/// Signing is a function of its inputs: whatever two runs on the same
/// credentials, method, URL, region, service name and time return, they
/// return the same headers, or fail alike.
pub proof fn lemma_signing_is_deterministic(
    credentials: CredentialsView,
    method: Seq<char>,
    url: Seq<char>,
    region: Seq<char>,
    service_name: Seq<char>,
    now: Timestamp,
    first: Result<HeaderMap<HeaderValue>, Sigv4Error>,
    second: Result<HeaderMap<HeaderValue>, Sigv4Error>,
)
    requires
        is_signing_result(credentials, method, url, region, service_name, now, first),
        is_signing_result(credentials, method, url, region, service_name, now, second),
    ensures
        headers_or_error(first) == headers_or_error(second),
{
}

/// The session token shows in the headers: two requests that are signed
/// with credentials of different session tokens, or one with a token and one
/// without, do not get the same headers, whatever else they share.
pub proof fn lemma_session_token_shows(
    one: CredentialsView,
    other: CredentialsView,
    method: Seq<char>,
    url: Seq<char>,
    region: Seq<char>,
    service_name: Seq<char>,
    now: Timestamp,
    first: Result<HeaderMap<HeaderValue>, Sigv4Error>,
    second: Result<HeaderMap<HeaderValue>, Sigv4Error>,
)
    requires
        is_signing_result(one, method, url, region, service_name, now, first),
        is_signing_result(other, method, url, region, service_name, now, second),
        one.session_token != other.session_token,
        first is Ok,
        second is Ok,
    ensures
        headers_or_error(first) != headers_or_error(second),
{
    lemma_signing_names();
    let name = "x-amz-security-token"@;
    let here = header_map_entries(first->Ok_0);
    let there = header_map_entries(second->Ok_0);
    if one.session_token is Some && other.session_token is Some {
        assert(here[name] != there[name]);
    } else if one.session_token is Some {
        assert(here.dom().contains(name) && !there.dom().contains(name));
    } else {
        assert(there.dom().contains(name) && !here.dom().contains(name));
    }
}

/// The access key shows in the authorization header: two requests for the
/// same region and service that are signed with credentials of different
/// access keys, both with a session token or both without, do not get the
/// same authorization header.
pub proof fn lemma_access_key_shows(
    one: CredentialsView,
    other: CredentialsView,
    method: Seq<char>,
    url: Seq<char>,
    region: Seq<char>,
    service_name: Seq<char>,
    now: Timestamp,
    first: Result<HeaderMap<HeaderValue>, Sigv4Error>,
    second: Result<HeaderMap<HeaderValue>, Sigv4Error>,
)
    requires
        is_signing_result(one, method, url, region, service_name, now, first),
        is_signing_result(other, method, url, region, service_name, now, second),
        one.access_key_id != other.access_key_id,
        one.session_token is Some <==> other.session_token is Some,
        first is Ok,
        second is Ok,
    ensures
        header_map_entries(first->Ok_0)["authorization"@] != header_map_entries(
            second->Ok_0,
        )["authorization"@],
{
    let here = header_map_entries(first->Ok_0);
    let there = header_map_entries(second->Ok_0);
    let head = "AWS4-HMAC-SHA256 Credential="@;
    let middle_here = authorization_middle(
        here["x-amz-date"@],
        region,
        service_name,
        one.session_token,
    );
    let middle_there = authorization_middle(
        there["x-amz-date"@],
        region,
        service_name,
        other.session_token,
    );
    let before_here = head + one.access_key_id + middle_here;
    let before_there = head + other.access_key_id + middle_there;
    assert(middle_here.len() == middle_there.len());
    if here["authorization"@] == there["authorization"@] {
        assert(before_here.len() == before_there.len());
        assert(before_here == before_there);
        let from = head.len() as int;
        let to = from + one.access_key_id.len();
        assert(before_here.subrange(from, to) == one.access_key_id);
        assert(before_there.subrange(from, to) == other.access_key_id);
    }
}

/// Signing sees the time to the second: two times in the same second give
/// the same headers, or fail alike.
pub proof fn lemma_subsecond_is_ignored(
    credentials: CredentialsView,
    method: Seq<char>,
    url: Seq<char>,
    region: Seq<char>,
    service_name: Seq<char>,
    first: Timestamp,
    second: Timestamp,
)
    requires
        first.secs == second.secs,
    ensures
        sign_spec(credentials, method, url, region, service_name, first) == sign_spec(
            credentials,
            method,
            url,
            region,
            service_name,
            second,
        ),
        signing_headers_spec(credentials, method, url, region, service_name, first)
            == signing_headers_spec(credentials, method, url, region, service_name, second),
{
}

} // verus!
