//! The per-attempt half of the request engine.
//!
//! Everything here is one attempt's worth of work: joining the base URL and a
//! path, building the `Authorization` header value, and classifying a
//! completed HTTP exchange into success or a classified [`Error`]. The retry
//! policy that drives attempts to completion lives in [`crate::retry`];
//! performing the network exchange itself is the embedding application's job.

use vstd::prelude::*;

use crate::error::Error;
use crate::error::ErrorKind;
use crate::strutil::parse_u64_str;
use crate::strutil::spec_parse_u64;
use vstd::string::StringSliceAdditionalSpecFns;

verus! {

/// `s` with every trailing slash removed.
pub open spec fn spec_trim_trailing_slashes(s: Seq<char>) -> Seq<char>
    decreases s.len(),
{
    if s.len() > 0 && s.last() == '/' {
        spec_trim_trailing_slashes(s.drop_last())
    } else {
        s
    }
}

/// `s` with every leading slash removed.
pub open spec fn spec_trim_leading_slashes(s: Seq<char>) -> Seq<char>
    decreases s.len(),
{
    if s.len() > 0 && s.first() == '/' {
        spec_trim_leading_slashes(s.drop_first())
    } else {
        s
    }
}

/// The absolute URL for a path: base and path joined by exactly one slash,
/// whatever trailing slashes the base or leading slashes the path carry.
pub open spec fn spec_join_url(base: Seq<char>, path: Seq<char>) -> Seq<char> {
    spec_trim_trailing_slashes(base) + seq!['/'] + spec_trim_leading_slashes(path)
}

/// Joins the configured base URL and a request path with exactly one slash
/// between them.
pub fn build_url(base: &str, path: &str) -> (r: String)
    ensures
        r@ == spec_join_url(base@, path@),
{
    let blen = base.unicode_len();
    let mut end: usize = blen;
    assert(base@.subrange(0, blen as int) =~= base@);
    while end > 0 && base.get_char(end - 1) == '/'
        invariant
            end <= blen,
            blen == base@.len(),
            spec_trim_trailing_slashes(base@) == spec_trim_trailing_slashes(
                base@.subrange(0, end as int),
            ),
        decreases end,
    {
        proof {
            assert(base@.subrange(0, end as int).last() == base@[end - 1]);
            assert(base@.subrange(0, end as int).drop_last() =~= base@.subrange(0, end as int - 1));
        }
        end = end - 1;
    }
    proof {
        assert(spec_trim_trailing_slashes(base@.subrange(0, end as int)) == base@.subrange(
            0,
            end as int,
        ));
    }
    let trimmed_base = base.substring_char(0, end);

    let plen = path.unicode_len();
    let mut start: usize = 0;
    assert(path@.subrange(0, plen as int) =~= path@);
    while start < plen && path.get_char(start) == '/'
        invariant
            start <= plen,
            plen == path@.len(),
            spec_trim_leading_slashes(path@) == spec_trim_leading_slashes(
                path@.subrange(start as int, plen as int),
            ),
        decreases plen - start,
    {
        proof {
            assert(path@.subrange(start as int, plen as int).first() == path@[start as int]);
            assert(path@.subrange(start as int, plen as int).drop_first() =~= path@.subrange(
                start as int + 1,
                plen as int,
            ));
        }
        start = start + 1;
    }
    proof {
        assert(spec_trim_leading_slashes(path@.subrange(start as int, plen as int))
            == path@.subrange(start as int, plen as int));
    }
    let trimmed_path = path.substring_char(start, plen);

    let r = String::from_str(trimmed_base).concat("/").concat(trimmed_path);
    proof {
        reveal_strlit("/");
        assert(r@ =~= spec_join_url(base@, path@));
    }
    r
}

/// What the standard base64 alphabet with padding makes of a byte sequence.
pub uninterp spec fn spec_base64_standard(bytes: Seq<u8>) -> Seq<char>;

/// Relies on base64's `STANDARD` engine (`Engine::encode`): the encoding is a
/// function of the input bytes alone, and the padded output holds four
/// characters for every started group of three bytes.
#[verifier::external_body]
fn base64_encode(bytes: &Vec<u8>) -> (r: String)
    requires
        bytes@.len() / 3 * 4 + 4 <= usize::MAX,
    ensures
        r@ == spec_base64_standard(bytes@),
        r@.len() == (bytes@.len() + 2) / 3 * 4,
{
    base64::Engine::encode(&base64::engine::general_purpose::STANDARD, bytes.as_slice())
}

/// The value of the `Authorization` header: HTTP Basic credentials with the
/// secret key as username and an empty password, base64-encoded.
pub open spec fn spec_basic_auth_header(key_bytes: Seq<u8>) -> Seq<char> {
    "Basic "@ + spec_base64_standard(key_bytes.push(58u8))
}

/// Builds the `Authorization` header value for a secret key: `Basic` followed
/// by the base64 encoding of `key:` (empty password). Returns `None` only
/// when the key is too large for the encoding to fit in memory.
pub fn basic_auth_header(api_key: &str) -> (r: Option<String>)
    ensures
        r matches Some(h) ==> h@ == spec_basic_auth_header(api_key.spec_bytes()),
        (api_key.spec_bytes().len() + 1) / 3 * 4 + 4 <= usize::MAX ==> r is Some,
{
    let mut bytes = api_key.as_bytes_vec();
    if usize::MAX - bytes.len() < 1 {
        assert((api_key.spec_bytes().len() + 1) / 3 * 4 + 4 > usize::MAX) by (nonlinear_arith)
            requires
                api_key.spec_bytes().len() + 1 > usize::MAX as int,
                usize::MAX >= 7,
        ;
        return None;
    }
    bytes.push(58);
    let n = bytes.len();
    if n / 3 > (usize::MAX - 4) / 4 {
        assert(n / 3 * 4 + 4 > usize::MAX) by (nonlinear_arith)
            requires
                n / 3 > (usize::MAX - 4) / 4,
        ;
        return None;
    }
    assert(n / 3 * 4 + 4 <= usize::MAX) by (nonlinear_arith)
        requires
            n / 3 <= (usize::MAX - 4) / 4,
    ;
    let encoded = base64_encode(&bytes);
    let r = String::from_str("Basic ").concat(encoded.as_str());
    assert(r@ =~= spec_basic_auth_header(api_key.spec_bytes()));
    Some(r)
}

/// The error kind derived from an HTTP status code.
pub open spec fn spec_status_kind(status: u16) -> ErrorKind {
    if status == 400 {
        ErrorKind::InvalidRequest
    } else if status == 401 {
        ErrorKind::Authentication
    } else if status == 403 {
        ErrorKind::PermissionDenied
    } else if status == 404 {
        ErrorKind::NotFound
    } else if status == 429 {
        ErrorKind::RateLimit
    } else if 500 <= status && status < 600 {
        ErrorKind::ServerError
    } else {
        ErrorKind::Unknown
    }
}

/// Maps an HTTP status code to the kind of API error it stands for.
pub fn status_to_error_kind(status: u16) -> (r: ErrorKind)
    ensures
        r == spec_status_kind(status),
{
    if status == 400 {
        ErrorKind::InvalidRequest
    } else if status == 401 {
        ErrorKind::Authentication
    } else if status == 403 {
        ErrorKind::PermissionDenied
    } else if status == 404 {
        ErrorKind::NotFound
    } else if status == 429 {
        ErrorKind::RateLimit
    } else if 500 <= status && status < 600 {
        ErrorKind::ServerError
    } else {
        ErrorKind::Unknown
    }
}

/// The status codes on which a response body is decoded as the success type.
pub open spec fn spec_status_success(status: u16) -> bool {
    200 <= status && status < 300
}

/// Classifies a completed HTTP exchange by its status and headers.
///
/// Returns `None` exactly on a success status, leaving the body to be decoded
/// as the expected type. A too-many-requests status yields a rate-limit error
/// whose hint is parsed from the `retry-after` header value (absent when the
/// header is missing or unparsable), read before and instead of any
/// body-based mapping. Every other non-success status yields an API error
/// carrying the kind derived from the status, the body text as message, the
/// numeric status, and the request-trace id.
pub fn classify_status(
    status: u16,
    request_id: Option<String>,
    retry_after: Option<&str>,
    body: String,
) -> (r: Option<Error>)
    ensures
        status == 429 ==> (r matches Some(e) && e == (Error::RateLimit {
            retry_after: match retry_after {
                Some(h) => spec_parse_u64(h@),
                None => None,
            },
        })),
        status != 429 && !spec_status_success(status) ==> (r matches Some(e) && e == (Error::Api {
            kind: spec_status_kind(status),
            message: body,
            status_code: Some(status),
            request_id: request_id,
        })),
        spec_status_success(status) ==> r is None,
{
    if status == 429 {
        let hint = match retry_after {
            Some(h) => parse_u64_str(h),
            None => None,
        };
        return Some(Error::RateLimit { retry_after: hint });
    }
    if !(200 <= status && status < 300) {
        let kind = status_to_error_kind(status);
        return Some(Error::Api { kind, message: body, status_code: Some(status), request_id });
    }
    None
}

/// Maps a failed network exchange to its error: a client-side timeout is
/// reported as a timeout carrying the configured deadline (in milliseconds),
/// never as a generic transport error.
pub fn transport_failure(
    message: String,
    is_timeout: bool,
    is_connect: bool,
    timeout_ms: u64,
) -> (r: Error)
    ensures
        is_timeout ==> r == Error::Timeout(timeout_ms),
        !is_timeout ==> r == (Error::Http { message, is_timeout: false, is_connect }),
{
    if is_timeout {
        Error::Timeout(timeout_ms)
    } else {
        Error::Http { message, is_timeout: false, is_connect }
    }
}

} // verus!
