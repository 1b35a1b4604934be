//! The rules by which the library reacts to Spotify's responses: which statuses are errors, when a request is sent
//! again after a refreshed access token or a rate-limit wait, and which error a failed request gives.

use std::marker::PhantomData;

use vstd::prelude::*;

use super::opt_text;
use super::pairs_view;
use super::parse_url_with_params;
use super::private::AccessTokenExpiryResult;
use super::url_with_params_of;
use crate::model::id::Id;
use crate::model::id::TrackId;
use crate::error::Error;
use crate::model::error::ApiErrorMessage;
use crate::model::error::ApiErrorResponse;

verus! {

/// An ASCII decimal digit.
pub open spec fn is_digit(c: char) -> bool {
    '0' <= c && c <= '9'
}

/// The value of a digit character.
pub open spec fn digit_value(c: char) -> nat {
    (c as nat - '0' as nat) as nat
}

/// The number the decimal digits `s` write.
pub open spec fn spec_decimal_value(s: Seq<char>) -> nat
    decreases s.len(),
{
    if s.len() == 0 {
        0
    } else {
        10 * spec_decimal_value(s.drop_last()) + digit_value(s.last())
    }
}

/// Every character of `s` is a decimal digit.
pub open spec fn all_digits(s: Seq<char>) -> bool {
    forall|i: int| 0 <= i < s.len() ==> is_digit(#[trigger] s[i])
}

/// What `str::parse::<u64>` gives: an optional `+` followed by at least one decimal digit and nothing else, naming a
/// number that fits in a `u64`.
pub open spec fn spec_parse_u64(s: Seq<char>) -> Option<u64> {
    let digits = if s.len() > 0 && s[0] == '+' { s.skip(1) } else { s };
    if digits.len() > 0 && all_digits(digits) && spec_decimal_value(digits) <= u64::MAX {
        Some(spec_decimal_value(digits) as u64)
    } else {
        None
    }
}

/// A longer run of digits names at least as large a number as its prefix.
proof fn lemma_decimal_prefix_le(s: Seq<char>, k: int)
    requires
        0 <= k <= s.len(),
    ensures
        spec_decimal_value(s.take(k)) <= spec_decimal_value(s),
    decreases s.len(),
{
    if k < s.len() {
        assert(s.drop_last().take(k) =~= s.take(k));
        lemma_decimal_prefix_le(s.drop_last(), k);
    } else {
        assert(s.take(k) =~= s);
    }
}

/// Parses a decimal number the way `str::parse::<u64>` does.
pub fn parse_u64(s: &str) -> (r: Option<u64>)
    ensures
        r == spec_parse_u64(s@),
{
    let n = s.unicode_len();
    let mut start: usize = 0;
    if n > 0 && s.get_char(0) == '+' {
        start = 1;
    }
    let ghost digits = if s@.len() > 0 && s@[0] == '+' { s@.skip(1) } else { s@ };
    assert(digits =~= s@.skip(start as int));
    if start == n {
        return None;
    }
    let mut value: u64 = 0;
    let mut i: usize = start;
    while i < n
        invariant
            n == s@.len(),
            start <= i <= n,
            start < n,
            digits == s@.skip(start as int),
            digits == (if s@.len() > 0 && s@[0] == '+' { s@.skip(1) } else { s@ }),
            all_digits(s@.subrange(start as int, i as int)),
            value == spec_decimal_value(s@.subrange(start as int, i as int)),
        decreases n - i,
    {
        let c = s.get_char(i);
        let ghost prefix = s@.subrange(start as int, i as int);
        let ghost next = s@.subrange(start as int, i + 1);
        assert(next.drop_last() =~= prefix);
        assert(next.last() == c);
        if c < '0' || c > '9' {
            assert(!is_digit(digits[i - start]));
            return None;
        }
        let d: u64 = (c as u32 - '0' as u32) as u64;
        assert(d == digit_value(c));
        match value.checked_mul(10) {
            Some(tens) => match tens.checked_add(d) {
                Some(v) => {
                    value = v;
                },
                None => {
                    proof {
                        assert(digits.take((i + 1 - start) as int) =~= next);
                        lemma_decimal_prefix_le(digits, (i + 1 - start) as int);
                    }
                    return None;
                },
            },
            None => {
                proof {
                    assert(digits.take((i + 1 - start) as int) =~= next);
                    lemma_decimal_prefix_le(digits, (i + 1 - start) as int);
                }
                return None;
            },
        }
        i = i + 1;
        assert(all_digits(s@.subrange(start as int, i as int)));
    }
    assert(s@.subrange(start as int, n as int) =~= digits);
    Some(value)
}

/// The library's reaction to a 403 Forbidden response: it is always an error, the more specific one when Spotify says
/// why.
pub fn handle_403_forbidden_api_response(error_response: ApiErrorResponse) -> (r: Result<(), Error>)
    ensures
        r == Err::<(), Error>(match error_response.error.message {
            ApiErrorMessage::RestrictionViolated => Error::Restricted,
            ApiErrorMessage::PremiumRequired => Error::PremiumRequired,
            _ => Error::Forbidden,
        }),
{
    match error_response.error.message {
        ApiErrorMessage::RestrictionViolated => Err(Error::Restricted),
        ApiErrorMessage::PremiumRequired => Err(Error::PremiumRequired),
        _ => Err(Error::Forbidden),
    }
}

/// Returns Ok if the given API error response is because of an expired token. Else, returns an error based on the API
/// error response.
pub fn is_api_error_expired_access_token(error_response: ApiErrorResponse) -> (r: Result<(), Error>)
    ensures
        r == match error_response.error.message {
            ApiErrorMessage::TokenExpired => Ok::<(), Error>(()),
            ApiErrorMessage::PermissionsMissing => Err(Error::MissingScope),
            _ => Err(Error::UnhandledSpotifyResponseStatusCode(401)),
        },
{
    match error_response.error.message {
        ApiErrorMessage::TokenExpired => Ok(()),
        ApiErrorMessage::PermissionsMissing => Err(Error::MissingScope),
        _ => Err(Error::UnhandledSpotifyResponseStatusCode(401)),
    }
}

/// The wait a 429 Too Many Requests response asks for, from the text of its Retry-After header: the number of seconds
/// the header holds, or an error when there is no such header or it is not a number.
pub fn extract_rate_limit_retry_after(retry_after: Option<&str>) -> (r: Result<u64, Error>)
    ensures
        r == match retry_after {
            Some(text) => match spec_parse_u64(text@) {
                Some(wait) => Ok::<u64, Error>(wait),
                None => Err(Error::InvalidRateLimitResponse),
            },
            None => Err(Error::InvalidRateLimitResponse),
        },
{
    match retry_after {
        Some(text) => match parse_u64(text) {
            Some(wait) => Ok(wait),
            None => Err(Error::InvalidRateLimitResponse),
        },
        None => Err(Error::InvalidRateLimitResponse),
    }
}

/// What happened to a request that was sent, as far as deciding what to do next needs it.
#[derive(Debug)]
pub enum SendEvent {
    /// Spotify answered 400 Bad Request.
    BadRequest,
    /// Spotify answered 403 Forbidden with this error.
    Forbidden(ApiErrorResponse),
    /// Spotify answered 401 Unauthorized with this error.
    Unauthorized(ApiErrorResponse),
    /// The client was asked to refresh its access token, with this result.
    RefreshAttempted(AccessTokenExpiryResult),
    /// Spotify answered 429 Too Many Requests, with the text of its Retry-After header if it has one.
    TooManyRequests(Option<String>),
    /// Spotify answered with any other status.
    Other,
}

/// What to do next with a request.
#[derive(Debug)]
pub enum SendStep {
    /// Stop with this error.
    Fail(Error),
    /// Ask the client to refresh its access token and report the result.
    RefreshAccessToken,
    /// Wait this many seconds, then send the request again.
    SleepThenRetry(u64),
    /// Send the request again.
    Retry,
    /// Hand the response to the request's response handler.
    Deliver,
}

/// The statuses the sending loop reacts to itself: 400, 401, 403 and 429.
pub open spec fn status_needs_reaction_spec(status: u16) -> bool {
    status == 400 || status == 401 || status == 403 || status == 429
}

/// The reaction to a Spotify response status: which event the status starts, if it is one the sending loop reacts to
/// itself.
pub fn status_needs_reaction(status: u16) -> (r: bool)
    ensures
        r == status_needs_reaction_spec(status),
{
    status == 400 || status == 401 || status == 403 || status == 429
}

/// How the sending loop reads a response before deciding: the statuses it reacts to itself, and the rest, which the
/// request's response handler reads.
#[derive(Debug, Clone, Copy, PartialEq, Eq, Structural)]
pub enum StatusReaction {
    /// 400 Bad Request: the body is logged and the request fails.
    BadRequest,
    /// 403 Forbidden: the API error in the body decides the error.
    Forbidden,
    /// 401 Unauthorized: the API error in the body decides whether the access token is refreshed.
    Unauthorized,
    /// 429 Too Many Requests: the Retry-After header decides the wait.
    TooManyRequests,
    /// Any other status: the response goes on to the response handler.
    PassOn,
}

/// Which reaction a response status calls for.
pub fn reaction_to_status(status: u16) -> (r: StatusReaction)
    ensures
        r == if status == 400 {
            StatusReaction::BadRequest
        } else if status == 403 {
            StatusReaction::Forbidden
        } else if status == 401 {
            StatusReaction::Unauthorized
        } else if status == 429 {
            StatusReaction::TooManyRequests
        } else {
            StatusReaction::PassOn
        },
        (r != StatusReaction::PassOn) == status_needs_reaction_spec(status),
{
    if status == 400 {
        StatusReaction::BadRequest
    } else if status == 403 {
        StatusReaction::Forbidden
    } else if status == 401 {
        StatusReaction::Unauthorized
    } else if status == 429 {
        StatusReaction::TooManyRequests
    } else {
        StatusReaction::PassOn
    }
}

/// The decision the sending loop takes after each event: errors end the loop, an expired access token is refreshed
/// (when that is enabled) and the request sent again, a rate limit is waited out (when that is enabled) and the request
/// sent again, and any other response is handed on.
pub fn next_send_step(react_to_rate_limit: bool, auto_refresh_access_token: bool, event: SendEvent) -> (r: SendStep)
    ensures
        match event {
            SendEvent::BadRequest => r == SendStep::Fail(Error::UnhandledSpotifyResponseStatusCode(400)),
            SendEvent::Forbidden(response) => r == SendStep::Fail(match response.error.message {
                ApiErrorMessage::RestrictionViolated => Error::Restricted,
                ApiErrorMessage::PremiumRequired => Error::PremiumRequired,
                _ => Error::Forbidden,
            }),
            SendEvent::Unauthorized(response) => match response.error.message {
                ApiErrorMessage::TokenExpired => if auto_refresh_access_token {
                    r == SendStep::RefreshAccessToken
                } else {
                    r == SendStep::Fail(Error::AccessTokenExpired)
                },
                ApiErrorMessage::PermissionsMissing => r == SendStep::Fail(Error::MissingScope),
                _ => r == SendStep::Fail(Error::UnhandledSpotifyResponseStatusCode(401)),
            },
            SendEvent::RefreshAttempted(AccessTokenExpiryResult::Refreshed) => r == SendStep::Retry,
            SendEvent::RefreshAttempted(AccessTokenExpiryResult::Inapplicable) => r == SendStep::Fail(
                Error::AccessTokenExpired,
            ),
            SendEvent::TooManyRequests(header) => match header {
                Some(text) => match spec_parse_u64(text@) {
                    Some(wait) => if react_to_rate_limit {
                        r == SendStep::SleepThenRetry(wait)
                    } else {
                        r == SendStep::Fail(Error::RateLimit(wait))
                    },
                    None => r == SendStep::Fail(Error::InvalidRateLimitResponse),
                },
                None => r == SendStep::Fail(Error::InvalidRateLimitResponse),
            },
            SendEvent::Other => r == SendStep::Deliver,
        },
{
    match event {
        SendEvent::BadRequest => SendStep::Fail(Error::UnhandledSpotifyResponseStatusCode(400)),
        SendEvent::Forbidden(response) => match handle_403_forbidden_api_response(response) {
            Ok(()) => SendStep::Retry,
            Err(e) => SendStep::Fail(e),
        },
        SendEvent::Unauthorized(response) => match is_api_error_expired_access_token(response) {
            Ok(()) => if auto_refresh_access_token {
                SendStep::RefreshAccessToken
            } else {
                SendStep::Fail(Error::AccessTokenExpired)
            },
            Err(e) => SendStep::Fail(e),
        },
        SendEvent::RefreshAttempted(AccessTokenExpiryResult::Refreshed) => SendStep::Retry,
        SendEvent::RefreshAttempted(AccessTokenExpiryResult::Inapplicable) => SendStep::Fail(Error::AccessTokenExpired),
        SendEvent::TooManyRequests(header) => {
            let retry_after = match &header {
                Some(text) => extract_rate_limit_retry_after(Some(text.as_str())),
                None => extract_rate_limit_retry_after(None),
            };
            match retry_after {
                Ok(wait) => if react_to_rate_limit {
                    SendStep::SleepThenRetry(wait)
                } else {
                    SendStep::Fail(Error::RateLimit(wait))
                },
                Err(e) => SendStep::Fail(e),
            }
        },
        SendEvent::Other => SendStep::Deliver,
    }
}

/// The default handling of a response that reached the response handler: client and server error statuses (400 to
/// 599) are errors, any other response is read.
pub fn default_response_outcome(status: u16) -> (r: Result<(), Error>)
    ensures
        r == if 400 <= status && status < 600 {
            Err::<(), Error>(Error::UnhandledSpotifyResponseStatusCode(status))
        } else {
            Ok(())
        },
{
    if 400 <= status && status < 600 {
        Err(Error::UnhandledSpotifyResponseStatusCode(status))
    } else {
        Ok(())
    }
}

/// How a response to a player command is handled, before its body is read.
#[derive(Debug)]
pub enum PlayerControlOutcome {
    /// The command succeeded.
    Done,
    /// The command failed with 404 Not Found; the error in the body decides the error.
    ReadNotFoundError,
    /// The command failed with this error.
    Fail(Error),
}

/// The handling of a response to a player command: 204 No Content is success, 404 Not Found depends on the error in
/// the body, any other status is an error.
pub fn player_control_response_outcome(status: u16) -> (r: PlayerControlOutcome)
    ensures
        r == if status == 204 {
            PlayerControlOutcome::Done
        } else if status == 404 {
            PlayerControlOutcome::ReadNotFoundError
        } else {
            PlayerControlOutcome::Fail(Error::UnhandledSpotifyResponseStatusCode(status))
        },
{
    if status == 204 {
        PlayerControlOutcome::Done
    } else if status == 404 {
        PlayerControlOutcome::ReadNotFoundError
    } else {
        PlayerControlOutcome::Fail(Error::UnhandledSpotifyResponseStatusCode(status))
    }
}

/// The error a synchronous player command that failed with 404 Not Found gives, from the error message in the body:
/// only the no-active-device message means there is no active device.
pub fn player_control_not_found_error_sync(message: ApiErrorMessage) -> (r: Error)
    ensures
        r == match message {
            ApiErrorMessage::NoActiveDevice => Error::NoActiveDevice,
            _ => Error::UnhandledSpotifyResponseStatusCode(404),
        },
{
    match message {
        ApiErrorMessage::NoActiveDevice => Error::NoActiveDevice,
        _ => Error::UnhandledSpotifyResponseStatusCode(404),
    }
}

/// The error an asynchronous player command that failed with 404 Not Found gives, from the error message in the body:
/// the no-active-device message and the not-found message (playback failed on the active device) both mean there is
/// no device to play on.
pub fn player_control_not_found_error(message: ApiErrorMessage) -> (r: Error)
    ensures
        r == match message {
            ApiErrorMessage::NoActiveDevice | ApiErrorMessage::NotFound => Error::NoActiveDevice,
            _ => Error::UnhandledSpotifyResponseStatusCode(404),
        },
{
    match message {
        ApiErrorMessage::NoActiveDevice | ApiErrorMessage::NotFound => Error::NoActiveDevice,
        _ => Error::UnhandledSpotifyResponseStatusCode(404),
    }
}

/// A response type that may be read from an empty 204 No Content response. Types that cannot be empty keep the
/// default, which is an error.
pub trait TryFromEmptyResponse: Sized {
    /// Return an appropriate result for an empty response (204).
    fn try_from_empty_response() -> (r: Result<Self, Error>)
        default_ensures
            r == Err::<Self, Error>(Error::EmptyResponse),
    {
        Err(Error::EmptyResponse)
    }
}

impl TryFromEmptyResponse for () {
    /// An empty response is the unit value.
    fn try_from_empty_response() -> (r: Result<Self, Error>)
        ensures
            r == Ok::<(), Error>(()),
    {
        Ok(())
    }
}

impl<T> TryFromEmptyResponse for Option<T> {
    /// An empty response is no value.
    fn try_from_empty_response() -> (r: Result<Self, Error>)
        ensures
            r == Ok::<Option<T>, Error>(None),
    {
        Ok(None)
    }
}

impl<T> TryFromEmptyResponse for Vec<T> {
    /// An empty response is no items.
    fn try_from_empty_response() -> (r: Result<Self, Error>)
        ensures
            r matches Ok(v) && v@.len() == 0,
    {
        Ok(Vec::new())
    }
}

/// The decimal digit character for a number below ten.
pub open spec fn digit_char(d: nat) -> char {
    if d == 0 { '0' }
    else if d == 1 { '1' }
    else if d == 2 { '2' }
    else if d == 3 { '3' }
    else if d == 4 { '4' }
    else if d == 5 { '5' }
    else if d == 6 { '6' }
    else if d == 7 { '7' }
    else if d == 8 { '8' }
    else { '9' }
}

/// The decimal text of a number, as `to_string` writes it: no sign, no leading zeros.
pub open spec fn spec_decimal_text(n: nat) -> Seq<char>
    decreases n,
{
    if n < 10 {
        seq![digit_char(n)]
    } else {
        spec_decimal_text(n / 10).push(digit_char(n % 10))
    }
}

/// The decimal digit character for a number below ten.
fn decimal_digit(d: u64) -> (r: char)
    requires
        d < 10,
    ensures
        r == digit_char(d as nat),
{
    if d == 0 { '0' }
    else if d == 1 { '1' }
    else if d == 2 { '2' }
    else if d == 3 { '3' }
    else if d == 4 { '4' }
    else if d == 5 { '5' }
    else if d == 6 { '6' }
    else if d == 7 { '7' }
    else if d == 8 { '8' }
    else { '9' }
}

/// Appends the decimal text of `n` to `s`.
fn push_decimal(s: &mut String, n: u64)
    ensures
        final(s)@ == old(s)@ + spec_decimal_text(n as nat),
    decreases n,
{
    if n >= 10 {
        push_decimal(s, n / 10);
    }
    let c = decimal_digit(n % 10);
    s.push(c);
    assert(s@ =~= old(s)@ + spec_decimal_text(n as nat));
}

/// The decimal text of a number, as `to_string` writes it.
pub fn decimal_text(n: u64) -> (r: String)
    ensures
        r@ == spec_decimal_text(n as nat),
{
    let mut s = String::new();
    push_decimal(&mut s, n);
    assert(s@ =~= spec_decimal_text(n as nat));
    s
}

/// The digit character of a number below ten is a digit of that value.
proof fn lemma_digit_char(d: nat)
    requires
        d < 10,
    ensures
        is_digit(digit_char(d)),
        digit_value(digit_char(d)) == d,
{
}

/// The decimal text of a number is digits that name the number again.
pub proof fn lemma_decimal_text_value(n: nat)
    ensures
        all_digits(spec_decimal_text(n)),
        spec_decimal_text(n).len() > 0,
        spec_decimal_value(spec_decimal_text(n)) == n,
    decreases n,
{
    let t = spec_decimal_text(n);
    if n >= 10 {
        lemma_decimal_text_value(n / 10);
        lemma_digit_char(n % 10);
        let prefix = spec_decimal_text(n / 10);
        assert(t.drop_last() =~= prefix);
        assert(t.last() == digit_char(n % 10));
        assert forall|i: int| 0 <= i < t.len() implies is_digit(#[trigger] t[i]) by {
            if i < t.len() - 1 {
                assert(t[i] == prefix[i]);
            }
        }
        assert(n == 10 * (n / 10) + n % 10);
        assert(spec_decimal_value(t) == 10 * spec_decimal_value(t.drop_last()) + digit_value(t.last()));
    } else {
        lemma_digit_char(n);
        assert(t.drop_last() =~= Seq::<char>::empty());
        assert(spec_decimal_value(t) == 10 * spec_decimal_value(t.drop_last()) + digit_value(t.last()));
    }
}

/// Writing a number in decimal and parsing the text gives the number back.
pub proof fn law_decimal_round_trip(n: u64)
    ensures
        spec_parse_u64(spec_decimal_text(n as nat)) == Some(n),
{
    lemma_decimal_text_value(n as nat);
    let t = spec_decimal_text(n as nat);
    assert(is_digit(t[0]));
}

/// HTTP methods the library sends.
#[derive(Debug, Clone, Copy, PartialEq, Eq, Structural)]
pub enum HttpMethod {
    Get,
    Post,
    Put,
}

/// How the response to a request is handled once the sending loop hands it on.
#[derive(Debug, Clone)]
pub enum ResponseHandler {
    /// Client and server error statuses are errors; see [default_response_outcome].
    Default,
    /// The response to a player command; see [player_control_response_outcome].
    PlayerControl,
    /// The response to a request for this track; see [track_response_outcome].
    Track(Id<'static, TrackId>),
}

/// The handling of a response to a request for one track: 200 OK is the track, 404 Not Found means the track does not
/// exist, any other status is an error.
pub fn track_response_outcome(status: u16, track_id: Id<'static, TrackId>) -> (r: Result<(), Error>)
    ensures
        r == if status == 200 {
            Ok::<(), Error>(())
        } else if status == 404 {
            Err(Error::NonexistentTrack(track_id))
        } else {
            Err(Error::UnhandledSpotifyResponseStatusCode(status))
        },
{
    if status == 200 {
        Ok(())
    } else if status == 404 {
        Err(Error::NonexistentTrack(track_id))
    } else {
        Err(Error::UnhandledSpotifyResponseStatusCode(status))
    }
}

/// The index of the pair with key `key` in `params`, if there is one.
pub open spec fn spec_key_index(params: Seq<(Seq<char>, Seq<char>)>, key: Seq<char>) -> Option<int> {
    if exists|i: int| 0 <= i < params.len() && #[trigger] params[i].0 == key {
        Some(choose|i: int| 0 <= i < params.len() && #[trigger] params[i].0 == key)
    } else {
        None
    }
}

/// No key occurs twice in `params`.
pub open spec fn keys_unique(params: Seq<(Seq<char>, Seq<char>)>) -> bool {
    forall|i: int, j: int| 0 <= i < params.len() && 0 <= j < params.len() && i != j ==> #[trigger] params[i].0
        != #[trigger] params[j].0
}

/// The parameters after setting `key` to `value`: an existing pair with that key gets the new value in its place,
/// otherwise the pair is added at the end.
pub open spec fn spec_set_param(params: Seq<(Seq<char>, Seq<char>)>, key: Seq<char>, value: Seq<char>) -> Seq<
    (Seq<char>, Seq<char>),
> {
    match spec_key_index(params, key) {
        Some(i) => params.update(i, (key, value)),
        None => params.push((key, value)),
    }
}

/// The value the parameters give `key`, if any.
pub open spec fn spec_param_value(params: Seq<(Seq<char>, Seq<char>)>, key: Seq<char>) -> Option<Seq<char>> {
    match spec_key_index(params, key) {
        Some(i) => Some(params[i].1),
        None => None,
    }
}

/// Setting a parameter keeps the keys unique; afterwards the key has the new value and every other key keeps its own.
pub proof fn law_set_param(
    params: Seq<(Seq<char>, Seq<char>)>,
    key: Seq<char>,
    value: Seq<char>,
    other: Seq<char>,
)
    requires
        keys_unique(params),
    ensures
        keys_unique(spec_set_param(params, key, value)),
        spec_param_value(spec_set_param(params, key, value), key) == Some(value),
        other != key ==> spec_param_value(spec_set_param(params, key, value), other) == spec_param_value(
            params,
            other,
        ),
{
    let next = spec_set_param(params, key, value);
    match spec_key_index(params, key) {
        Some(i) => {
            assert(next[i].0 == key);
            lemma_key_index_is(next, key, i);
            if exists|j: int| 0 <= j < params.len() && #[trigger] params[j].0 == other {
                let j = choose|j: int| 0 <= j < params.len() && #[trigger] params[j].0 == other;
                lemma_key_index_is(params, other, j);
                if other != key {
                    assert(next[j].0 == other);
                    lemma_key_index_is(next, other, j);
                }
            } else if other != key {
                assert forall|j: int| 0 <= j < next.len() implies #[trigger] next[j].0 != other by {
                    if j != i {
                        assert(next[j] == params[j]);
                    }
                }
            }
        },
        None => {
            let n = params.len() as int;
            assert(next[n].0 == key);
            assert forall|a: int, b: int| 0 <= a < next.len() && 0 <= b < next.len() && a != b implies #[trigger] next[
                a].0 != #[trigger] next[b].0 by {
                if a < n && b < n {
                    assert(next[a] == params[a] && next[b] == params[b]);
                } else if a < n {
                    assert(next[a] == params[a]);
                    assert(params[a].0 != key);
                } else {
                    assert(next[b] == params[b]);
                    assert(params[b].0 != key);
                }
            }
            lemma_key_index_is(next, key, n);
            if exists|j: int| 0 <= j < params.len() && #[trigger] params[j].0 == other {
                let j = choose|j: int| 0 <= j < params.len() && #[trigger] params[j].0 == other;
                lemma_key_index_is(params, other, j);
                assert(next[j] == params[j]);
                lemma_key_index_is(next, other, j);
            } else if other != key {
                assert forall|j: int| 0 <= j < next.len() implies #[trigger] next[j].0 != other by {
                    if j < n {
                        assert(next[j] == params[j]);
                    }
                }
            }
        },
    }
}

/// Setting a key that the parameters do not hold adds it at the end.
pub proof fn lemma_set_new_param(params: Seq<(Seq<char>, Seq<char>)>, key: Seq<char>, value: Seq<char>)
    requires
        forall|i: int| 0 <= i < params.len() ==> #[trigger] params[i].0 != key,
    ensures
        spec_set_param(params, key, value) == params.push((key, value)),
{
}

/// In parameters with unique keys, the value of the key at a position is the value at that position.
pub proof fn lemma_param_value_at(params: Seq<(Seq<char>, Seq<char>)>, i: int)
    requires
        keys_unique(params),
        0 <= i < params.len(),
    ensures
        spec_param_value(params, params[i].0) == Some(params[i].1),
{
    lemma_key_index_is(params, params[i].0, i);
}

/// In parameters with unique keys, the index of a key is the one position that holds it.
proof fn lemma_key_index_is(params: Seq<(Seq<char>, Seq<char>)>, key: Seq<char>, i: int)
    requires
        keys_unique(params),
        0 <= i < params.len(),
        params[i].0 == key,
    ensures
        spec_key_index(params, key) == Some(i),
{
    let j = choose|j: int| 0 <= j < params.len() && #[trigger] params[j].0 == key;
    if j != i {
        assert(params[i].0 != params[j].0);
    }
}

/// Whether two strings hold the same characters.
fn same_text(a: &str, b: &str) -> (r: bool)
    ensures
        r == (a@ == b@),
{
    crate::model::id::str_eq(a, b)
}

/// A "base" request builder that doesn't include any special functionality: what to send, where, and how to react to
/// the response. The commonly available options are in the [BaseRequestBuilder]-trait.
pub struct RequestBuilder<TClient, TResponse, TBody = (), TReturn = TResponse> {
    client: TClient,
    method: HttpMethod,
    base_url: String,
    query_params: Vec<(&'static str, String)>,
    body: Option<TBody>,
    response_handler: ResponseHandler,
    react_to_rate_limit: bool,
    auto_refresh_access_token: bool,
    phantom: PhantomData<(TReturn, TResponse)>,
}

/// The views of query parameters.
pub open spec fn query_view(params: Seq<(&'static str, String)>) -> Seq<(Seq<char>, Seq<char>)> {
    params.map_values(|p: (&'static str, String)| (p.0@, p.1@))
}

impl<TClient, TResponse, TBody, TReturn> RequestBuilder<TClient, TResponse, TBody, TReturn> {
    #[verifier::type_invariant]
    closed spec fn well_formed(self) -> bool {
        keys_unique(query_view(self.query_params@))
    }

    /// The client the request is sent with.
    pub closed spec fn spec_client(&self) -> TClient {
        self.client
    }

    /// The request's method.
    pub closed spec fn spec_method(&self) -> HttpMethod {
        self.method
    }

    /// The URL the request goes to, before its query.
    pub closed spec fn spec_base_url(&self) -> Seq<char> {
        self.base_url@
    }

    /// The request's query parameters, in the order they were first set; no key occurs twice.
    pub closed spec fn spec_query(&self) -> Seq<(Seq<char>, Seq<char>)> {
        query_view(self.query_params@)
    }

    /// The request's body, if it has one.
    pub closed spec fn spec_body(&self) -> Option<TBody> {
        self.body
    }

    /// How the response is handled.
    pub closed spec fn spec_response_handler(&self) -> ResponseHandler {
        self.response_handler
    }

    /// Whether the request waits out rate limits and is sent again.
    pub closed spec fn spec_react_to_rate_limit(&self) -> bool {
        self.react_to_rate_limit
    }

    /// Whether an expired access token is refreshed and the request sent again.
    pub closed spec fn spec_auto_refresh_access_token(&self) -> bool {
        self.auto_refresh_access_token
    }

    /// A request with no query and no body, reacting to rate limits and refreshing expired access tokens, with the
    /// default response handling.
    pub fn new(method: HttpMethod, base_url: String, client: TClient) -> (r: Self)
        ensures
            r.spec_method() == method,
            r.spec_base_url() == base_url@,
            r.spec_client() == client,
            r.spec_query().len() == 0,
            r.spec_body() is None,
            r.spec_response_handler() is Default,
            r.spec_react_to_rate_limit(),
            r.spec_auto_refresh_access_token(),
    {
        let r = RequestBuilder {
            client,
            method,
            base_url,
            query_params: Vec::new(),
            body: None,
            response_handler: ResponseHandler::Default,
            react_to_rate_limit: true,
            auto_refresh_access_token: true,
            phantom: PhantomData,
        };
        assert(r.spec_query() =~= Seq::<(Seq<char>, Seq<char>)>::empty());
        r
    }

    /// Like [new](Self::new), with a body.
    pub fn new_with_body(method: HttpMethod, base_url: String, body: TBody, client: TClient) -> (r: Self)
        ensures
            r.spec_method() == method,
            r.spec_base_url() == base_url@,
            r.spec_client() == client,
            r.spec_query().len() == 0,
            r.spec_body() == Some(body),
            r.spec_response_handler() is Default,
            r.spec_react_to_rate_limit(),
            r.spec_auto_refresh_access_token(),
    {
        let r = RequestBuilder {
            client,
            method,
            base_url,
            query_params: Vec::new(),
            body: Some(body),
            response_handler: ResponseHandler::Default,
            react_to_rate_limit: true,
            auto_refresh_access_token: true,
            phantom: PhantomData,
        };
        assert(r.spec_query() =~= Seq::<(Seq<char>, Seq<char>)>::empty());
        r
    }

    /// Sets the query parameter `key` to `value`, replacing an earlier value of the same key.
    pub fn append_query(self, key: &'static str, value: String) -> (r: Self)
        ensures
            r.spec_query() == spec_set_param(self.spec_query(), key@, value@),
            keys_unique(self.spec_query()),
            keys_unique(r.spec_query()),
            r.spec_method() == self.spec_method(),
            r.spec_base_url() == self.spec_base_url(),
            r.spec_client() == self.spec_client(),
            r.spec_body() == self.spec_body(),
            r.spec_response_handler() == self.spec_response_handler(),
            r.spec_react_to_rate_limit() == self.spec_react_to_rate_limit(),
            r.spec_auto_refresh_access_token() == self.spec_auto_refresh_access_token(),
    {
        proof {
            use_type_invariant(&self);
            law_set_param(self.spec_query(), key@, value@, key@);
        }
        let ghost old_query = self.spec_query();
        let RequestBuilder {
            client,
            method,
            base_url,
            query_params,
            body,
            response_handler,
            react_to_rate_limit,
            auto_refresh_access_token,
            phantom,
        } = self;
        let mut query_params = query_params;
        let mut i: usize = 0;
        let mut found = false;
        while i < query_params.len()
            invariant_except_break
                !found,
            invariant
                query_view(query_params@) == old_query,
                keys_unique(old_query),
                i <= query_params@.len(),
                forall|j: int| 0 <= j < i ==> #[trigger] old_query[j].0 != key@,
            ensures
                query_view(query_params@) == old_query,
                found ==> i < query_params@.len() && old_query[i as int].0 == key@,
                !found ==> i == query_params@.len(),
                forall|j: int| 0 <= j < i ==> #[trigger] old_query[j].0 != key@,
            decreases query_params@.len() - i,
        {
            if same_text(query_params[i].0, key) {
                found = true;
                break;
            }
            i = i + 1;
        }
        if found {
            proof {
                lemma_key_index_is(old_query, key@, i as int);
            }
            query_params.set(i, (key, value));
        } else {
            proof {
                assert(!exists|j: int| 0 <= j < old_query.len() && #[trigger] old_query[j].0 == key@);
            }
            query_params.push((key, value));
        }
        assert(query_view(query_params@) =~= spec_set_param(old_query, key@, value@));
        RequestBuilder {
            client,
            method,
            base_url,
            query_params,
            body,
            response_handler,
            react_to_rate_limit,
            auto_refresh_access_token,
            phantom,
        }
    }

    /// Takes the body out of the request, leaving it without one.
    pub fn take_body(self) -> (r: (Self, Option<TBody>))
        ensures
            r.1 == self.spec_body(),
            r.0.spec_body() is None,
            r.0.spec_response_handler() == self.spec_response_handler(),
            r.0.spec_query() == self.spec_query(),
            r.0.spec_method() == self.spec_method(),
            r.0.spec_base_url() == self.spec_base_url(),
            r.0.spec_client() == self.spec_client(),
            r.0.spec_react_to_rate_limit() == self.spec_react_to_rate_limit(),
            r.0.spec_auto_refresh_access_token() == self.spec_auto_refresh_access_token(),
    {
        proof {
            use_type_invariant(&self);
        }
        let RequestBuilder {
            client,
            method,
            base_url,
            query_params,
            body,
            response_handler,
            react_to_rate_limit,
            auto_refresh_access_token,
            phantom,
        } = self;
        let rest = RequestBuilder {
            client,
            method,
            base_url,
            query_params,
            body: None,
            response_handler,
            react_to_rate_limit,
            auto_refresh_access_token,
            phantom,
        };
        (rest, body)
    }

    /// Gives the request this body, or none.
    pub fn with_body(self, body: Option<TBody>) -> (r: Self)
        ensures
            r.spec_body() == body,
            r.spec_response_handler() == self.spec_response_handler(),
            r.spec_query() == self.spec_query(),
            r.spec_method() == self.spec_method(),
            r.spec_base_url() == self.spec_base_url(),
            r.spec_client() == self.spec_client(),
            r.spec_react_to_rate_limit() == self.spec_react_to_rate_limit(),
            r.spec_auto_refresh_access_token() == self.spec_auto_refresh_access_token(),
    {
        proof {
            use_type_invariant(&self);
        }
        RequestBuilder { body, ..self }
    }

    /// Sets how the response is handled.
    pub fn with_response_handler(self, handler: ResponseHandler) -> (r: Self)
        ensures
            r.spec_response_handler() == handler,
            r.spec_query() == self.spec_query(),
            r.spec_method() == self.spec_method(),
            r.spec_base_url() == self.spec_base_url(),
            r.spec_client() == self.spec_client(),
            r.spec_body() == self.spec_body(),
            r.spec_react_to_rate_limit() == self.spec_react_to_rate_limit(),
            r.spec_auto_refresh_access_token() == self.spec_auto_refresh_access_token(),
    {
        proof {
            use_type_invariant(&self);
        }
        RequestBuilder { response_handler: handler, ..self }
    }

    /// The URL the request goes to: the base URL with the query parameters. `None` only where the base URL does not
    /// parse.
    pub fn build_url(&self) -> (r: Option<String>)
        ensures
            opt_text(r) == url_with_params_of(self.spec_base_url(), self.spec_query()),
    {
        let mut params: Vec<(String, String)> = Vec::new();
        let mut i: usize = 0;
        while i < self.query_params.len()
            invariant
                i <= self.query_params@.len(),
                params@.len() == i,
                pairs_view(params@) == query_view(self.query_params@).take(i as int),
            decreases self.query_params@.len() - i,
        {
            let (key, value) = &self.query_params[i];
            let p = super::pair(*key, value.as_str());
            assert(query_view(self.query_params@)[i as int] == (p.0@, p.1@));
            let ghost before = params@;
            params.push(p);
            assert(params@ == before.push(p));
            assert(pairs_view(params@) =~= query_view(self.query_params@).take(i + 1)) by {
                assert forall|j: int| 0 <= j < i + 1 implies #[trigger] pairs_view(params@)[j] == query_view(
                    self.query_params@,
                )[j] by {
                    if j < i {
                        assert(params@[j] == before[j]);
                        assert(pairs_view(before)[j] == query_view(self.query_params@).take(i as int)[j]);
                    }
                }
            }
            i = i + 1;
        }
        assert(query_view(self.query_params@).take(i as int) =~= query_view(self.query_params@));
        parse_url_with_params(self.base_url.as_str(), &params)
    }

    /// Spotify requires that all empty POST and PUT requests have Content-Length set to 0.
    pub fn needs_empty_content_length(&self) -> (r: bool)
        ensures
            r == (self.spec_body() is None && (self.spec_method() == HttpMethod::Post || self.spec_method()
                == HttpMethod::Put)),
    {
        self.body.is_none() && (self.method == HttpMethod::Post || self.method == HttpMethod::Put)
    }

    /// The request's method.
    pub fn method(&self) -> (r: HttpMethod)
        ensures
            r == self.spec_method(),
    {
        self.method
    }

    /// The client the request is sent with.
    pub fn client(&self) -> (r: &TClient)
        ensures
            *r == self.spec_client(),
    {
        &self.client
    }

    /// The request's body, if it has one.
    pub fn body(&self) -> (r: Option<&TBody>)
        ensures
            match (r, self.spec_body()) {
                (Some(b), Some(expected)) => *b == expected,
                (None, None) => true,
                _ => false,
            },
    {
        self.body.as_ref()
    }

    /// How the response is handled.
    pub fn response_handler(&self) -> (r: &ResponseHandler)
        ensures
            *r == self.spec_response_handler(),
    {
        &self.response_handler
    }

    /// Whether the request waits out rate limits and is sent again.
    pub fn reacts_to_rate_limit(&self) -> (r: bool)
        ensures
            r == self.spec_react_to_rate_limit(),
    {
        self.react_to_rate_limit
    }

    /// Whether an expired access token is refreshed and the request sent again.
    pub fn refreshes_access_token(&self) -> (r: bool)
        ensures
            r == self.spec_auto_refresh_access_token(),
    {
        self.auto_refresh_access_token
    }
}

/// `r` is a new request: `method` to `url` with no query, the given body and response handling, reacting to rate
/// limits and refreshing expired access tokens.
pub open spec fn is_new_request<TClient, TResponse, TBody, TReturn>(
    r: RequestBuilder<TClient, TResponse, TBody, TReturn>,
    method: HttpMethod,
    url: Seq<char>,
    body: Option<TBody>,
    handler: ResponseHandler,
) -> bool {
    &&& r.spec_method() == method
    &&& r.spec_base_url() == url
    &&& r.spec_query().len() == 0
    &&& r.spec_body() == body
    &&& r.spec_response_handler() == handler
    &&& r.spec_react_to_rate_limit()
    &&& r.spec_auto_refresh_access_token()
}

/// Options available in each request builder.
pub trait BaseRequestBuilder: Sized {
    /// Whether the request waits out rate limits and is sent again.
    spec fn spec_reacts_to_rate_limit(&self) -> bool;

    /// Whether an expired access token is refreshed and the request sent again.
    spec fn spec_refreshes_access_token(&self) -> bool;

    /// Whether or not to react to being rate limited by waiting the wanted time in the response. Defaults to `true`.
    fn react_to_rate_limit(self, react_to_rate_limit: bool) -> (r: Self)
        ensures
            r.spec_reacts_to_rate_limit() == react_to_rate_limit,
            r.spec_refreshes_access_token() == self.spec_refreshes_access_token(),
    ;

    /// Whether or not to automatically refresh the client's access token, if applicable, when it expires. Defaults to
    /// `true`.
    fn auto_refresh_access_token(self, auto_refresh_access_token: bool) -> (r: Self)
        ensures
            r.spec_refreshes_access_token() == auto_refresh_access_token,
            r.spec_reacts_to_rate_limit() == self.spec_reacts_to_rate_limit(),
    ;
}

impl<TClient, TResponse, TBody, TReturn> BaseRequestBuilder for RequestBuilder<TClient, TResponse, TBody, TReturn> {
    open spec fn spec_reacts_to_rate_limit(&self) -> bool {
        self.spec_react_to_rate_limit()
    }

    open spec fn spec_refreshes_access_token(&self) -> bool {
        self.spec_auto_refresh_access_token()
    }

    fn react_to_rate_limit(self, react_to_rate_limit: bool) -> (r: Self)
        ensures
            r.spec_query() == self.spec_query(),
            r.spec_method() == self.spec_method(),
            r.spec_base_url() == self.spec_base_url(),
            r.spec_client() == self.spec_client(),
            r.spec_body() == self.spec_body(),
            r.spec_response_handler() == self.spec_response_handler(),
    {
        proof {
            use_type_invariant(&self);
        }
        RequestBuilder { react_to_rate_limit, ..self }
    }

    fn auto_refresh_access_token(self, auto_refresh_access_token: bool) -> (r: Self)
        ensures
            r.spec_query() == self.spec_query(),
            r.spec_method() == self.spec_method(),
            r.spec_base_url() == self.spec_base_url(),
            r.spec_client() == self.spec_client(),
            r.spec_body() == self.spec_body(),
            r.spec_response_handler() == self.spec_response_handler(),
    {
        proof {
            use_type_invariant(&self);
        }
        RequestBuilder { auto_refresh_access_token, ..self }
    }
}

} // verus!
