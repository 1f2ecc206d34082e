//! What is sent to look an invite up: the code taken from what the user typed,
//! the endpoint and the authorization header.

use vstd::prelude::*;
use crate::text::{strip_prefix, starts_with, without_prefix};
use reqwest::header::{HeaderValue, InvalidHeaderValue};

verus! {

#[verifier::external_type_specification]
#[verifier::external_body]
pub struct ExHeaderValue(HeaderValue);

#[verifier::external_type_specification]
#[verifier::external_body]
pub struct ExInvalidHeaderValue(InvalidHeaderValue);

/// Why a request could not be made.
#[derive(Clone, Copy, Debug, PartialEq, Eq, Structural)]
pub enum RequestError {
    /// The token holds a character that no header value may hold.
    InvalidToken,
}

/// Whether a header value may hold `c`: a tab, or anything but a control
/// character of ASCII.
pub open spec fn header_char_ok(c: char) -> bool {
    c == '\t' || (c as u32 >= 32 && c as u32 != 127)
}

/// Whether a header value may hold the text `s`.
pub open spec fn header_text_ok(s: Seq<char>) -> bool {
    forall|i: int| 0 <= i < s.len() ==> header_char_ok(#[trigger] s[i])
}

/// The short form of an invite link.
pub open spec fn short_link_prefix() -> Seq<char> {
    "https://discord.gg/"@
}

/// The long form of an invite link.
pub open spec fn long_link_prefix() -> Seq<char> {
    "https://discord.com/invite/"@
}

/// The code that a typed line stands for: the line without a known link
/// prefix, or the line itself.
pub open spec fn invite_code_of(line: Seq<char>) -> Seq<char> {
    if short_link_prefix().is_prefix_of(line) {
        without_prefix(line, short_link_prefix())
    } else {
        without_prefix(line, long_link_prefix())
    }
}

/// The endpoint that describes the invite with the given code.
pub open spec fn endpoint_of(code: Seq<char>) -> Seq<char> {
    "https://discord.com/api/v10/invites/"@ + code + "?with_counts=true"@
}

/// The value of the authorization header for a bot token.
pub open spec fn authorization_of(token: Seq<char>) -> Seq<char> {
    "Bot "@ + token
}

/// The invite code in a typed line, which holds either a bare code or a full
/// invite link.
pub fn strip_invite_link(line: &str) -> (r: String)
    ensures
        r@ == invite_code_of(line@),
{
    if starts_with(line, "https://discord.gg/") {
        strip_prefix(line, "https://discord.gg/")
    } else {
        strip_prefix(line, "https://discord.com/invite/")
    }
}

/// The endpoint to ask about an invite, counts included.
pub fn invite_endpoint(code: &str) -> (r: String)
    ensures
        r@ == endpoint_of(code@),
{
    String::from_str("https://discord.com/api/v10/invites/").concat(code).concat(
        "?with_counts=true",
    )
}

/// The authorization header's value for a bot token.
pub fn authorization_value(token: &str) -> (r: String)
    ensures
        r@ == authorization_of(token@),
{
    String::from_str("Bot ").concat(token)
}

/// Relies on http's `HeaderValue::from_str`, which reqwest re-exports: it
/// fails exactly when a byte of the text is below 32 but for tab, or is 127.
/// Every other character is ASCII of 32 and up or encodes to bytes of 128 and up.
#[verifier::external_body]
fn header_value(s: &str) -> (r: Result<HeaderValue, InvalidHeaderValue>)
    ensures
        r is Ok <==> header_text_ok(s@),
{
    HeaderValue::from_str(s)
}

/// The authorization header for a bot token; an error when the token holds
/// a character that a header cannot carry.
pub fn authorization_header(token: &str) -> (r: Result<HeaderValue, RequestError>)
    ensures
        r is Ok <==> header_text_ok(authorization_of(token@)),
        r is Err ==> r == Err::<HeaderValue, RequestError>(RequestError::InvalidToken),
{
    let value = authorization_value(token);
    match header_value(value.as_str()) {
        Ok(h) => Ok(h),
        Err(_) => Err(RequestError::InvalidToken),
    }
}

/// Whether a probe found the file: it did when it was answered with a
/// success status (200 to 299); a probe that got no answer found nothing.
pub fn probe_found(status: Option<u16>) -> (r: bool)
    ensures
        r == (status is Some && 200 <= status->0 <= 299),
{
    match status {
        Some(code) => 200 <= code && code <= 299,
        None => false,
    }
}

/// A full invite link, in either known form, yields the code that follows
/// the prefix, with nothing else changed.
pub proof fn lemma_link_prefix_removed(rest: Seq<char>)
    ensures
        invite_code_of(short_link_prefix() + rest) == rest,
        invite_code_of(long_link_prefix() + rest) == rest,
{
    reveal_strlit("https://discord.gg/");
    reveal_strlit("https://discord.com/invite/");
    let s = short_link_prefix() + rest;
    assert(s.subrange(0, short_link_prefix().len() as int) =~= short_link_prefix());
    assert(s.skip(short_link_prefix().len() as int) =~= rest);
    let l = long_link_prefix() + rest;
    assert(l[16] == 'c');
    assert(short_link_prefix()[16] == 'g');
    assert(!short_link_prefix().is_prefix_of(l));
    assert(l.subrange(0, long_link_prefix().len() as int) =~= long_link_prefix());
    assert(l.skip(long_link_prefix().len() as int) =~= rest);
}

} // verus!
