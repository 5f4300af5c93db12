//! The session token: how it is read from a reply's `set-cookie` header, and
//! the rule by which a reply changes it.

use crate::error::ApiError;
use crate::request::{Exchange, Method, Reply, SetCookie};
use crate::text::{contains, occurs, occurs_at};
use vstd::prelude::*;

verus! {

/// A `set-cookie` header is looked at only if it holds this marker.
pub const TOKEN_MARKER: &'static str = "__csrf";

/// In a header, the token's value follows this text.
pub const TOKEN_INTRODUCER: &'static str = "_csrf=";

/// The characters of `s` up to its first `;`, or all of them if it has none.
pub open spec fn up_to_semicolon(s: Seq<char>) -> Seq<char>
    decreases s.len(),
{
    if s.len() == 0 || s[0] == ';' {
        Seq::empty()
    } else {
        seq![s[0]] + up_to_semicolon(s.drop_first())
    }
}

/// The token that a header names: at the first place where `_csrf=` stands
/// before a character other than `;`, the characters after the `=` up to the
/// next `;` or the end of the header.
pub open spec fn captured_token(header: Seq<char>) -> Option<Seq<char>>
    decreases header.len(),
{
    if header.len() == 0 {
        None
    } else if occurs_at(header, TOKEN_INTRODUCER@, 0) && up_to_semicolon(header.skip(6)).len() > 0 {
        Some(up_to_semicolon(header.skip(6)))
    } else {
        captured_token(header.drop_first())
    }
}

/// `regex::Regex::captures`, with the pattern `_csrf=(?P<csrf>[^;]+)`, then
/// `Captures::name` for the group `csrf`.
///
/// The crate finds the leftmost match, and a repetition takes as many
/// characters as it can; the class `[^;]` admits every character but `;`.
/// So the group is what [`captured_token`] describes.
#[verifier::external_body]
fn capture_token(header: &str) -> (r: Option<String>)
    ensures
        r matches Some(token) ==> captured_token(header@) == Some(token@),
        r is None ==> captured_token(header@) is None,
{
    let pattern = regex::Regex::new("_csrf=(?P<csrf>[^;]+)").ok()?;
    let found = pattern.captures(header)?;
    match found.name("csrf") {
        Some(group) => Some(group.as_str().to_string()),
        None => None,
    }
}

/// The token that an empty session takes from a header: the captured token
/// if the header holds the marker and names one, and else the empty token.
pub open spec fn token_from(header: Seq<char>) -> Seq<char> {
    if occurs(header, TOKEN_MARKER@) {
        match captured_token(header) {
            Some(token) => token,
            None => Seq::empty(),
        }
    } else {
        Seq::empty()
    }
}

/// Reads the session token from the text of a `set-cookie` header.
pub fn token_from_header(header: &str) -> (token: String)
    ensures
        token@ == token_from(header@),
{
    if contains(header, TOKEN_MARKER) {
        match capture_token(header) {
            Some(token) => token,
            None => String::new(),
        }
    } else {
        String::new()
    }
}

/// The session looks at the reply's header and cannot read it: the request
/// was write-style, no token is held yet, and the header is not text.
pub open spec fn cookie_refused(token: Seq<char>, method: Method, exchange: Exchange) -> bool {
    &&& method == Method::Post
    &&& token.len() == 0
    &&& exchange matches Exchange::Answered(reply)
    &&& reply.set_cookie is Unreadable
}

/// The session token after an exchange.
///
/// Only the reply to a write-style request can set the token, and only
/// while none is held: a token, once held, is never replaced.
pub open spec fn token_after(token: Seq<char>, method: Method, exchange: Exchange) -> Seq<char> {
    if method == Method::Post && token.len() == 0 {
        match exchange {
            Exchange::Answered(reply) => match reply.set_cookie {
                SetCookie::Text(header) => token_from(header@),
                _ => token,
            },
            Exchange::Failed => token,
        }
    } else {
        token
    }
}

/// What an exchange hands to the decoder: the reply's body, whatever the
/// status code was, or the reason why there is none.
pub open spec fn received(token: Seq<char>, method: Method, exchange: Exchange) -> Result<
    Seq<char>,
    ApiError,
> {
    match exchange {
        Exchange::Failed => Err(ApiError::Transport),
        Exchange::Answered(reply) => if cookie_refused(token, method, exchange) {
            Err(ApiError::Protocol)
        } else {
            Ok(reply.body@)
        },
    }
}

/// The token after a run of write-style exchanges, one after another.
pub open spec fn token_after_all(token: Seq<char>, exchanges: Seq<Exchange>) -> Seq<char>
    decreases exchanges.len(),
{
    if exchanges.len() == 0 {
        token
    } else {
        token_after(
            token_after_all(token, exchanges.drop_last()),
            Method::Post,
            exchanges.last(),
        )
    }
}

/// A token that is held survives every exchange.
pub proof fn lemma_token_is_kept(token: Seq<char>, method: Method, exchange: Exchange)
    requires
        token.len() > 0,
    ensures
        token_after(token, method, exchange) == token,
{
}

/// The first reply whose header names a token sets the session's token, and
/// no later reply changes it, whatever token that reply names.
pub proof fn lemma_first_token_wins(first: Exchange, later: Exchange)
    ensures
        token_after(Seq::empty(), Method::Post, first).len() > 0 ==> token_after(
            token_after(Seq::empty(), Method::Post, first),
            Method::Post,
            later,
        ) == token_after(Seq::empty(), Method::Post, first),
        forall|header: String, body: String, token: Seq<char>|
            first == Exchange::Answered(Reply { set_cookie: SetCookie::Text(header), body }) && occurs(header@, TOKEN_MARKER@) && captured_token(header@) == Some(token)
                ==> token_after(Seq::empty(), Method::Post, first) == token,
{
}

/// Once a run of exchanges has left a token, any longer run leaves the same
/// token.
pub proof fn lemma_token_is_stable(token: Seq<char>, exchanges: Seq<Exchange>, k: int)
    requires
        0 <= k <= exchanges.len(),
        token_after_all(token, exchanges.take(k)).len() > 0,
    ensures
        token_after_all(token, exchanges) == token_after_all(token, exchanges.take(k)),
    decreases exchanges.len(),
{
    if k == exchanges.len() {
        assert(exchanges.take(k) =~= exchanges);
    } else {
        assert(exchanges.drop_last().take(k) =~= exchanges.take(k));
        lemma_token_is_stable(token, exchanges.drop_last(), k);
    }
}

} // verus!
