use vstd::prelude::*;

use crate::auth::{auth_strategies, AuthError, Token};

verus! {

/// What a request presented as its credential.
#[derive(Debug)]
pub enum Presented {
    /// An `Authorization` header, or `None` where it is not valid text.
    Header(Option<String>),
    /// No header: the `token` query parameter, if there is one.
    Query(Option<String>),
}

/// A credential and the strategy that checks it.
#[derive(Debug)]
pub enum Credential {
    /// A signed token, decoded and validated.
    Bearer(String),
    /// The shared server secret.
    Secret(String),
}

/// A request's resolved token.
#[derive(Debug)]
pub struct Authorization(pub Token);

/// The whitespace that separates the parts of a header: space, tab, line
/// feed, form feed and carriage return.
pub open spec fn is_space(c: char) -> bool {
    c == ' ' || c == '\t' || c == '\n' || c == '\x0C' || c == '\r'
}

/// The first index from `i` on that does not hold whitespace, or the end.
pub open spec fn skip_space(s: Seq<char>, i: nat) -> nat
    decreases s.len() - i,
{
    if i < s.len() && is_space(s[i as int]) {
        skip_space(s, i + 1)
    } else {
        i
    }
}

/// The first index from `i` on that holds whitespace, or the end.
pub open spec fn skip_word(s: Seq<char>, i: nat) -> nat
    decreases s.len() - i,
{
    if i < s.len() && !is_space(s[i as int]) {
        skip_word(s, i + 1)
    } else {
        i
    }
}

/// Where the first token of `h` starts.
pub open spec fn first_start(h: Seq<char>) -> nat {
    skip_space(h, 0)
}

/// Where the first token of `h` ends.
pub open spec fn first_end(h: Seq<char>) -> nat {
    skip_word(h, first_start(h))
}

/// Where the second token of `h` starts.
pub open spec fn second_start(h: Seq<char>) -> nat {
    skip_space(h, first_end(h))
}

/// Where the second token of `h` ends.
pub open spec fn second_end(h: Seq<char>) -> nat {
    skip_word(h, second_start(h))
}

/// `h` is exactly two tokens separated by whitespace, with any whitespace
/// around them.
pub open spec fn has_two_tokens(h: Seq<char>) -> bool {
    &&& first_start(h) < first_end(h)
    &&& second_start(h) < second_end(h)
    &&& skip_space(h, second_end(h)) == h.len()
}

/// The strategy name of a header of two tokens.
pub open spec fn header_strategy(h: Seq<char>) -> Seq<char> {
    h.subrange(first_start(h) as int, first_end(h) as int)
}

/// The credential of a header of two tokens.
pub open spec fn header_value(h: Seq<char>) -> Seq<char> {
    h.subrange(second_start(h) as int, second_end(h) as int)
}

/// What a presented credential resolves to: a header must be a strategy
/// and a value separated by whitespace, and name `Bearer` or `Secret`; a
/// query token is a bearer token; no credential at all is refused.
pub open spec fn resolves_to(p: Presented, r: Result<Credential, AuthError>) -> bool {
    match p {
        Presented::Header(None) => r is Err && r->Err_0 is InvalidAuthHeader,
        Presented::Header(Some(h)) => if !has_two_tokens(h@) {
            r is Err && r->Err_0 is InvalidAuthHeader
        } else if header_strategy(h@) == "Bearer"@ {
            r matches Ok(Credential::Bearer(v)) && v@ == header_value(h@)
        } else if header_strategy(h@) == "Secret"@ {
            r matches Ok(Credential::Secret(v)) && v@ == header_value(h@)
        } else {
            r matches Err(AuthError::InvalidAuthStrategy(name, accepted)) && name@ == header_strategy(
                h@,
            ) && accepted@.len() == 2 && accepted@[0]@ == "Bearer"@ && accepted@[1]@ == "Secret"@
        },
        Presented::Query(None) => r is Err && r->Err_0 is AuthorizationRequired,
        Presented::Query(Some(t)) => r matches Ok(Credential::Bearer(v)) && v@ == t@,
    }
}

fn is_space_char(c: char) -> (r: bool)
    ensures
        r == is_space(c),
{
    c == ' ' || c == '\t' || c == '\n' || c == '\x0C' || c == '\r'
}

/// Skips whitespace (`space`) or anything else (`!space`) from `start`.
fn skip(h: &str, n: usize, start: usize, space: bool) -> (r: usize)
    requires
        n == h@.len(),
        start <= n,
    ensures
        space ==> r == skip_space(h@, start as nat),
        !space ==> r == skip_word(h@, start as nat),
        start <= r <= n,
{
    let mut i: usize = start;
    while i < n
        invariant
            n == h@.len(),
            start <= i <= n,
            space ==> skip_space(h@, start as nat) == skip_space(h@, i as nat),
            !space ==> skip_word(h@, start as nat) == skip_word(h@, i as nat),
        ensures
            start <= i <= n,
            space ==> skip_space(h@, start as nat) == skip_space(h@, i as nat),
            !space ==> skip_word(h@, start as nat) == skip_word(h@, i as nat),
            i < n ==> is_space(h@[i as int]) != space,
        decreases n - i,
    {
        if is_space_char(h.get_char(i)) != space {
            break;
        }
        i += 1;
    }
    i
}

/// Splits a header into its strategy and value, or gives `None` where it
/// is not exactly two whitespace-separated tokens.
pub fn split_auth_header(h: &str) -> (r: Option<(String, String)>)
    ensures
        r is Some <==> has_two_tokens(h@),
        r matches Some((a, b)) ==> a@ == header_strategy(h@) && b@ == header_value(h@),
{
    let n = h.unicode_len();
    let i = skip(h, n, 0, true);
    let j = skip(h, n, i, false);
    let k = skip(h, n, j, true);
    let l = skip(h, n, k, false);
    let m = skip(h, n, l, true);
    if i < j && k < l && m == n {
        let strategy = h.substring_char(i, j).to_owned();
        let value = h.substring_char(k, l).to_owned();
        Some((strategy, value))
    } else {
        None
    }
}

/// The credential that a request presented, and the strategy for it.
pub fn credential(p: Presented) -> (r: Result<Credential, AuthError>)
    ensures
        resolves_to(p, r),
{
    match p {
        Presented::Header(None) => Err(AuthError::InvalidAuthHeader),
        Presented::Header(Some(h)) => {
            match split_auth_header(h.as_str()) {
                None => Err(AuthError::InvalidAuthHeader),
                Some((strategy, value)) => {
                    let bearer = String::from_str("Bearer");
                    let secret = String::from_str("Secret");
                    if strategy == bearer {
                        Ok(Credential::Bearer(value))
                    } else if strategy == secret {
                        Ok(Credential::Secret(value))
                    } else {
                        Err(AuthError::InvalidAuthStrategy(strategy, auth_strategies()))
                    }
                },
            }
        },
        Presented::Query(None) => Err(AuthError::AuthorizationRequired),
        Presented::Query(Some(t)) => Ok(Credential::Bearer(t)),
    }
}

} // verus!
