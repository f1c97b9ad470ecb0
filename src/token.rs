//! Shape check of the access token.

use vstd::prelude::*;

verus! {

/// The pattern that a well-formed access token matches as a whole.
pub open spec fn token_rule() -> Seq<char> {
    "^([a-z0-9]{40})$"@
}

pub open spec fn is_token_char(c: char) -> bool {
    ('a' <= c && c <= 'z') || ('0' <= c && c <= '9')
}

/// Exactly forty characters, each a lowercase ASCII letter or a digit.
pub open spec fn is_token(s: Seq<char>) -> bool {
    s.len() == 40 && forall|i: int| 0 <= i < s.len() ==> is_token_char(#[trigger] s[i])
}

/// Relies on regex::Regex::new and Regex::is_match: the pattern
/// `^([a-z0-9]{40})$`, anchored at both ends, matches exactly the texts of
/// forty characters drawn from `a`-`z` and `0`-`9`.
#[verifier::external_body]
fn regex_is_match(rule: &str, text: &str) -> (r: bool)
    requires
        rule@ == token_rule(),
    ensures
        r == is_token(text@),
{
    match regex::Regex::new(rule) {
        Ok(re) => re.is_match(text),
        Err(_) => false,
    }
}

/// Accepts a token if and only if it has the shape of an access token.
pub fn check_autologin(new: &str) -> (r: bool)
    ensures
        r == is_token(new@),
{
    let rule = "^([a-z0-9]{40})$";
    regex_is_match(rule, new)
}

} // verus!
