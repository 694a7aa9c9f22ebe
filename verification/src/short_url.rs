//! Short download paths: eight characters, each a letter or a digit drawn at random.

use rand::Rng;
use vstd::prelude::*;

use crate::text::string_from_chars;

verus! {

/// Characters in a short path.
pub const SHORT_URL_LEN: usize = 8;

/// The letters a short path draws from.
pub const CHARS: [char; 52] = [
    'a', 'b', 'c', 'd', 'e', 'f', 'g', 'h', 'i', 'j', 'k', 'l', 'm', 'n', 'o', 'p', 'q', 'r', 's',
    't', 'u', 'v', 'w', 'x', 'y', 'z', 'A', 'B', 'C', 'D', 'E', 'F', 'G', 'H', 'I', 'J', 'K', 'L',
    'M', 'N', 'O', 'P', 'Q', 'R', 'S', 'T', 'U', 'V', 'W', 'X', 'Y', 'Z',
];

/// The digits a short path draws from.
pub const NUMBERS: [char; 10] = ['1', '2', '3', '4', '5', '6', '7', '8', '9', '0'];

/// A character that a short path may hold: one of `CHARS` or of `NUMBERS`.
pub open spec fn is_short_url_char(c: char) -> bool {
    CHARS@.contains(c) || NUMBERS@.contains(c)
}

/// An ASCII letter or digit.
pub open spec fn is_ascii_alphanumeric(c: char) -> bool {
    ('a' as int <= c as int <= 'z' as int) || ('A' as int <= c as int <= 'Z' as int) || ('0' as int
        <= c as int <= '9' as int)
}

/// Every character a short path may hold is an ASCII letter or digit, so a short path is
/// one segment of a URL path.
pub proof fn lemma_short_url_char_is_alphanumeric(c: char)
    requires
        is_short_url_char(c),
    ensures
        is_ascii_alphanumeric(c),
{
    assert(forall|i: int| 0 <= i < 52 ==> is_ascii_alphanumeric(#[trigger] CHARS@[i]));
    assert(forall|i: int| 0 <= i < 10 ==> is_ascii_alphanumeric(#[trigger] NUMBERS@[i]));
}

/// A well-formed short path: `SHORT_URL_LEN` characters, each a letter or a digit.
pub open spec fn is_short_url(s: Seq<char>) -> bool {
    s.len() == SHORT_URL_LEN && forall|i: int| 0 <= i < s.len() ==> is_short_url_char(#[trigger] s[i])
}

/// Calls `rand::Rng::gen_ratio` on `rand::thread_rng()`, which is true with chance
/// `numerator / denominator` and panics when `denominator` is 0 or below `numerator`. The
/// contract states only what its documentation guarantees of every outcome: a ratio of 0
/// gives false and a ratio of 1 gives true.
#[verifier::external_body]
fn random_ratio(numerator: u32, denominator: u32) -> (hit: bool)
    requires
        0 < denominator,
        numerator <= denominator,
    ensures
        numerator == 0 ==> !hit,
        numerator == denominator ==> hit,
{
    rand::thread_rng().gen_ratio(numerator, denominator)
}

/// Calls `rand::Rng::gen_range(0..upper)` on `rand::thread_rng()`, which draws uniformly
/// and panics on an empty range: the contract claims only that the result is in range.
#[verifier::external_body]
fn random_below(upper: usize) -> (r: usize)
    requires
        0 < upper,
    ensures
        r < upper,
{
    rand::thread_rng().gen_range(0..upper)
}

/// A fresh random short path: for each of its eight characters a fair coin chooses
/// between a random letter and a random digit.
pub fn generate_short_path_url() -> (url: String)
    ensures
        is_short_url(url@),
{
    let mut short_url: Vec<char> = Vec::with_capacity(SHORT_URL_LEN);
    for k in 0..SHORT_URL_LEN
        invariant
            short_url@.len() == k,
            forall|i: int| 0 <= i < k ==> is_short_url_char(#[trigger] short_url@[i]),
    {
        if random_ratio(1, 2) {
            let c = CHARS[random_below(52)];
            assert(CHARS@.contains(c));
            short_url.push(c);
        } else {
            let c = NUMBERS[random_below(10)];
            assert(NUMBERS@.contains(c));
            short_url.push(c);
        }
    }
    string_from_chars(short_url.as_slice())
}

} // verus!
