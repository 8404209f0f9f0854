//! Passwords for database roles.

use vstd::prelude::*;
use vstd::string::*;

use crate::text;

verus! {

/// The characters that a password is made of.
pub const CHARSET: &'static str = "abcdefghijklmnopqrstuvwxyzABCDEFGHIJKLMNOPQRSTUVWXYZ0123456789";

/// `rand::Rng::gen_range` on the thread's generator draws a number from the
/// range; it panics on an empty one. Nothing more is claimed of the number.
#[verifier::external_body]
fn draw_below(bound: usize) -> (n: usize)
    requires
        bound > 0,
    ensures
        n < bound,
{
    rand::Rng::gen_range(&mut rand::thread_rng(), 0..bound)
}

/// The password that draws of positions in the character set spell.
pub open spec fn spelled(draws: Seq<usize>) -> Seq<char> {
    draws.map_values(|n: usize| CHARSET@[n as int])
}

/// The password that `draws` spell.
pub fn password_from(draws: &Vec<usize>) -> (r: String)
    requires
        forall|i: int| 0 <= i < draws@.len() ==> #[trigger] draws@[i] < CHARSET@.len(),
    ensures
        r@ == spelled(draws@),
{
    let charset = text::chars_of(CHARSET);
    let mut r = String::new();
    let mut i: usize = 0;
    assert(r@ =~= spelled(draws@.take(0)));
    while i < draws.len()
        invariant
            i <= draws@.len(),
            charset@ == CHARSET@,
            forall|k: int| 0 <= k < draws@.len() ==> #[trigger] draws@[k] < CHARSET@.len(),
            r@ == spelled(draws@.take(i as int)),
        decreases draws@.len() - i,
    {
        r.push(charset[draws[i]]);
        i += 1;
        assert(r@ =~= spelled(draws@.take(i as int)));
    }
    assert(draws@.take(i as int) =~= draws@);
    r
}

/// Whether a text has the form of a password: 32 characters of the set.
pub open spec fn is_password(word: Seq<char>) -> bool {
    &&& word.len() == 32
    &&& forall|i: int| 0 <= i < word.len() ==> CHARSET@.contains(#[trigger] word[i])
}

/// A random password. Of its characters nothing is said but that each is one
/// of the set: they depend on chance.
pub fn generate_password() -> (r: String)
    ensures
        is_password(r@),
{
    let bound: usize = CHARSET.len();
    proof {
        charset_bytes();
    }
    let mut draws: Vec<usize> = Vec::new();
    while draws.len() < 32
        invariant
            bound == CHARSET@.len(),
            bound > 0,
            draws@.len() <= 32,
            forall|k: int| 0 <= k < draws@.len() ==> #[trigger] draws@[k] < CHARSET@.len(),
        decreases 32 - draws@.len(),
    {
        draws.push(draw_below(bound));
    }
    password_from(&draws)
}

/// A password has 32 characters, each a letter of either case or a digit, and a
/// draw stands for the letter or the digit in its place: the small letters first,
/// then the capital ones, then the digits.
pub proof fn passwords_are_letters_and_digits(word: Seq<char>, draws: Seq<usize>)
    requires
        forall|i: int| 0 <= i < draws.len() ==> #[trigger] draws[i] < 62,
    ensures
        is_password(word) <==> word.len() == 32 && (forall|i: int|
            0 <= i < word.len() ==> 'a' <= #[trigger] word[i] <= 'z' || 'A' <= word[i] <= 'Z'
                || '0' <= word[i] <= '9'),
        spelled(draws).len() == draws.len(),
        forall|i: int|
            #![trigger spelled(draws)[i]]
            0 <= i < draws.len() ==> spelled(draws)[i] as int == (if draws[i] < 26 {
                'a' as int + draws[i]
            } else if draws[i] < 52 {
                'A' as int + (draws[i] - 26)
            } else {
                '0' as int + (draws[i] - 52)
            }),
{
    reveal_strlit("abcdefghijklmnopqrstuvwxyzABCDEFGHIJKLMNOPQRSTUVWXYZ0123456789");
    assert forall|c: char|
        (#[trigger] CHARSET@.contains(c)) == ('a' <= c <= 'z' || 'A' <= c <= 'Z' || '0' <= c
            <= '9') by {
        if 'a' <= c <= 'z' {
            assert(CHARSET@[c as int - 'a' as int] == c);
        } else if 'A' <= c <= 'Z' {
            assert(CHARSET@[c as int - 'A' as int + 26] == c);
        } else if '0' <= c <= '9' {
            assert(CHARSET@[c as int - '0' as int + 52] == c);
        }
    }
    if is_password(word) {
        assert forall|i: int| 0 <= i < word.len() implies 'a' <= #[trigger] word[i] <= 'z' || 'A'
            <= word[i] <= 'Z' || '0' <= word[i] <= '9' by {
            assert(CHARSET@.contains(word[i]));
        }
    }
}

/// Every character of the set is encoded in one byte.
proof fn charset_bytes()
    ensures
        CHARSET.spec_bytes().len() == CHARSET@.len(),
        CHARSET@.len() == 62,
{
    reveal_strlit("abcdefghijklmnopqrstuvwxyzABCDEFGHIJKLMNOPQRSTUVWXYZ0123456789");
    assert(is_ascii(CHARSET));
    assert(CHARSET.spec_bytes() =~= Seq::new(CHARSET@.len(), |i: int| CHARSET@[i] as u8));
}

} // verus!
