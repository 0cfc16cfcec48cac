//! Confirmation-token generation: a 25-character random alphanumeric
//! string. The token is a bearer credential, so it is drawn from a
//! cryptographically secure generator, not merely a uniform one.

use vstd::prelude::*;

verus! {

/// The token alphabet: ASCII letters and digits.
pub open spec fn is_token_char(c: char) -> bool {
    let u = c as u32;
    (97 <= u && u <= 122) || (65 <= u && u <= 90) || (48 <= u && u <= 57)
}

/// A well-formed confirmation token: exactly 25 characters, all drawn
/// from the token alphabet.
pub open spec fn token_wf(s: Seq<char>) -> bool {
    &&& s.len() == 25
    &&& forall|i: int| 0 <= i < s.len() ==> is_token_char(s[i])
}

/// Relies on rand::rng to hand out the thread-local CSPRNG handle.
#[verifier::external_body]
fn fresh_rng() -> rand::rngs::ThreadRng {
    rand::rng()
}

#[verifier::external_type_specification]
#[verifier::external_body]
pub struct ExThreadRng(rand::rngs::ThreadRng);

/// Relies on rand::Rng::sample with rand::distr::Alphanumeric, which
/// draws one byte uniformly from a-z, A-Z and 0-9; nothing more is
/// assumed of which byte comes back.
#[verifier::external_body]
fn sample_alphanumeric(rng: &mut rand::rngs::ThreadRng) -> (c: char)
    ensures
        is_token_char(c),
{
    char::from(rand::Rng::sample(rng, rand::distr::Alphanumeric))
}

/// Relies on String::push: appends exactly the one character.
#[verifier::external_body]
fn push_char(s: &mut String, c: char)
    ensures
        final(s)@ == old(s)@.push(c),
{
    s.push(c)
}

/// A fresh 25-character alphanumeric confirmation token. Beyond its
/// shape nothing is promised: two calls may, and all but surely do,
/// return different strings.
pub fn generate_subscription_token() -> (t: String)
    ensures
        token_wf(t@),
{
    let mut rng = fresh_rng();
    let mut t = String::new();
    let mut i: usize = 0;
    while i < 25
        invariant
            i <= 25,
            t@.len() == i,
            forall|j: int| 0 <= j < t@.len() ==> is_token_char(t@[j]),
        decreases 25 - i,
    {
        let c = sample_alphanumeric(&mut rng);
        push_char(&mut t, c);
        i += 1;
    }
    t
}

} // verus!
