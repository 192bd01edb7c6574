//! The denial message shown to a non-admin caller: one line drawn at
//! random from a fixed list. The draw goes through rand; everything
//! proved here holds whatever the generator returns.

use rand::Rng;
use vstd::prelude::*;

verus! {

/// rand's thread-local generator, used for the one random draw.
#[verifier::external_type_specification]
#[verifier::external_body]
pub struct ExThreadRng(rand::rngs::ThreadRng);

/// Relies on rand::thread_rng: a handle to the thread-local generator.
#[verifier::external_body]
fn fresh_rng() -> rand::rngs::ThreadRng {
    rand::thread_rng()
}

/// Relies on Rng::gen_range over `0..n`: the sample lies in the range,
/// so strictly below `n`; the call panics on an empty range, so `n`
/// must be positive. Nothing else can be said of a random draw.
#[verifier::external_body]
fn rng_below(rng: &mut rand::rngs::ThreadRng, n: usize) -> (r: usize)
    requires
        n >= 1,
    ensures
        r < n,
{
    rng.gen_range(0..n)
}

pub open spec fn spec_denial_message(i: int) -> Seq<char> {
    if i == 0 {
        "[BUZZER]"@
    } else if i == 1 {
        "Your princess is in another castle"@
    } else if i == 2 {
        "Absolutely not"@
    } else if i == 3 {
        "Get lost"@
    } else if i == 4 {
        "Sucks to be you"@
    } else if i == 5 {
        "No admin, laugh at this user"@
    } else if i == 6 {
        "Admin dashboard"@
    } else if i == 7 {
        "Why are we here? Just to suffer?"@
    } else if i == 8 {
        "You hacked the mainframe! Congrats."@
    } else {
        "You're an admin, Harry"@
    }
}

/// The denial message under a drawn index: the fixed table that the
/// random draw selects from.
pub fn denial_message(idx: usize) -> (r: &'static str)
    requires
        idx < 10,
    ensures
        r@ == spec_denial_message(idx as int),
{
    if idx == 0 {
        "[BUZZER]"
    } else if idx == 1 {
        "Your princess is in another castle"
    } else if idx == 2 {
        "Absolutely not"
    } else if idx == 3 {
        "Get lost"
    } else if idx == 4 {
        "Sucks to be you"
    } else if idx == 5 {
        "No admin, laugh at this user"
    } else if idx == 6 {
        "Admin dashboard"
    } else if idx == 7 {
        "Why are we here? Just to suffer?"
    } else if idx == 8 {
        "You hacked the mainframe! Congrats."
    } else {
        "You're an admin, Harry"
    }
}

/// Pick one of the ten denial messages at random; whatever the
/// generator returns, the result is one of the ten.
pub fn get_random_message() -> (r: String)
    ensures
        exists|i: int| 0 <= i < 10 && r@ == spec_denial_message(i),
{
    let mut rng = fresh_rng();
    let idx = rng_below(&mut rng, 10);
    let m = denial_message(idx);
    proof {
        assert(m@ == spec_denial_message(idx as int));
        assert(0 <= idx < 10);
    }
    m.to_owned()
}

} // verus!
