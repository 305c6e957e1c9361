//! Random draws. Every draw goes through one call of `rand`'s thread-local
//! generator; the functions here state what holds of every outcome.

use rand::Rng;
use vstd::prelude::*;

verus! {

/// Draws an integer uniformly from `low..=high` with
/// `rand::Rng::gen_range` on `rand::thread_rng()`.
/// The contract claims only that the result lies in the range, which
/// `gen_range` documents; the range must not be empty, since `gen_range`
/// panics on an empty range. Which value comes out is left unsaid: it rests
/// on chance. (`thread_rng` itself panics if the operating system cannot seed
/// it; that depends on the machine, not on the arguments.)
#[verifier::external_body]
pub(crate) fn random_in(low: i32, high: i32) -> (r: i32)
    requires
        low <= high,
    ensures
        low <= r <= high,
{
    rand::thread_rng().gen_range(low..=high)
}


/// Number of fart sounds (`fart0` to `fart11`).
pub const FART_SOUNDS: i32 = 12;

/// The decimal digit for `d` below ten.
pub open spec fn digit(d: int) -> char {
    (48 + d) as char
}

/// The decimal writing of `n` below one hundred.
pub open spec fn decimal(n: int) -> Seq<char> {
    if n < 10 {
        seq![digit(n)]
    } else {
        seq![digit(n / 10), digit(n % 10)]
    }
}

/// The name of fart sound number `n`: `fart` followed by `n` in decimal.
pub open spec fn fart_sound_name_spec(n: int) -> Seq<char> {
    seq!['f', 'a', 'r', 't'] + decimal(n)
}

fn digit_char(d: u8) -> (c: char)
    requires
        d < 10,
    ensures
        c == digit(d as int),
{
    (48u8 + d) as char
}

/// The name of fart sound number `n` (see `fart_sound_name_spec`).
pub fn fart_sound_name_for(n: u8) -> (r: Vec<char>)
    requires
        n < 100,
    ensures
        r@ == fart_sound_name_spec(n as int),
{
    let mut r: Vec<char> = vec!['f', 'a', 'r', 't'];
    if n < 10 {
        r.push(digit_char(n));
    } else {
        r.push(digit_char(n / 10));
        r.push(digit_char(n % 10));
    }
    assert(r@ =~= fart_sound_name_spec(n as int));
    r
}

/// The name of a fart sound picked at random among the twelve.
pub fn fart_sound_name() -> (r: Vec<char>)
    ensures
        exists|n: int| 0 <= n < FART_SOUNDS && r@ == #[trigger] fart_sound_name_spec(n),
{
    let n = random_in(0, FART_SOUNDS - 1);
    let r = fart_sound_name_for(n as u8);
    assert(r@ == fart_sound_name_spec(n as int));
    r
}

} // verus!
