//! Short peer identifiers for the signaling directory.

use crate::text::{decimal, decimal_text, hex6_text, upper_hex};
use vstd::prelude::*;

verus! {

/// The smallest number that a directory hands out as a peer identifier.
pub const PEER_NUMBER_MIN: u32 = 100_000;

/// The bound below which the numbers that a directory hands out stay.
pub const PEER_NUMBER_END: u32 = 999_999;

/// `rand::thread_rng().gen_range(low..high)`: a random number from `low` up
/// to, but not including, `high`. Nothing else is claimed of it. The call
/// panics on an empty range, which is left out.
#[verifier::external_body]
fn random_in_range(low: u32, high: u32) -> (n: u32)
    requires
        low < high,
    ensures
        low <= n < high,
{
    rand::Rng::gen_range(&mut rand::thread_rng(), low..high)
}

/// The identifier for a peer number: its decimal form.
pub fn peer_id_for(number: u32) -> (id: String)
    ensures
        id@ == decimal(number as nat),
{
    decimal_text(number)
}

/// A short random peer identifier: the decimal form of a number from 100000
/// up to, but not including, 999999. It has six digits.
pub fn generate_peer_id() -> (id: String)
    ensures
        exists|n: u32| PEER_NUMBER_MIN <= n < PEER_NUMBER_END && id@ == decimal(n as nat),
        id@.len() == 6,
{
    let n = random_in_range(PEER_NUMBER_MIN, PEER_NUMBER_END);
    proof {
        lemma_six_digits(n as nat);
    }
    peer_id_for(n)
}

/// A number of six decimal digits has a decimal form of six characters.
proof fn lemma_six_digits(n: nat)
    requires
        100_000 <= n <= 999_999,
    ensures
        decimal(n).len() == 6,
{
    reveal_with_fuel(decimal, 7);
}

/// The identifier that the desktop shell derives from a clock reading: the
/// remainder of the reading by 0xFFFFFF in six upper-case hexadecimal digits.
pub open spec fn seeded_peer_id(seed: u64) -> Seq<char> {
    upper_hex((seed % 0xFF_FFFF) as nat, 6)
}

/// Derives a peer identifier from a clock reading.
pub fn peer_id_from_seed(seed: u64) -> (id: String)
    ensures
        id@ == seeded_peer_id(seed),
{
    hex6_text((seed % 0xFF_FFFF) as u32)
}

} // verus!
