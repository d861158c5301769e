//! Draws from the ChaCha generator of `rand_chacha`, as the fake mode needs
//! them. The generator is not kept as a value: its state is the seed it was
//! made from and its position in the stream of words, two numbers, and each
//! draw here goes from such a state to a value and the position after it. So
//! the same seed and position give the same value, always.
//!
//! Each function here makes a generator from the seed (`seed_from_u64`), moves
//! it to the position (`set_word_pos`), makes one draw and reads the position
//! back (`get_word_pos`). The contracts are taken on trust.

use rand::distributions::{Alphanumeric, Uniform};
use rand::seq::SliceRandom;
use rand::{Rng, SeedableRng};
use rand_chacha::ChaChaRng;
use vstd::prelude::*;

verus! {

/// What `Uniform::new(low, high)` samples at a state, for `u32`.
pub uninterp spec fn drawn_u32(seed: u64, position: u128, low: u32, high: u32) -> (u32, u128);

/// What `Uniform::new(low, high)` samples at a state, for `u64`.
pub uninterp spec fn drawn_u64(seed: u64, position: u128, low: u64, high: u64) -> (u64, u128);

/// What `Alphanumeric` samples at a state.
pub uninterp spec fn drawn_alphanumeric(seed: u64, position: u128) -> (u8, u128);

/// The index of the item that `choose` picks at a state from a slice of
/// `len` items.
pub uninterp spec fn drawn_choice(seed: u64, position: u128, len: usize) -> (usize, u128);

/// Whether a byte is an ASCII letter or digit.
pub open spec fn is_alphanumeric(byte: u8) -> bool {
    (0x30 <= byte <= 0x39) || (0x41 <= byte <= 0x5a) || (0x61 <= byte <= 0x7a)
}

/// `Rng::sample` with `Uniform::new(low, high)`: a value of the half-open
/// range. `Uniform::new` panics unless `low < high`.
#[verifier::external_body]
pub(crate) fn draw_u32(seed: u64, position: u128, low: u32, high: u32) -> (r: (u32, u128))
    requires
        low < high,
    ensures
        r == drawn_u32(seed, position, low, high),
        low <= r.0 < high,
{
    let mut rng = ChaChaRng::seed_from_u64(seed);
    rng.set_word_pos(position);
    let value: u32 = rng.sample(Uniform::new(low, high));
    (value, rng.get_word_pos())
}

/// `Rng::sample` with `Uniform::new(low, high)`: a value of the half-open
/// range. `Uniform::new` panics unless `low < high`.
#[verifier::external_body]
pub(crate) fn draw_u64(seed: u64, position: u128, low: u64, high: u64) -> (r: (u64, u128))
    requires
        low < high,
    ensures
        r == drawn_u64(seed, position, low, high),
        low <= r.0 < high,
{
    let mut rng = ChaChaRng::seed_from_u64(seed);
    rng.set_word_pos(position);
    let value: u64 = rng.sample(Uniform::new(low, high));
    (value, rng.get_word_pos())
}

/// `Rng::sample` with `Alphanumeric`: an ASCII letter or digit.
#[verifier::external_body]
pub(crate) fn draw_alphanumeric(seed: u64, position: u128) -> (r: (u8, u128))
    ensures
        r == drawn_alphanumeric(seed, position),
        is_alphanumeric(r.0),
{
    let mut rng = ChaChaRng::seed_from_u64(seed);
    rng.set_word_pos(position);
    let value: u8 = rng.sample(Alphanumeric);
    (value, rng.get_word_pos())
}

/// `SliceRandom::choose` on a slice of `len` items, each of which is its
/// own index: the index of the item chosen. Which item is chosen depends on
/// the number of items only. `choose` gives nothing for an empty slice.
#[verifier::external_body]
pub(crate) fn draw_choice(seed: u64, position: u128, len: usize) -> (r: (usize, u128))
    requires
        len > 0,
    ensures
        r == drawn_choice(seed, position, len),
        r.0 < len,
{
    let mut rng = ChaChaRng::seed_from_u64(seed);
    rng.set_word_pos(position);
    let slots: Vec<usize> = (0..len).collect();
    let value: usize = *slots.choose(&mut rng).unwrap();
    (value, rng.get_word_pos())
}

} // verus!
