//! The power level of an action: a number drawn from a generator seeded by
//! a hash of the arena's entropy, its name, the round and the player.
use vstd::prelude::*;
use rand::{Rng, SeedableRng};
use rand_chacha::ChaChaRng;
use sha2::{Digest, Sha256};
use crate::arena::state::State;

verus! {

/// The SHA-256 digest of a byte string.
pub uninterp spec fn sha256_digest(data: Seq<u8>) -> Seq<u8>;

/// The number that a ChaCha generator seeded with `seed` draws first from
/// `[low, high)`.
pub uninterp spec fn chacha_gen_range(seed: Seq<u8>, low: i32, high: i32) -> i32;

/// Calls `sha2::Sha256::digest`. Claims that the result is 32 bytes long
/// (the array type says so) and that it is the SHA-256 digest of `data`,
/// a function of `data` alone.
#[verifier::external_body]
fn sha256(data: &[u8]) -> (digest: [u8; 32])
    ensures
        digest@ == sha256_digest(data@),
{
    Sha256::digest(data).into()
}

/// Seeds `rand_chacha::ChaChaRng` with `seed` (`SeedableRng::from_seed`)
/// and calls `rand::Rng::gen_range(low, high)` on it once. Claims what
/// rand documents: the number lies in `[low, high)` (the call panics when
/// `low >= high`, which `requires` rules out), and, the generator being
/// deterministic, that it depends on the seed and the bounds alone.
#[verifier::external_body]
fn seeded_gen_range(seed: [u8; 32], low: i32, high: i32) -> (r: i32)
    requires
        low < high,
    ensures
        low <= r < high,
        r == chacha_gen_range(seed@, low, high),
{
    let mut rng = ChaChaRng::from_seed(seed);
    rng.gen_range(low, high)
}

/// The big-endian bytes of a `u64`.
pub open spec fn be_bytes_u64(x: u64) -> Seq<u8> {
    seq![
        (x >> 56u64) as u8,
        (x >> 48u64) as u8,
        (x >> 40u64) as u8,
        (x >> 32u64) as u8,
        (x >> 24u64) as u8,
        (x >> 16u64) as u8,
        (x >> 8u64) as u8,
        x as u8,
    ]
}

/// The big-endian bytes of an `i32` (its two's complement bits).
pub open spec fn be_bytes_i32(x: i32) -> Seq<u8> {
    let u = x as u32;
    seq![(u >> 24u32) as u8, (u >> 16u32) as u8, (u >> 8u32) as u8, u as u8]
}

/// The encodings are big-endian: read as base-256 digits, most significant
/// first, the bytes of a `u64` give it back, and those of an `i32` give
/// its two's complement bits as a `u32`.
pub proof fn lemma_be_bytes_round_trip(x: u64, y: i32)
    ensures
        be_bytes_u64(x).len() == 8,
        x == ((((((be_bytes_u64(x)[0] as int * 256 + be_bytes_u64(x)[1]) * 256 + be_bytes_u64(
            x,
        )[2]) * 256 + be_bytes_u64(x)[3]) * 256 + be_bytes_u64(x)[4]) * 256 + be_bytes_u64(x)[5])
            * 256 + be_bytes_u64(x)[6]) * 256 + be_bytes_u64(x)[7],
        be_bytes_i32(y).len() == 4,
        y as u32 == ((be_bytes_i32(y)[0] as int * 256 + be_bytes_i32(y)[1]) * 256 + be_bytes_i32(
            y,
        )[2]) * 256 + be_bytes_i32(y)[3],
{
    let u = y as u32;
    assert(((((u >> 24u32) as u8) as u32 * 256 + ((u >> 16u32) as u8) as u32) * 256 + ((u
        >> 8u32) as u8) as u32) * 256 + (u as u8) as u32 == u) by (bit_vector);
    assert((((((((((x >> 56u64) as u8) as u64 * 256 + ((x >> 48u64) as u8) as u64) * 256 + ((x
        >> 40u64) as u8) as u64) * 256 + ((x >> 32u64) as u8) as u64) * 256 + ((x >> 24u64) as u8)
        as u64) * 256 + ((x >> 16u64) as u8) as u64) * 256 + ((x >> 8u64) as u8) as u64) * 256
        + (x as u8) as u64) == x) by (bit_vector);
}

/// The entropy is hashed part after part, in order: one part alone gives
/// its bytes, and the parts of two lists give the first list's bytes
/// followed by the second's.
pub proof fn lemma_concat_all_in_order(ps: Seq<Seq<u8>>, qs: Seq<Seq<u8>>, p: Seq<u8>)
    ensures
        concat_all(seq![p]) == p,
        concat_all(ps + qs) == concat_all(ps) + concat_all(qs),
    decreases qs.len(),
{
    assert(seq![p].drop_last() =~= Seq::<Seq<u8>>::empty());
    assert(concat_all(Seq::<Seq<u8>>::empty()) == Seq::<u8>::empty());
    assert(concat_all(seq![p]) == concat_all(Seq::<Seq<u8>>::empty()) + p);
    assert(Seq::<u8>::empty() + p =~= p);
    if qs.len() == 0 {
        assert(ps + qs =~= ps);
        assert(concat_all(ps) + Seq::<u8>::empty() =~= concat_all(ps));
    } else {
        lemma_concat_all_in_order(ps, qs.drop_last(), p);
        assert((ps + qs).drop_last() =~= ps + qs.drop_last());
        assert((ps + qs).last() == qs.last());
        assert(concat_all(ps) + concat_all(qs.drop_last()) + qs.last() =~= concat_all(ps) + (
        concat_all(qs.drop_last()) + qs.last()));
    }
}

/// The big-endian bytes of a `u64`, as `u64::to_be_bytes` gives them.
pub fn u64_to_be_bytes(x: u64) -> (b: [u8; 8])
    ensures
        b@ == be_bytes_u64(x),
{
    let b = [
        (x >> 56u64) as u8,
        (x >> 48u64) as u8,
        (x >> 40u64) as u8,
        (x >> 32u64) as u8,
        (x >> 24u64) as u8,
        (x >> 16u64) as u8,
        (x >> 8u64) as u8,
        x as u8,
    ];
    assert(b@ =~= be_bytes_u64(x));
    b
}

/// The big-endian bytes of an `i32`, as `i32::to_be_bytes` gives them.
pub fn i32_to_be_bytes(x: i32) -> (b: [u8; 4])
    ensures
        b@ == be_bytes_i32(x),
{
    let u = x as u32;
    let b = [(u >> 24u32) as u8, (u >> 16u32) as u8, (u >> 8u32) as u8, u as u8];
    assert(b@ =~= be_bytes_i32(x));
    b
}

/// The byte strings of a list, one after the other.
pub open spec fn concat_all(parts: Seq<Seq<u8>>) -> Seq<u8>
    decreases parts.len(),
{
    if parts.len() == 0 {
        Seq::empty()
    } else {
        concat_all(parts.drop_last()) + parts.last()
    }
}

/// What is hashed to seed the level of a player's action in a round: the
/// arena's entropy, its name in UTF-8, the round number and the player
/// number, each number in big-endian bytes.
pub open spec fn level_seed(
    entropy: Seq<Seq<u8>>,
    arena_name: Seq<char>,
    round_number: i32,
    player_number: i32,
) -> Seq<u8> {
    concat_all(entropy) + vstd::utf8::encode_utf8(arena_name) + be_bytes_i32(round_number)
        + be_bytes_i32(player_number)
}

/// The level, from 1 to 3, that the player with `player_number` draws for an action in
/// the round numbered `round_number`.
pub open spec fn action_level(
    entropy: Seq<Seq<u8>>,
    arena_name: Seq<char>,
    round_number: i32,
    player_number: i32,
) -> i32 {
    chacha_gen_range(
        sha256_digest(level_seed(entropy, arena_name, round_number, player_number)),
        1,
        4,
    )
}

fn append_bytes(out: &mut Vec<u8>, bytes: &[u8])
    ensures
        final(out)@ == old(out)@ + bytes@,
{
    let mut i: usize = 0;
    while i < bytes.len()
        invariant
            i <= bytes@.len(),
            out@ == old(out)@ + bytes@.subrange(0, i as int),
        decreases bytes@.len() - i,
    {
        out.push(bytes[i]);
        i = i + 1;
        assert(out@ =~= old(out)@ + bytes@.subrange(0, i as int));
    }
    assert(bytes@.subrange(0, i as int) =~= bytes@);
}

/// The bytes hashed to seed a level, built as `level_seed` states.
pub fn level_seed_bytes(state: &State, round_number: i32, player_number: i32) -> (seed: Vec<u8>)
    ensures
        seed@ == level_seed(state@.secret_entropy, state@.arena_name, round_number, player_number),
{
    let mut seed: Vec<u8> = Vec::new();
    let mut i: usize = 0;
    while i < state.secret_entropy.len()
        invariant
            i <= state.secret_entropy@.len(),
            seed@ == concat_all(state@.secret_entropy.subrange(0, i as int)),
        decreases state.secret_entropy@.len() - i,
    {
        let part: &[u8; 8] = &state.secret_entropy[i];
        append_bytes(&mut seed, part.as_slice());
        proof {
            let e = state@.secret_entropy;
            assert(e.subrange(0, i + 1).drop_last() =~= e.subrange(0, i as int));
            assert(e.subrange(0, i + 1).last() == state.secret_entropy@[i as int]@);
        }
        i = i + 1;
    }
    assert(state@.secret_entropy.subrange(0, i as int) =~= state@.secret_entropy);
    append_bytes(&mut seed, state.arena_name.as_str().as_bytes());
    let round_bytes = i32_to_be_bytes(round_number);
    append_bytes(&mut seed, round_bytes.as_slice());
    let player_bytes = i32_to_be_bytes(player_number);
    append_bytes(&mut seed, player_bytes.as_slice());
    seed
}

/// Draws the level of an action: 1, 2 or 3.
pub fn draw_action_level(state: &State, round_number: i32, player_number: i32) -> (level: i32)
    ensures
        level == action_level(state@.secret_entropy, state@.arena_name, round_number, player_number),
        1 <= level <= 3,
{
    let seed = level_seed_bytes(state, round_number, player_number);
    let digest = sha256(seed.as_slice());
    seeded_gen_range(digest, 1, 4)
}

} // verus!
