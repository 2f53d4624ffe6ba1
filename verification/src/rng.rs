use vstd::prelude::*;

verus! {

/// 2^32, the modulus of the 32-bit generators.
pub open spec fn two32() -> int {
    0x1_0000_0000
}

/// The classic 32-bit linear congruential step (multiplier 1664525,
/// increment 1013904223), modulo 2^32.
pub open spec fn lcg_next(seed: u32) -> u32 {
    ((seed * 1664525 + 1013904223) % two32()) as u32
}

/// One step of the 32-bit generator shared by the audio, scenery and
/// particle code.
pub fn lcg_step(seed: u32) -> (r: u32)
    ensures
        r == lcg_next(seed),
{
    let wide: u64 = seed as u64 * 1664525 + 1013904223;
    (wide % 0x1_0000_0000) as u32
}

/// Advances a generator held in place and returns its new value.
pub fn lcg_advance(seed: &mut u32) -> (r: u32)
    ensures
        r == lcg_next(*old(seed)),
        *final(seed) == r,
{
    *seed = lcg_step(*seed);
    *seed
}

/// Two integers mixed into one seed: `a * 374761393 + b * 668265263`
/// modulo 2^32.
pub open spec fn mix_pair(a: u32, b: u32) -> u32 {
    ((a * 374761393 + b * 668265263) % two32()) as u32
}

/// The generator step applied to a mixed pair of seeds; gives independent
/// values for each (a, b).
pub fn lcg_pair(a: u32, b: u32) -> (r: u32)
    ensures
        r == lcg_next(mix_pair(a, b)),
{
    let wide: u64 = a as u64 * 374761393 + b as u64 * 668265263;
    let mixed = (wide % 0x1_0000_0000) as u32;
    lcg_step(mixed)
}

/// The finaliser shared by the jitter helpers: xor-shift 16, multiply by
/// 0x45d9f3b modulo 2^32, xor-shift 16.
pub open spec fn avalanche(v: u32) -> u32 {
    let v1 = v ^ (v >> 16u32);
    let v2 = ((v1 * 0x45d9f3b) % two32()) as u32;
    v2 ^ (v2 >> 16u32)
}

fn avalanche_exec(v: u32) -> (r: u32)
    ensures
        r == avalanche(v),
{
    let v1 = v ^ (v >> 16u32);
    let wide: u64 = v1 as u64 * 0x45d9f3b;
    let v2 = (wide % 0x1_0000_0000) as u32;
    v2 ^ (v2 >> 16u32)
}

/// The raw bits behind the per-prop scale jitter of index `i`: a
/// Fibonacci-hash step (multiplier 2654435761, plus 0xDEAD) then the
/// finaliser.
pub open spec fn jitter_bits_of(i: u32) -> u32 {
    avalanche(((i * 2654435761u64 + 0xDEAD) % two32()) as u32)
}

pub fn jitter_bits(i: u32) -> (r: u32)
    ensures
        r == jitter_bits_of(i),
{
    let wide: u64 = i as u64 * 2654435761 + 0xDEAD;
    avalanche_exec((wide % 0x1_0000_0000) as u32)
}

/// The raw bits behind the per-bird offsets of seed `seed`: the generator
/// step then the finaliser.
pub open spec fn flock_bits_of(seed: u32) -> u32 {
    avalanche(lcg_next(seed))
}

pub fn flock_bits(seed: u32) -> (r: u32)
    ensures
        r == flock_bits_of(seed),
{
    avalanche_exec(lcg_step(seed))
}

/// The scatter hash of two signed coordinates and a salt: the coordinates
/// are mixed with two odd multipliers and the salt modulo 2^32, then
/// finished with xor-shifts of 13 and 16 bits around a multiplication by
/// 1274126177. All arithmetic is on the 32-bit pattern, with logical
/// shifts, so the result ranges over all of `u32` and the value mapped onto
/// [0, 1] covers the whole interval.
pub open spec fn scatter_hash_of(a: i32, b: i32, salt: u32) -> u32 {
    let v0 = ((a as u32 as int * 374761393 + b as u32 as int * 668265263 + salt) % two32()) as u32;
    let v1 = v0 ^ (v0 >> 13u32);
    let v2 = ((v1 * 1274126177) % two32()) as u32;
    v2 ^ (v2 >> 16u32)
}

pub fn scatter_hash(a: i32, b: i32, salt: u32) -> (r: u32)
    ensures
        r == scatter_hash_of(a, b, salt),
{
    let ua = a as u32;
    let ub = b as u32;
    let wide: u64 = (ua as u64 * 374761393) % 0x1_0000_0000 + (ub as u64 * 668265263) % 0x1_0000_0000 + salt as u64;
    let v0 = (wide % 0x1_0000_0000) as u32;
    proof {
        vstd::arithmetic::div_mod::lemma_add_mod_noop(ua as int * 374761393, ub as int * 668265263, two32());
        vstd::arithmetic::div_mod::lemma_add_mod_noop(
            (ua as int * 374761393) % two32() + (ub as int * 668265263) % two32(), salt as int, two32());
        vstd::arithmetic::div_mod::lemma_add_mod_noop(
            ua as int * 374761393 + ub as int * 668265263, salt as int, two32());
        vstd::arithmetic::div_mod::lemma_mod_twice(salt as int, two32());
        vstd::arithmetic::div_mod::lemma_mod_twice(
            (ua as int * 374761393) % two32() + (ub as int * 668265263) % two32(), two32());
    }
    let v1 = v0 ^ (v0 >> 13u32);
    let wide2: u64 = v1 as u64 * 1274126177;
    let v2 = (wide2 % 0x1_0000_0000) as u32;
    v2 ^ (v2 >> 16u32)
}

/// The scatter hash reaches the upper half of its range: some coordinates
/// map above one half of [0, 1].
pub proof fn lemma_scatter_reaches_upper_half()
    ensures
        exists|a: i32, b: i32, salt: u32| scatter_hash_of(a, b, salt) >= 0x8000_0000u32,
{
    assert(2u32 ^ (2u32 >> 13u32) == 2u32) by (bit_vector);
    assert(2548252354u32 ^ (2548252354u32 >> 16u32) == 2548279585u32) by (bit_vector);
    assert(scatter_hash_of(0, 0, 2) == 2548279585u32);
}

/// The seed generator used to place the demolition crates.
#[derive(Clone, Copy, Debug, PartialEq, Eq, Structural)]
pub struct CrateLcg {
    pub state: u32,
}

impl CrateLcg {
    pub fn new(seed: u32) -> (r: CrateLcg)
        ensures
            r.state == seed,
    {
        CrateLcg { state: seed }
    }

    /// The next 32-bit value; the float in [0, 1] is this over u32::MAX.
    pub fn next_u32(&mut self) -> (r: u32)
        ensures
            r == lcg_next(old(self).state),
            final(self).state == r,
    {
        self.state = lcg_step(self.state);
        self.state
    }
}

} // verus!
