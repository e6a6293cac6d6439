//! Integer side of the paintball ballistics: the deterministic random stream
//! that spreads the pellets of a shot, the fate of a paintball in a frame,
//! and the cap on trail segments.
use vstd::prelude::*;

verus! {

/// Largest number of trail segments kept alive; younger ones beyond it go.
pub const MAX_TRAILS: usize = 60;

/// One step of the seed mixer (a SplitMix64 round).
pub open spec fn spec_mix_seed(x: u64) -> u64 {
    let a = vstd::wrapping::u64_specs::wrapping_add(x, 0x9E37_79B9_7F4A_7C15u64);
    let b = vstd::wrapping::u64_specs::wrapping_mul(a ^ (a >> 30u64), 0xBF58_476D_1CE4_E5B9u64);
    let c = vstd::wrapping::u64_specs::wrapping_mul(b ^ (b >> 27u64), 0x94D0_49BB_1331_11EBu64);
    c ^ (c >> 31u64)
}

/// The 24 high bits of a mixed seed: a sample of the unit interval, scaled
/// by 2^24.
pub open spec fn unit_bits(x: u64) -> u32 {
    (x >> 40u64) as u32
}

/// The seed of the pellet stream of shot `seed` with `n` pellets.
pub open spec fn spec_spread_seed(seed: u64, n: usize) -> u64 {
    spec_mix_seed(seed ^ ((n as u64) << 32u64))
}

/// `k` pellets drawn from stream state `s`: each pellet takes a radius sample
/// and then an angle sample.
pub open spec fn pellet_draws(s: u64, k: nat) -> Seq<(u32, u32)>
    decreases k,
{
    if k == 0 {
        Seq::empty()
    } else {
        let s1 = spec_mix_seed(s);
        let s2 = spec_mix_seed(s1);
        seq![(unit_bits(s1), unit_bits(s2))] + pellet_draws(s2, (k - 1) as nat)
    }
}

/// Mixes a seed.
pub fn mix_seed(x: u64) -> (r: u64)
    ensures
        r == spec_mix_seed(x),
{
    let mut x = x.wrapping_add(0x9E37_79B9_7F4A_7C15);
    x = (x ^ (x >> 30)).wrapping_mul(0xBF58_476D_1CE4_E5B9);
    x = (x ^ (x >> 27)).wrapping_mul(0x94D0_49BB_1331_11EB);
    x ^ (x >> 31)
}

/// Advances the stream and returns the next sample of the unit interval,
/// scaled by 2^24 (the caller divides by 2^24).
pub fn next_unit(seed: &mut u64) -> (r: u32)
    ensures
        *final(seed) == spec_mix_seed(*old(seed)),
        r == unit_bits(*final(seed)),
        r < 0x100_0000,
{
    *seed = mix_seed(*seed);
    let r = (*seed >> 40) as u32;
    assert((*seed >> 40u64) < 0x100_0000) by (bit_vector);
    r
}

/// The samples of a shot's `n` pellets, seeded by the shot sequence number.
pub fn spread_samples(seed: u64, n: usize) -> (r: Vec<(u32, u32)>)
    ensures
        r@ == pellet_draws(spec_spread_seed(seed, n), n as nat),
        r@.len() == n,
        forall|i: int| 0 <= i < n ==> r@[i].0 < 0x100_0000 && r@[i].1 < 0x100_0000,
{
    let mut s = mix_seed(seed ^ ((n as u64) << 32));
    let ghost s0 = s;
    let mut r: Vec<(u32, u32)> = Vec::new();
    let mut i: usize = 0;
    while i < n
        invariant
            0 <= i <= n,
            r@ + pellet_draws(s, (n - i) as nat) == pellet_draws(s0, n as nat),
            r@.len() == i,
            forall|j: int| 0 <= j < i ==> r@[j].0 < 0x100_0000 && r@[j].1 < 0x100_0000,
        decreases n - i,
    {
        let ghost before = s;
        let a = next_unit(&mut s);
        let b = next_unit(&mut s);
        proof {
            let rest = pellet_draws(s, (n - i - 1) as nat);
            assert(pellet_draws(before, (n - i) as nat) == seq![(a, b)] + rest);
            assert(r@.push((a, b)) + rest =~= r@ + (seq![(a, b)] + rest));
        }
        r.push((a, b));
        i = i + 1;
    }
    assert(r@ + pellet_draws(s, 0) =~= r@);
    r
}

/// What happens to a paintball at the end of a frame.
#[derive(Debug, Clone, Copy, PartialEq, Eq, Structural)]
pub enum PaintballFate {
    /// It keeps flying.
    Fly,
    /// Its lifetime ran out in the air: it disappears.
    Vanish,
    /// It hit cover or the ground: it leaves a splatter and disappears.
    Splat,
}

pub open spec fn spec_paintball_fate(hit: bool, expired: bool) -> PaintballFate {
    if hit {
        PaintballFate::Splat
    } else if expired {
        PaintballFate::Vanish
    } else {
        PaintballFate::Fly
    }
}

/// A paintball that hit something splats, whether or not its lifetime ran
/// out; one that hit nothing vanishes once its lifetime is over.
pub fn paintball_fate(hit: bool, expired: bool) -> (f: PaintballFate)
    ensures
        f == spec_paintball_fate(hit, expired),
{
    if !hit && expired {
        PaintballFate::Vanish
    } else if hit {
        PaintballFate::Splat
    } else {
        PaintballFate::Fly
    }
}

/// How many trail segments a frame keeps: of the `existing` segments it keeps
/// the first `.0` (in the order they are listed) and of the `new` segments of
/// this frame it spawns the first `.1`. New segments come first, each kind as
/// many as fit, and together they never exceed `MAX_TRAILS`.
pub open spec fn spec_trail_budget(existing: usize, new: usize) -> (usize, usize) {
    let spawn: usize = if new < MAX_TRAILS {
        new
    } else {
        MAX_TRAILS
    };
    let room: usize = (MAX_TRAILS - spawn) as usize;
    let keep: usize = if existing < room {
        existing
    } else {
        room
    };
    (keep, spawn)
}

/// The trail segments a frame keeps and spawns.
pub fn trail_budget(existing: usize, new: usize) -> (r: (usize, usize))
    ensures
        r == spec_trail_budget(existing, new),
        r.0 + r.1 <= MAX_TRAILS,
        r.0 <= existing,
        r.1 <= new,
        existing + new <= MAX_TRAILS ==> r == (existing, new),
{
    let spawn = if new < MAX_TRAILS {
        new
    } else {
        MAX_TRAILS
    };
    let room = MAX_TRAILS - spawn;
    let keep = if existing < room {
        existing
    } else {
        room
    };
    (keep, spawn)
}

/// Whether the existing segment listed as the `ordinal`-th (from 1) goes,
/// when the first `keep` are kept.
pub fn trail_over_cap(ordinal: usize, keep: usize) -> (r: bool)
    ensures
        r == (ordinal > keep),
{
    ordinal > keep
}

/// A paintball that hits something always leaves a splatter; one that hits
/// nothing keeps flying until its lifetime is over and then vanishes without
/// a splatter.
pub proof fn lemma_paintball_fate(hit: bool, expired: bool)
    ensures
        spec_paintball_fate(true, expired) == PaintballFate::Splat,
        spec_paintball_fate(false, true) == PaintballFate::Vanish,
        spec_paintball_fate(false, false) == PaintballFate::Fly,
        spec_paintball_fate(hit, expired) == PaintballFate::Splat <==> hit,
{
}

/// The trails after a frame never exceed the cap, and nothing is dropped
/// while the cap leaves room: a frame keeps all it can.
pub proof fn lemma_trail_cap(existing: usize, new: usize)
    ensures
        ({
            let (keep, spawn) = spec_trail_budget(existing, new);
            &&& keep + spawn <= MAX_TRAILS
            &&& (keep < existing || spawn < new) ==> keep + spawn == MAX_TRAILS
        }),
{
}

} // verus!
