//! The seeded stream that chooses rune targets.
use vstd::prelude::*;

verus! {

/// The multiplier of the target selection stream.
pub const RNG_MULTIPLIER: u64 = 0x2545_F491_4F6C_DD1D;

/// Deterministic xorshift64* stream for target selection. Seeded per rune.
#[derive(Clone, Copy, Debug, PartialEq, Eq, Structural)]
pub struct Rng {
    /// The state of the stream.
    pub state: u64,
}

/// The stream that starts at `seed`, or at one when the seed is zero.
pub open spec fn seeded(seed: u64) -> Rng {
    Rng {
        state: if seed == 0 {
            1
        } else {
            seed
        },
    }
}

impl Rng {
    /// The stream's state after one draw.
    pub open spec fn stepped(self) -> Rng {
        let a = self.state ^ (self.state >> 12);
        let b = a ^ (a << 25);
        Rng { state: b ^ (b >> 27) }
    }

    /// The number one draw gives.
    pub open spec fn drawn(self) -> u64 {
        self.stepped().state.wrapping_mul(RNG_MULTIPLIER)
    }

    /// A stream that starts at `seed`, or at one when the seed is zero.
    pub fn new(seed: u64) -> (r: Rng)
        ensures
            r == seeded(seed),
    {
        if seed == 0 {
            Rng { state: 1 }
        } else {
            Rng { state: seed }
        }
    }

    /// Draw one number.
    pub fn next(&mut self) -> (r: u64)
        ensures
            r == old(self).drawn(),
            *final(self) == old(self).stepped(),
    {
        let mut x: u64 = self.state;
        x = x ^ (x >> 12);
        x = x ^ (x << 25);
        x = x ^ (x >> 27);
        self.state = x;
        x.wrapping_mul(RNG_MULTIPLIER)
    }

    /// A uniform index below `n`.
    pub fn below(&mut self, n: usize) -> (r: usize)
        requires
            n > 0,
        ensures
            r as int == old(self).drawn() as int % n as int,
            r < n,
            *final(self) == old(self).stepped(),
    {
        (self.next() % n as u64) as usize
    }
}

/// The mask of every blade.
pub open spec fn all_blades() -> [bool; 5] {
    [true, true, true, true, true]
}

/// The mask of no blade.
pub open spec fn no_blades() -> [bool; 5] {
    [false, false, false, false, false]
}

/// The blades that a hit mask leaves.
pub open spec fn unhit(activated: [bool; 5]) -> [bool; 5] {
    [!activated[0], !activated[1], !activated[2], !activated[3], !activated[4]]
}

/// The mask with one more blade hit.
pub open spec fn with_blade(activated: [bool; 5], blade: int) -> [bool; 5] {
    [
        activated[0] || blade == 0,
        activated[1] || blade == 1,
        activated[2] || blade == 2,
        activated[3] || blade == 3,
        activated[4] || blade == 4,
    ]
}

/// Blades set in a mask.
pub open spec fn marked(mask: [bool; 5]) -> int {
    (if mask[0] { 1int } else { 0 }) + (if mask[1] { 1int } else { 0 }) + (if mask[2] {
        1int
    } else {
        0
    }) + (if mask[3] { 1int } else { 0 }) + (if mask[4] { 1int } else { 0 })
}

/// Count the blades set in a mask.
pub fn count_marked(mask: &[bool; 5]) -> (r: u32)
    ensures
        r == marked(*mask),
{
    let mut n: u32 = 0;
    if mask[0] {
        n += 1;
    }
    if mask[1] {
        n += 1;
    }
    if mask[2] {
        n += 1;
    }
    if mask[3] {
        n += 1;
    }
    if mask[4] {
        n += 1;
    }
    n
}

/// A mask with no blade or with every blade is the empty or the full mask.
pub proof fn lemma_extremes(mask: [bool; 5])
    ensures
        marked(mask) == 0 <==> mask == no_blades(),
        marked(mask) == 5 <==> mask == all_blades(),
{
    if marked(mask) == 0 {
        assert(mask =~= no_blades());
    }
    if marked(mask) == 5 {
        assert(mask =~= all_blades());
    }
}

/// The blades below `n` that are candidates, in ascending order.
pub open spec fn options(candidates: [bool; 5], n: int) -> Seq<u32>
    decreases n,
{
    if n <= 0 {
        Seq::empty()
    } else if candidates[n - 1] {
        options(candidates, n - 1).push((n - 1) as u32)
    } else {
        options(candidates, n - 1)
    }
}

/// The blade that is lit next among `candidates`: one drawn from the stream,
/// or the lowest for the training policy.
pub open spec fn picked(candidates: [bool; 5], rng: Option<Rng>) -> Option<u32> {
    let all = options(candidates, 5);
    if all.len() == 0 {
        None
    } else {
        match rng {
            Some(stream) => Some(all[stream.drawn() as int % all.len() as int]),
            None => Some(all[0]),
        }
    }
}

/// The stream after a pick among `candidates`: a pick draws once, unless there
/// is nothing to pick from.
pub open spec fn picked_rng(candidates: [bool; 5], rng: Option<Rng>) -> Option<Rng> {
    match rng {
        Some(stream) if options(candidates, 5).len() > 0 => Some(stream.stepped()),
        _ => rng,
    }
}

/// Every option is a candidate, and they ascend.
proof fn options_are_candidates(candidates: [bool; 5], n: int)
    requires
        0 <= n <= 5,
    ensures
        options(candidates, n).len() <= n,
        forall|i: int|
            0 <= i < options(candidates, n).len() ==> {
                let blade = #[trigger] options(candidates, n)[i];
                blade < n && candidates[blade as int]
            },
        forall|b: int|
            0 <= b < n && #[trigger] candidates[b] ==> options(candidates, n).contains(b as u32),
    decreases n,
{
    if n > 0 {
        options_are_candidates(candidates, n - 1);
        let shorter = options(candidates, n - 1);
        let all = options(candidates, n);
        assert forall|b: int| 0 <= b < n && #[trigger] candidates[b] implies all.contains(
            b as u32,
        ) by {
            if b == n - 1 {
                assert(all[all.len() - 1] == b as u32);
            } else {
                let i = choose|i: int| 0 <= i < shorter.len() && shorter[i] == b as u32;
                assert(all[i] == b as u32);
            }
        }
    }
}

/// A picked blade is a candidate, and only an empty mask leaves nothing to
/// pick.
pub proof fn picked_is_candidate(candidates: [bool; 5], rng: Option<Rng>)
    ensures
        match picked(candidates, rng) {
            Some(blade) => blade < 5 && candidates[blade as int],
            None => forall|b: int| 0 <= b < 5 ==> !#[trigger] candidates[b],
        },
{
    options_are_candidates(candidates, 5);
    let all = options(candidates, 5);
    if all.len() == 0 {
        assert forall|b: int| 0 <= b < 5 implies !#[trigger] candidates[b] by {
            if candidates[b] {
                assert(all.contains(b as u32));
            }
        }
    } else if rng is Some {
        let i = rng->0.drawn() as int % all.len() as int;
        assert(0 <= i < all.len());
        assert(all[i] < 5);
    }
}

/// Pick one blade among `candidates`: random from the stream, or the lowest
/// index for the training policy.
pub fn pick_blade(candidates: &[bool; 5], rng: &mut Option<Rng>) -> (r: Option<u32>)
    ensures
        r == picked(*candidates, *old(rng)),
        *final(rng) == picked_rng(*candidates, *old(rng)),
        match r {
            Some(blade) => blade < 5 && candidates[blade as int],
            None => forall|b: int| 0 <= b < 5 ==> !#[trigger] candidates[b],
        },
{
    let mut all: Vec<u32> = Vec::new();
    let mut blade: u32 = 0;
    while blade < 5
        invariant
            blade <= 5,
            all@ == options(*candidates, blade as int),
        decreases 5 - blade,
    {
        if candidates[blade as usize] {
            all.push(blade);
        }
        blade += 1;
    }
    proof {
        picked_is_candidate(*candidates, *rng);
    }
    if all.len() == 0 {
        return None;
    }
    match rng {
        Some(stream) => {
            let index: usize = stream.below(all.len());
            Some(all[index])
        },
        None => Some(all[0]),
    }
}

} // verus!
