//! When each armor module last registered a strike.
use crate::target::ArmorTarget;
use vstd::prelude::*;

verus! {

/// Where a module stands in the fixed order of all modules.
pub open spec fn module_rank(target: ArmorTarget) -> (int, int, int) {
    match target {
        ArmorTarget::Outpost { outpost, face } => (0, outpost as int, face as int),
        ArmorTarget::Rune { rune, blade } => (1, rune as int, blade as int),
        ArmorTarget::Chassis { chassis, plate } => (2, chassis as int, plate as int),
        ArmorTarget::Base { base, plate } => (3, base as int, plate as int),
    }
}

/// Whether one module comes before another.
pub open spec fn comes_before(a: ArmorTarget, b: ArmorTarget) -> bool {
    let x = module_rank(a);
    let y = module_rank(b);
    x.0 < y.0 || (x.0 == y.0 && (x.1 < y.1 || (x.1 == y.1 && x.2 < y.2)))
}

/// The fixed order as numbers.
fn rank_of(target: ArmorTarget) -> (r: (u32, u32, u32))
    ensures
        (r.0 as int, r.1 as int, r.2 as int) == module_rank(target),
{
    match target {
        ArmorTarget::Outpost { outpost, face } => (0, outpost, face),
        ArmorTarget::Rune { rune, blade } => (1, rune, blade),
        ArmorTarget::Chassis { chassis, plate } => (2, chassis, plate),
        ArmorTarget::Base { base, plate } => (3, base, plate),
    }
}

/// Whether one module comes before another.
fn before(a: ArmorTarget, b: ArmorTarget) -> (r: bool)
    ensures
        r == comes_before(a, b),
{
    let x = rank_of(a);
    let y = rank_of(b);
    x.0 < y.0 || (x.0 == y.0 && (x.1 < y.1 || (x.1 == y.1 && x.2 < y.2)))
}

/// The last detected strike of each module, in module order.
#[derive(Clone, Debug, PartialEq, Eq)]
pub struct Detections {
    /// Each module with its time; a module occurs once.
    pub entries: Vec<(ArmorTarget, u64)>,
}

/// A list in module order; no module occurs twice.
pub open spec fn ordered(entries: Seq<(ArmorTarget, u64)>) -> bool {
    forall|i: int, j: int|
        0 <= i < j < entries.len() ==> comes_before(
            (#[trigger] entries[i]).0,
            (#[trigger] entries[j]).0,
        )
}

/// The times by module that a list holds.
pub open spec fn times(entries: Seq<(ArmorTarget, u64)>) -> Map<ArmorTarget, u64>
    decreases entries.len(),
{
    if entries.len() == 0 {
        Map::empty()
    } else {
        times(entries.drop_last()).insert(entries.last().0, entries.last().1)
    }
}

/// A list in module order holds each entry's time and no other module.
proof fn times_of_entries(entries: Seq<(ArmorTarget, u64)>)
    requires
        ordered(entries),
    ensures
        forall|i: int|
            0 <= i < entries.len() ==> times(entries).contains_key((#[trigger] entries[i]).0)
                && times(entries)[entries[i].0] == entries[i].1,
        forall|t: ArmorTarget| #[trigger]
            times(entries).contains_key(t) ==> exists|i: int|
                0 <= i < entries.len() && (#[trigger] entries[i]).0 == t,
    decreases entries.len(),
{
    if entries.len() > 0 {
        let rest = entries.drop_last();
        times_of_entries(rest);
        assert forall|i: int| 0 <= i < entries.len() implies times(entries).contains_key(
            (#[trigger] entries[i]).0,
        ) && times(entries)[entries[i].0] == entries[i].1 by {
            if i < entries.len() - 1 {
                assert(rest[i] == entries[i]);
                assert(comes_before(entries[i].0, entries[entries.len() - 1].0));
            }
        }
        assert forall|t: ArmorTarget| #[trigger] times(entries).contains_key(t) implies exists|
            i: int,
        | 0 <= i < entries.len() && (#[trigger] entries[i]).0 == t by {
            if t == entries.last().0 {
                assert(entries[entries.len() - 1].0 == t);
            } else {
                assert(times(rest).contains_key(t));
                let i = choose|i: int| 0 <= i < rest.len() && (#[trigger] rest[i]).0 == t;
                assert(entries[i].0 == t);
            }
        }
    }
}

/// Lists in module order that hold the same times are the same list, so equal
/// fields give equal snapshots.
pub proof fn order_is_canonical(a: Seq<(ArmorTarget, u64)>, b: Seq<(ArmorTarget, u64)>)
    requires
        ordered(a),
        ordered(b),
        times(a) == times(b),
    ensures
        a == b,
    decreases a.len() + b.len(),
{
    times_of_entries(a);
    times_of_entries(b);
    if a.len() == 0 {
        if b.len() > 0 {
            assert(times(b).contains_key(b[0].0));
        }
        assert(a =~= b);
    } else if b.len() == 0 {
        assert(times(a).contains_key(a[0].0));
        assert(a =~= b);
    } else {
        let x = a.last();
        let y = b.last();
        assert(times(b).contains_key(a[a.len() - 1].0));
        assert(times(a).contains_key(b[b.len() - 1].0));
        let i = choose|i: int| 0 <= i < b.len() && (#[trigger] b[i]).0 == x.0;
        let j = choose|j: int| 0 <= j < a.len() && (#[trigger] a[j]).0 == y.0;
        assert(x.0 == y.0) by {
            if i < b.len() - 1 {
                assert(comes_before(b[i].0, b[b.len() - 1].0));
                if j < a.len() - 1 {
                    assert(comes_before(a[j].0, a[a.len() - 1].0));
                }
            }
        }
        assert(x == y) by {
            assert(times(a)[a[a.len() - 1].0] == a[a.len() - 1].1);
            assert(times(b)[b[b.len() - 1].0] == b[b.len() - 1].1);
        }
        let ra = a.drop_last();
        let rb = b.drop_last();
        assert(times(ra) =~= times(rb)) by {
            times_of_entries(ra);
            times_of_entries(rb);
            assert forall|t: ArmorTarget| #[trigger] times(ra).contains_key(t) implies times(
                rb,
            ).contains_key(t) && times(ra)[t] == times(rb)[t] by {
                let k = choose|k: int| 0 <= k < ra.len() && (#[trigger] ra[k]).0 == t;
                assert(a[k].0 == t);
                assert(comes_before(a[k].0, a[a.len() - 1].0));
                assert(t != x.0);
                assert(times(a).contains_key(t));
                assert(times(b).contains_key(t));
            }
            assert forall|t: ArmorTarget| #[trigger] times(rb).contains_key(t) implies times(
                ra,
            ).contains_key(t) by {
                let k = choose|k: int| 0 <= k < rb.len() && (#[trigger] rb[k]).0 == t;
                assert(b[k].0 == t);
                assert(comes_before(b[k].0, b[b.len() - 1].0));
                assert(t != x.0);
                assert(times(b).contains_key(t));
                assert(times(a).contains_key(t));
            }
        }
        order_is_canonical(ra, rb);
        assert(a =~= ra.push(x));
        assert(b =~= rb.push(y));
    }
}

impl View for Detections {
    type V = Map<ArmorTarget, u64>;

    open spec fn view(&self) -> Map<ArmorTarget, u64> {
        times(self.entries@)
    }
}

impl Detections {
    /// Whether the list is in module order.
    pub fn is_ordered(&self) -> (r: bool)
        ensures
            r == ordered(self.entries@),
    {
        let mut i: usize = 1;
        while i < self.entries.len()
            invariant
                1 <= i,
                i <= self.entries@.len() || self.entries@.len() == 0,
                forall|a: int, b: int|
                    0 <= a < b < i && b < self.entries@.len() ==> comes_before(
                        (#[trigger] self.entries@[a]).0,
                        (#[trigger] self.entries@[b]).0,
                    ),
            decreases self.entries@.len() - i,
        {
            if !before(self.entries[i - 1].0, self.entries[i].0) {
                proof {
                    assert(!comes_before(self.entries@[i - 1].0, self.entries@[i as int].0));
                }
                return false;
            }
            proof {
                assert forall|a: int| 0 <= a < i implies comes_before(
                    (#[trigger] self.entries@[a]).0,
                    self.entries@[i as int].0,
                ) by {
                    if a < i - 1 {
                        assert(comes_before(self.entries@[a].0, self.entries@[i - 1].0));
                    }
                }
            }
            i += 1;
        }
        true
    }

    /// The list is in module order.
    pub open spec fn wf(self) -> bool {
        ordered(self.entries@)
    }

    /// No strike yet.
    pub fn new() -> (r: Detections)
        ensures
            r@ == Map::<ArmorTarget, u64>::empty(),
            r.wf(),
    {
        Detections { entries: Vec::new() }
    }

    /// The strikes of a list in any order; of two entries for one module the
    /// later counts.
    pub fn collect(list: &Vec<(ArmorTarget, u64)>) -> (r: Detections)
        ensures
            r@ == times(list@),
            r.wf(),
    {
        let mut out = Detections::new();
        let mut i: usize = 0;
        while i < list.len()
            invariant
                i <= list@.len(),
                out.wf(),
                out@ == times(list@.subrange(0, i as int)),
            decreases list@.len() - i,
        {
            let (target, time_ns): (ArmorTarget, u64) = list[i];
            out.insert(target, time_ns);
            i += 1;
            proof {
                let seen = list@.subrange(0, i as int);
                assert(seen.drop_last() =~= list@.subrange(0, i - 1));
            }
        }
        proof {
            assert(list@.subrange(0, i as int) =~= list@);
        }
        out
    }

    /// When a module last registered a strike.
    pub fn get(&self, target: ArmorTarget) -> (r: Option<u64>)
        requires
            self.wf(),
        ensures
            r == (if self@.contains_key(target) {
                Some(self@[target])
            } else {
                None
            }),
    {
        proof {
            times_of_entries(self.entries@);
        }
        let mut i: usize = 0;
        while i < self.entries.len()
            invariant
                i <= self.entries@.len(),
                self.wf(),
                forall|k: int| 0 <= k < i ==> (#[trigger] self.entries@[k]).0 != target,
                forall|k: int|
                    0 <= k < self.entries@.len() ==> self@.contains_key(
                        (#[trigger] self.entries@[k]).0,
                    ) && self@[self.entries@[k].0] == self.entries@[k].1,
            decreases self.entries@.len() - i,
        {
            if self.entries[i].0 == target {
                return Some(self.entries[i].1);
            }
            i += 1;
        }
        None
    }

    /// Record a module's strike.
    pub fn insert(&mut self, target: ArmorTarget, time_ns: u64)
        requires
            old(self).wf(),
        ensures
            final(self)@ == old(self)@.insert(target, time_ns),
            final(self).wf(),
    {
        let ghost start = self.entries@;
        proof {
            times_of_entries(start);
        }
        let mut i: usize = 0;
        while i < self.entries.len() && before(self.entries[i].0, target)
            invariant
                i <= self.entries@.len(),
                self.entries@ == start,
                forall|k: int|
                    0 <= k < i ==> comes_before((#[trigger] self.entries@[k]).0, target),
            decreases self.entries@.len() - i,
        {
            i += 1;
        }
        let here = i < self.entries.len() && self.entries[i].0 == target;
        if here {
            self.entries.set(i, (target, time_ns));
            proof {
                assert(ordered(self.entries@));
            }
        } else {
            self.entries.insert(i, (target, time_ns));
            proof {
                if i < start.len() {
                    assert(comes_before(target, start[i as int].0));
                }
                assert forall|a: int, b: int|
                    0 <= a < b < self.entries@.len() implies comes_before(
                    (#[trigger] self.entries@[a]).0,
                    (#[trigger] self.entries@[b]).0,
                ) by {
                    if a < i && b == i {
                        assert(comes_before(start[a].0, target));
                    } else if a == i && b > i + 1 {
                        assert(comes_before(start[i as int].0, start[b - 1].0));
                    } else if a < i && b > i {
                        assert(comes_before(start[a].0, start[b - 1].0));
                    } else if a > i {
                        assert(comes_before(start[a - 1].0, start[b - 1].0));
                    }
                }
            }
        }
        proof {
            let now = self.entries@;
            times_of_entries(now);
            assert(now[i as int] == (target, time_ns));
            assert(times(now) =~= times(start).insert(target, time_ns)) by {
                assert forall|t: ArmorTarget| #[trigger] times(now).contains_key(t) implies times(
                    start,
                ).insert(target, time_ns).contains_key(t) && times(now)[t] == times(
                    start,
                ).insert(target, time_ns)[t] by {
                    let k = choose|k: int| 0 <= k < now.len() && (#[trigger] now[k]).0 == t;
                    if k != i {
                        let m = if here || k < i {
                            k
                        } else {
                            k - 1
                        };
                        assert(start[m] == now[k]);
                        if k < i {
                            assert(comes_before(now[k].0, now[i as int].0));
                        } else {
                            assert(comes_before(now[i as int].0, now[k].0));
                        }
                        assert(times(start).contains_key(start[m].0));
                    }
                }
                assert forall|t: ArmorTarget|
                    #[trigger] times(start).insert(target, time_ns).contains_key(t) implies times(
                    now,
                ).contains_key(t) by {
                    if t != target {
                        assert(times(start).contains_key(t));
                        let k = choose|k: int|
                            0 <= k < start.len() && (#[trigger] start[k]).0 == t;
                        let m = if here || k < i {
                            k
                        } else {
                            k + 1
                        };
                        assert(now[m] == start[k]);
                        assert(times(now).contains_key(now[m].0));
                    } else {
                        assert(times(now).contains_key(now[i as int].0));
                    }
                }
            }
        }
    }
}

/// Modules are listed outposts first, then runes, robots and bases, each by
/// their number and then by the face, blade or plate.
pub proof fn modules_have_their_order(a: u32, b: u32, c: u32, d: u32)
    ensures
        comes_before(
            ArmorTarget::Outpost { outpost: a, face: b },
            ArmorTarget::Rune { rune: c, blade: d },
        ),
        comes_before(
            ArmorTarget::Rune { rune: a, blade: b },
            ArmorTarget::Chassis { chassis: c, plate: d },
        ),
        comes_before(
            ArmorTarget::Chassis { chassis: a, plate: b },
            ArmorTarget::Base { base: c, plate: d },
        ),
        comes_before(
            ArmorTarget::Outpost { outpost: a, face: b },
            ArmorTarget::Outpost { outpost: c, face: d },
        ) <==> a < c || a == c && b < d,
        comes_before(
            ArmorTarget::Rune { rune: a, blade: b },
            ArmorTarget::Rune { rune: c, blade: d },
        ) <==> a < c || a == c && b < d,
        comes_before(
            ArmorTarget::Chassis { chassis: a, plate: b },
            ArmorTarget::Chassis { chassis: c, plate: d },
        ) <==> a < c || a == c && b < d,
        comes_before(
            ArmorTarget::Base { base: a, plate: b },
            ArmorTarget::Base { base: c, plate: d },
        ) <==> a < c || a == c && b < d,
{
}

} // verus!
