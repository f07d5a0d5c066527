//! The contacts of the last second, oldest first.
use crate::projectile::{ArmorHit, HIT_MEMORY_NS};
use vstd::prelude::*;

verus! {

/// A contact is less than a second old.
pub open spec fn recent(hit: ArmorHit, now: int) -> bool {
    now - hit.time_ns < HIT_MEMORY_NS
}

/// The contacts that are less than a second old.
pub open spec fn younger(hits: Seq<ArmorHit>, now: int) -> Seq<ArmorHit> {
    hits.filter(|hit: ArmorHit| recent(hit, now))
}

/// Contacts are of the last second and in the order of their times.
pub open spec fn in_memory(hits: Seq<ArmorHit>, now: int) -> bool {
    &&& forall|i: int|
        0 <= i < hits.len() ==> (#[trigger] hits[i]).time_ns <= now && recent(hits[i], now)
    &&& forall|i: int, j: int|
        0 <= i < j < hits.len() ==> (#[trigger] hits[i]).time_ns <= (#[trigger] hits[j]).time_ns
}

/// What is left of contacts in memory is in memory.
pub proof fn younger_is_in_memory(hits: Seq<ArmorHit>, before: int, now: int)
    requires
        in_memory(hits, before),
        before <= now,
    ensures
        in_memory(younger(hits, now), now),
        younger(hits, now).len() <= hits.len(),
        younger(hits, now).len() > 0 ==> younger(hits, now).last().time_ns
            <= hits.last().time_ns,
    decreases hits.len(),
{
    reveal(Seq::filter);
    if hits.len() > 0 {
        let head = hits.drop_last();
        assert forall|i: int| 0 <= i < head.len() implies (#[trigger] head[i]).time_ns <= before
            && recent(head[i], before) by {
            assert(head[i] == hits[i]);
        }
        younger_is_in_memory(head, before, now);
        let kept = younger(head, now);
        let all = younger(hits, now);
        let last = hits.last();
        assert(last == hits[hits.len() - 1]);
        if kept.len() > 0 {
            assert(head.len() > 0);
            assert(head.last() == hits[hits.len() - 2]);
            assert(kept.last().time_ns <= last.time_ns);
        }
        if recent(last, now) {
            assert(all == kept.push(last));
            assert forall|i: int, j: int| 0 <= i < j < all.len() implies (
            #[trigger] all[i]).time_ns <= (#[trigger] all[j]).time_ns by {
                assert(all[i] == kept[i]);
                if j < kept.len() {
                    assert(all[j] == kept[j]);
                } else {
                    assert(all[j] == last);
                    assert(kept[i].time_ns <= kept.last().time_ns) by {
                        if i < kept.len() - 1 {
                            assert(kept[i].time_ns <= kept[kept.len() - 1].time_ns);
                        }
                    }
                }
            }
            assert forall|i: int| 0 <= i < all.len() implies (#[trigger] all[i]).time_ns <= now
                && recent(all[i], now) by {
                if i < kept.len() {
                    assert(all[i] == kept[i]);
                }
            }
        } else {
            assert(all == kept);
        }
    }
}

/// Dropping old contacts sooner and again later leaves what dropping them later
/// does.
pub proof fn dropping_in_steps(hits: Seq<ArmorHit>, sooner: int, later: int)
    requires
        sooner <= later,
    ensures
        younger(younger(hits, sooner), later) == younger(hits, later),
    decreases hits.len(),
{
    reveal(Seq::filter);
    if hits.len() > 0 {
        dropping_in_steps(hits.drop_last(), sooner, later);
        let kept = younger(hits.drop_last(), sooner);
        if recent(hits.last(), sooner) {
            assert(kept.push(hits.last()).drop_last() =~= kept);
        }
    }
}

/// Contacts in memory are all kept.
pub proof fn memory_is_kept(hits: Seq<ArmorHit>, now: int)
    requires
        in_memory(hits, now),
    ensures
        younger(hits, now) == hits,
    decreases hits.len(),
{
    reveal(Seq::filter);
    if hits.len() > 0 {
        let head = hits.drop_last();
        assert forall|i: int| 0 <= i < head.len() implies (#[trigger] head[i]).time_ns <= now
            && recent(head[i], now) by {
            assert(head[i] == hits[i]);
        }
        memory_is_kept(head, now);
        assert(hits.last() == hits[hits.len() - 1]);
        assert(head.push(hits.last()) =~= hits);
    } else {
        assert(younger(hits, now) =~= hits);
    }
}

/// Contacts in order with one more in its place, behind those of its time.
pub open spec fn inserted(hits: Seq<ArmorHit>, hit: ArmorHit) -> Seq<ArmorHit>
    decreases hits.len(),
{
    if hits.len() == 0 || hits.last().time_ns <= hit.time_ns {
        hits.push(hit)
    } else {
        inserted(hits.drop_last(), hit).push(hits.last())
    }
}

/// The contacts of the last second among any, in the order of their times.
pub open spec fn settled(hits: Seq<ArmorHit>, now: int) -> Seq<ArmorHit>
    decreases hits.len(),
{
    if hits.len() == 0 {
        Seq::empty()
    } else {
        let head = settled(hits.drop_last(), now);
        if hits.last().time_ns <= now && recent(hits.last(), now) {
            inserted(head, hits.last())
        } else {
            head
        }
    }
}

/// A contact of the last second put in its place keeps contacts in memory.
proof fn inserting_keeps_memory(hits: Seq<ArmorHit>, hit: ArmorHit, now: int)
    requires
        in_memory(hits, now),
        hit.time_ns <= now,
        recent(hit, now),
    ensures
        in_memory(inserted(hits, hit), now),
        inserted(hits, hit).len() == hits.len() + 1,
        inserted(hits, hit).last().time_ns == (if hits.len() > 0 && hits.last().time_ns
            > hit.time_ns {
            hits.last().time_ns
        } else {
            hit.time_ns
        }),
    decreases hits.len(),
{
    let all = inserted(hits, hit);
    if hits.len() > 0 {
        assert(hits.last() == hits[hits.len() - 1]);
        if hits.last().time_ns > hit.time_ns {
            let head = hits.drop_last();
            assert(in_memory(head, now)) by {
                assert forall|i: int| 0 <= i < head.len() implies (#[trigger] head[i]).time_ns
                    <= now && recent(head[i], now) by {
                    assert(head[i] == hits[i]);
                }
            }
            inserting_keeps_memory(head, hit, now);
            let rest = inserted(head, hit);
            if head.len() > 0 {
                assert(head.last() == hits[hits.len() - 2]);
            }
            appending_keeps_memory(rest, hits.last(), now);
        } else {
            appending_keeps_memory(hits, hit, now);
        }
    }
}

/// A contact appended behind earlier ones keeps contacts in memory.
proof fn appending_keeps_memory(hits: Seq<ArmorHit>, hit: ArmorHit, now: int)
    requires
        in_memory(hits, now),
        hit.time_ns <= now,
        recent(hit, now),
        hits.len() > 0 ==> hits.last().time_ns <= hit.time_ns,
    ensures
        in_memory(hits.push(hit), now),
{
    let all = hits.push(hit);
    assert forall|i: int| 0 <= i < all.len() implies (#[trigger] all[i]).time_ns <= now && recent(
        all[i],
        now,
    ) by {
        if i < hits.len() {
            assert(all[i] == hits[i]);
        }
    }
    assert forall|i: int, j: int| 0 <= i < j < all.len() implies (#[trigger] all[i]).time_ns <= (
    #[trigger] all[j]).time_ns by {
        assert(all[i] == hits[i]);
        if j < hits.len() {
            assert(all[j] == hits[j]);
        } else if i < hits.len() - 1 {
            assert(hits[i].time_ns <= hits[hits.len() - 1].time_ns);
        }
    }
}

/// What is settled is in memory.
pub proof fn settling_is_in_memory(hits: Seq<ArmorHit>, now: int)
    ensures
        in_memory(settled(hits, now), now),
    decreases hits.len(),
{
    if hits.len() > 0 {
        settling_is_in_memory(hits.drop_last(), now);
        if hits.last().time_ns <= now && recent(hits.last(), now) {
            inserting_keeps_memory(settled(hits.drop_last(), now), hits.last(), now);
        }
    }
}

/// Contacts in memory are settled.
pub proof fn memory_is_settled(hits: Seq<ArmorHit>, now: int)
    requires
        in_memory(hits, now),
    ensures
        settled(hits, now) == hits,
    decreases hits.len(),
{
    if hits.len() > 0 {
        let head = hits.drop_last();
        assert forall|i: int| 0 <= i < head.len() implies (#[trigger] head[i]).time_ns <= now
            && recent(head[i], now) by {
            assert(head[i] == hits[i]);
        }
        memory_is_settled(head, now);
        assert(hits.last() == hits[hits.len() - 1]);
        if head.len() > 0 {
            assert(head.last() == hits[hits.len() - 2]);
        }
        assert(head.push(hits.last()) =~= hits);
    } else {
        assert(settled(hits, now) =~= hits);
    }
}

/// A contact put before the later ones is in its place.
proof fn inserted_at(hits: Seq<ArmorHit>, hit: ArmorHit, k: int)
    requires
        0 <= k <= hits.len(),
        forall|j: int| k <= j < hits.len() ==> (#[trigger] hits[j]).time_ns > hit.time_ns,
        k > 0 ==> hits[k - 1].time_ns <= hit.time_ns,
    ensures
        inserted(hits, hit) == hits.insert(k, hit),
    decreases hits.len(),
{
    if k == hits.len() {
        assert(hits.insert(k, hit) =~= hits.push(hit));
    } else {
        let head = hits.drop_last();
        assert(hits.last() == hits[hits.len() - 1]);
        inserted_at(head, hit, k);
        assert(hits.insert(k, hit) =~= head.insert(k, hit).push(hits.last()));
    }
}

/// The contacts of the last second among any, in the order of their times.
pub(super) fn settle_hits(hits: &Vec<ArmorHit>, now_ns: u64) -> (r: Vec<ArmorHit>)
    ensures
        r@ == settled(hits@, now_ns as int),
{
    let mut out: Vec<ArmorHit> = Vec::new();
    let mut i: usize = 0;
    while i < hits.len()
        invariant
            i <= hits@.len(),
            out@ == settled(hits@.subrange(0, i as int), now_ns as int),
        decreases hits@.len() - i,
    {
        let hit = hits[i];
        proof {
            let seen = hits@.subrange(0, i + 1);
            assert(seen.drop_last() =~= hits@.subrange(0, i as int));
            assert(seen.last() == hit);
        }
        if hit.time_ns <= now_ns && now_ns - hit.time_ns < HIT_MEMORY_NS {
            let mut k: usize = out.len();
            while k > 0 && out[k - 1].time_ns > hit.time_ns
                invariant
                    k <= out@.len(),
                    forall|j: int| k <= j < out@.len() ==> (#[trigger] out@[j]).time_ns
                        > hit.time_ns,
                decreases k,
            {
                k -= 1;
            }
            proof {
                inserted_at(out@, hit, k as int);
            }
            out.insert(k, hit);
        }
        i += 1;
    }
    proof {
        assert(hits@.subrange(0, i as int) =~= hits@);
    }
    out
}

/// The contacts that are less than a second old.
pub(super) fn retain_recent(hits: &Vec<ArmorHit>, now_ns: u64) -> (r: Vec<ArmorHit>)
    ensures
        r@ == younger(hits@, now_ns as int),
{
    let mut kept: Vec<ArmorHit> = Vec::new();
    let mut i: usize = 0;
    proof {
        reveal(Seq::filter);
        assert(kept@ =~= younger(hits@.subrange(0, 0), now_ns as int));
    }
    while i < hits.len()
        invariant
            i <= hits@.len(),
            kept@ == younger(hits@.subrange(0, i as int), now_ns as int),
        decreases hits@.len() - i,
    {
        let hit = hits[i];
        proof {
            reveal(Seq::filter);
            let seen = hits@.subrange(0, i + 1);
            assert(seen.drop_last() =~= hits@.subrange(0, i as int));
            assert(seen.last() == hit);
        }
        if now_ns.saturating_sub(hit.time_ns) < HIT_MEMORY_NS {
            kept.push(hit);
        }
        i += 1;
    }
    proof {
        assert(hits@.subrange(0, i as int) =~= hits@);
    }
    kept
}

/// Whether contacts are of the last second and in order.
pub(super) fn are_in_memory(hits: &Vec<ArmorHit>, now_ns: u64) -> (r: bool)
    ensures
        r == in_memory(hits@, now_ns as int),
{
    let mut i: usize = 0;
    while i < hits.len()
        invariant
            i <= hits@.len(),
            in_memory(hits@.subrange(0, i as int), now_ns as int),
        decreases hits@.len() - i,
    {
        let hit = hits[i];
        let ghost seen = hits@.subrange(0, i as int);
        let ghost more = hits@.subrange(0, i + 1);
        if hit.time_ns > now_ns || now_ns - hit.time_ns >= HIT_MEMORY_NS {
            proof {
                assert(hits@[i as int] == hit);
            }
            return false;
        }
        if i > 0 && hits[i - 1].time_ns > hit.time_ns {
            proof {
                assert(hits@[i - 1].time_ns > hits@[i as int].time_ns);
            }
            return false;
        }
        proof {
            assert forall|a: int| 0 <= a < more.len() implies (#[trigger] more[a]).time_ns
                <= now_ns && recent(more[a], now_ns as int) by {
                if a < i {
                    assert(more[a] == seen[a]);
                }
            }
            assert forall|a: int, b: int| 0 <= a < b < more.len() implies (
            #[trigger] more[a]).time_ns <= (#[trigger] more[b]).time_ns by {
                assert(more[a] == seen[a]);
                if b < i {
                    assert(more[b] == seen[b]);
                } else {
                    assert(seen[i - 1] == hits@[i - 1]);
                    if a < i - 1 {
                        assert(seen[a].time_ns <= seen[i - 1].time_ns);
                    }
                }
            }
        }
        i += 1;
    }
    proof {
        assert(hits@.subrange(0, i as int) =~= hits@);
    }
    true
}

/// What one more contact adds to those in their place.
proof fn inserted_contains(hits: Seq<ArmorHit>, hit: ArmorHit, other: ArmorHit)
    ensures
        inserted(hits, hit).contains(other) <==> other == hit || hits.contains(other),
    decreases hits.len(),
{
    let all = inserted(hits, hit);
    if hits.len() == 0 || hits.last().time_ns <= hit.time_ns {
        assert(all[hits.len() as int] == hit);
        if hits.contains(other) {
            let i = choose|i: int| 0 <= i < hits.len() && hits[i] == other;
            assert(all[i] == other);
        }
        if all.contains(other) && other != hit {
            let i = choose|i: int| 0 <= i < all.len() && all[i] == other;
            assert(hits[i] == other);
        }
    } else {
        let head = hits.drop_last();
        let rest = inserted(head, hit);
        inserted_contains(head, hit, other);
        assert(all == rest.push(hits.last()));
        assert(all[rest.len() as int] == hits.last());
        assert(hits[hits.len() - 1] == hits.last());
        if rest.contains(other) {
            let i = choose|i: int| 0 <= i < rest.len() && rest[i] == other;
            assert(all[i] == other);
        }
        if all.contains(other) && other != hits.last() {
            let i = choose|i: int| 0 <= i < all.len() && all[i] == other;
            assert(rest[i] == other);
        }
        if hits.contains(other) && other != hits.last() {
            let i = choose|i: int| 0 <= i < hits.len() && hits[i] == other;
            assert(head[i] == other);
        }
        if head.contains(other) {
            let i = choose|i: int| 0 <= i < head.len() && head[i] == other;
            assert(hits[i] == other);
        }
    }
}

/// Settling drops what lies ahead and what is a second old or older, and nothing
/// else.
pub proof fn settling_keeps_the_last_second(hits: Seq<ArmorHit>, now: int, hit: ArmorHit)
    ensures
        settled(hits, now).contains(hit) <==> hits.contains(hit) && 0 <= now - hit.time_ns
            < 1_000_000_000,
    decreases hits.len(),
{
    if hits.len() > 0 {
        let head = hits.drop_last();
        let last = hits.last();
        settling_keeps_the_last_second(head, now, hit);
        inserted_contains(settled(head, now), last, hit);
        assert(hits[hits.len() - 1] == last);
        if hits.contains(hit) && hit != last {
            let i = choose|i: int| 0 <= i < hits.len() && hits[i] == hit;
            assert(head[i] == hit);
        }
        if head.contains(hit) {
            let i = choose|i: int| 0 <= i < head.len() && head[i] == hit;
            assert(hits[i] == hit);
        }
    }
}

} // verus!
