//! Frames put together from fragments that come in any order.
use super::packet::{
    chunk, chunk_count, chunk_end, chunk_fits, fragment, fragment_read_back, parse_fragment,
    payload, read_fragment, Fragment, CHUNK, HEADER,
};
use super::WireError;
use std::collections::VecDeque;
use vstd::prelude::*;

verus! {

/// Unreliable partial frames older than this are abandoned. A reliable one
/// waits for its retransmission instead.
pub const FRAME_LIFETIME_NS: u64 = 250_000_000;

/// Partial frames at most.
pub const PENDING_FRAMES: usize = 4;

/// A frame still missing fragments.
#[derive(Clone, Debug)]
pub struct PartialFrame {
    /// Its number on this connection.
    pub revision: u64,
    /// It travels on the reliable lane.
    pub reliable: bool,
    /// When its first fragment came.
    pub started_ns: u64,
    /// Its bytes as far as they came.
    pub bytes: Vec<u8>,
    /// Which fragments came.
    pub received: Vec<bool>,
    /// How many did not.
    pub remaining: usize,
}

/// A partial frame as a value.
pub struct Partial {
    /// Its number on this connection.
    pub revision: u64,
    /// It travels on the reliable lane.
    pub reliable: bool,
    /// When its first fragment came.
    pub started_ns: u64,
    /// Its bytes as far as they came.
    pub bytes: Seq<u8>,
    /// Which fragments came.
    pub received: Seq<bool>,
}

impl Partial {
    /// One flag per fragment.
    pub open spec fn wf(self) -> bool {
        self.received.len() == chunk_count(self.bytes.len())
    }

    /// A frame of which nothing has come.
    pub open spec fn fresh(fragment: Fragment, now_ns: u64) -> Partial {
        Partial {
            revision: fragment.revision,
            reliable: fragment.reliable,
            started_ns: now_ns,
            bytes: Seq::new(fragment.length as nat, |i: int| 0u8),
            received: Seq::new(chunk_count(fragment.length as nat), |i: int| false),
        }
    }

    /// With a fragment's bytes in place; one that came before changes nothing.
    pub open spec fn with(self, index: int, part: Seq<u8>) -> Partial {
        if self.received[index] {
            self
        } else {
            Partial {
                bytes: placed(self.bytes, 1000 * index, part),
                received: self.received.update(index, true),
                ..self
            }
        }
    }

    /// Every fragment came.
    pub open spec fn complete(self) -> bool {
        forall|i: int| 0 <= i < self.received.len() ==> #[trigger] self.received[i]
    }

    /// Everything that came is from this frame.
    pub open spec fn part_of(self, bytes: Seq<u8>) -> bool {
        &&& self.bytes.len() == bytes.len()
        &&& forall|i: int|
            0 <= i < self.received.len() && #[trigger] self.received[i] ==> chunk(self.bytes, i)
                == chunk(bytes, i)
    }
}

/// Bytes with a run of others over them.
pub open spec fn placed(bytes: Seq<u8>, at: int, part: Seq<u8>) -> Seq<u8> {
    Seq::new(
        bytes.len(),
        |i: int|
            if at <= i < at + part.len() {
                part[i - at]
            } else {
                bytes[i]
            },
    )
}

/// How many flags are not set.
pub open spec fn unset(flags: Seq<bool>) -> nat
    decreases flags.len(),
{
    if flags.len() == 0 {
        0
    } else {
        unset(flags.drop_last()) + if flags.last() {
            0nat
        } else {
            1
        }
    }
}

/// Setting a flag leaves one fewer unset.
proof fn setting_counts(flags: Seq<bool>, i: int)
    requires
        0 <= i < flags.len(),
        !flags[i],
    ensures
        unset(flags) == unset(flags.update(i, true)) + 1,
    decreases flags.len(),
{
    let next = flags.update(i, true);
    if i == flags.len() - 1 {
        assert(next.drop_last() =~= flags.drop_last());
    } else {
        assert(next.drop_last() =~= flags.drop_last().update(i, true));
        setting_counts(flags.drop_last(), i);
    }
}

/// None is unset just when all are set.
proof fn none_unset(flags: Seq<bool>)
    ensures
        unset(flags) == 0 <==> forall|i: int| 0 <= i < flags.len() ==> #[trigger] flags[i],
    decreases flags.len(),
{
    if flags.len() > 0 {
        none_unset(flags.drop_last());
        let head = flags.drop_last();
        if forall|i: int| 0 <= i < head.len() ==> #[trigger] head[i] {
            if flags.last() {
                assert forall|i: int| 0 <= i < flags.len() implies #[trigger] flags[i] by {
                    if i < head.len() {
                        assert(head[i]);
                    }
                }
            }
        } else {
            let k = choose|k: int| 0 <= k < head.len() && !#[trigger] head[k];
            assert(!flags[k]);
        }
    }
}

/// All of some flags that are not set count.
proof fn all_unset(n: nat)
    ensures
        unset(Seq::new(n, |i: int| false)) == n,
    decreases n,
{
    if n > 0 {
        all_unset((n - 1) as nat);
        assert(Seq::new(n, |i: int| false).drop_last() =~= Seq::new(
            (n - 1) as nat,
            |i: int| false,
        ));
    }
}

impl View for PartialFrame {
    type V = Partial;

    open spec fn view(&self) -> Partial {
        Partial {
            revision: self.revision,
            reliable: self.reliable,
            started_ns: self.started_ns,
            bytes: self.bytes@,
            received: self.received@,
        }
    }
}

impl PartialFrame {
    /// The flags fit the bytes and the count fits the flags.
    pub open spec fn wf(&self) -> bool {
        self@.wf() && self.remaining == unset(self.received@)
    }

    /// A frame of which nothing has come.
    fn fresh(fragment: Fragment, now_ns: u64) -> (r: PartialFrame)
        requires
            fragment.length <= u32::MAX,
        ensures
            r.wf(),
            r@ == Partial::fresh(fragment, now_ns),
    {
        let count: usize = fragment.length / CHUNK + if fragment.length % CHUNK == 0 {
            0
        } else {
            1
        };
        let r = PartialFrame {
            revision: fragment.revision,
            reliable: fragment.reliable,
            started_ns: now_ns,
            bytes: vec![0u8; fragment.length],
            received: vec![false; count],
            remaining: count,
        };
        proof {
            all_unset(count as nat);
            assert(r.bytes@ =~= Seq::new(fragment.length as nat, |i: int| 0u8));
            assert(r.received@ =~= Seq::new(count as nat, |i: int| false));
        }
        r
    }

    /// Put a fragment's bytes in place.
    fn store(&mut self, index: usize, packet: &[u8])
        requires
            old(self).wf(),
            index < old(self).received@.len(),
            packet@.len() >= HEADER,
            packet@.len() - HEADER == chunk_end(old(self).bytes@.len(), index as int) - 1000
                * index,
        ensures
            final(self).wf(),
            final(self)@ == old(self)@.with(index as int, payload(packet@)),
    {
        if self.received[index] {
            return;
        }
        proof {
            chunk_fits(self.bytes@.len(), index as int);
            assert(self.bytes.len() == self.bytes@.len());
            setting_counts(self.received@, index as int);
        }
        let at: usize = index * CHUNK;
        let n: usize = packet.len() - HEADER;
        proof {
            assert(packet.len() == packet@.len());
        }
        let mut i: usize = 0;
        let ghost start = self.bytes@;
        let ghost part = payload(packet@);
        while i < n
            invariant
                i <= n,
                packet@.len() == HEADER + n <= usize::MAX,
                part == payload(packet@),
                at + n <= start.len(),
                self.bytes@.len() == start.len() <= usize::MAX,
                self.received == old(self).received,
                self.remaining == old(self).remaining,
                self.revision == old(self).revision,
                self.reliable == old(self).reliable,
                self.started_ns == old(self).started_ns,
                forall|k: int|
                    0 <= k < start.len() ==> #[trigger] self.bytes@[k] == if at <= k < at + i {
                        part[k - at]
                    } else {
                        start[k]
                    },
            decreases n - i,
        {
            let byte: u8 = packet[HEADER + i];
            proof {
                assert(part[i as int] == byte);
            }
            self.bytes.set(at + i, byte);
            i += 1;
        }
        self.received.set(index, true);
        self.remaining -= 1;
        proof {
            assert(self.bytes@ =~= placed(start, 1000 * index, part));
        }
    }
}

/// Partial frames as values.
pub open spec fn partials(pending: Seq<PartialFrame>) -> Seq<Partial> {
    Seq::new(pending.len(), |i: int| pending[i]@)
}

/// A partial frame is not abandoned yet.
pub open spec fn alive(frame: Partial, now_ns: u64) -> bool {
    frame.reliable || now_ns - frame.started_ns < FRAME_LIFETIME_NS
}

/// The partial frames that are not abandoned.
pub open spec fn aged(pending: Seq<Partial>, now_ns: u64) -> Seq<Partial>
    decreases pending.len(),
{
    if pending.len() == 0 {
        Seq::empty()
    } else {
        let head = aged(pending.drop_last(), now_ns);
        if alive(pending.last(), now_ns) {
            head.push(pending.last())
        } else {
            head
        }
    }
}

/// Bytes held for partial frames.
pub open spec fn held(pending: Seq<Partial>) -> nat
    decreases pending.len(),
{
    if pending.len() == 0 {
        0
    } else {
        held(pending.drop_last()) + pending.last().bytes.len()
    }
}

/// The place of the first partial frame with a revision; past the end, if
/// there is none.
pub open spec fn place_of(pending: Seq<Partial>, revision: u64) -> nat
    decreases pending.len(),
{
    if pending.len() == 0 || pending[0].revision == revision {
        0
    } else {
        1 + place_of(pending.subrange(1, pending.len() as int), revision)
    }
}

/// The place of the first unreliable frame; past the end, if there is none.
pub open spec fn first_unreliable(pending: Seq<Partial>) -> nat
    decreases pending.len(),
{
    if pending.len() == 0 || !pending[0].reliable {
        0
    } else {
        1 + first_unreliable(pending.subrange(1, pending.len() as int))
    }
}

/// A frame of some length has room beside the partial frames.
pub open spec fn has_room(pending: Seq<Partial>, length: nat, limit: nat) -> bool {
    pending.len() < PENDING_FRAMES && held(pending) + length <= limit
}

/// What is left when unreliable frames make room, first come first gone, as
/// long as there are any.
pub open spec fn with_room(pending: Seq<Partial>, length: nat, limit: nat) -> Seq<Partial>
    decreases pending.len(),
{
    if has_room(pending, length, limit) || first_unreliable(pending) >= pending.len() {
        pending
    } else {
        with_room(pending.remove(first_unreliable(pending) as int), length, limit)
    }
}

/// The partial frames of one connection.
#[derive(Clone, Debug)]
pub struct Reassembly {
    /// Longest frame, and bytes held for partial frames at most.
    pub limit: usize,
    /// Partial frames, first come first.
    pub pending: VecDeque<PartialFrame>,
    /// Frames given up.
    pub incomplete: u64,
}

/// The partial frames of one connection as a value.
pub struct ReassemblyModel {
    /// Longest frame, and bytes held for partial frames at most.
    pub limit: usize,
    /// Partial frames, first come first.
    pub pending: Seq<Partial>,
    /// Frames given up.
    pub incomplete: u64,
}

/// A counter after some more.
pub open spec fn counted(count: u64, more: int) -> u64 {
    if count + more <= u64::MAX {
        (count + more) as u64
    } else {
        u64::MAX
    }
}

/// A complete frame.
#[derive(Clone, Debug)]
pub struct Assembled {
    /// It travelled on the reliable lane.
    pub reliable: bool,
    /// Its bytes.
    pub bytes: Vec<u8>,
}

/// What a fragment led to.
pub enum Arrival {
    /// It was refused.
    Refused(WireError),
    /// Its frame is not complete.
    Waiting,
    /// Its frame is complete.
    Complete { reliable: bool, bytes: Seq<u8> },
}

impl Arrival {
    /// A call returned this.
    pub open spec fn is(self, r: Result<Option<Assembled>, WireError>) -> bool {
        match self {
            Arrival::Refused(error) => r == Err::<Option<Assembled>, WireError>(error),
            Arrival::Waiting => r == Ok::<Option<Assembled>, WireError>(None),
            Arrival::Complete { reliable, bytes } => match r {
                Ok(Some(frame)) => frame.reliable == reliable && frame.bytes@ == bytes,
                _ => false,
            },
        }
    }
}

impl ReassemblyModel {
    /// Few partial frames, few bytes, and flags that fit them.
    pub open spec fn wf(self) -> bool {
        &&& self.limit <= u32::MAX
        &&& self.pending.len() <= PENDING_FRAMES
        &&& held(self.pending) <= self.limit
        &&& forall|i: int| 0 <= i < self.pending.len() ==> (#[trigger] self.pending[i]).wf()
    }

    /// With old unreliable frames given up.
    pub open spec fn after(self, now_ns: u64) -> ReassemblyModel {
        let pending = aged(self.pending, now_ns);
        ReassemblyModel {
            pending,
            incomplete: counted(self.incomplete, self.pending.len() - pending.len()),
            ..self
        }
    }

    /// With unreliable frames given up for a frame of some length.
    pub open spec fn making_room(self, length: nat) -> ReassemblyModel {
        let pending = with_room(self.pending, length, self.limit as nat);
        ReassemblyModel {
            pending,
            incomplete: counted(self.incomplete, self.pending.len() - pending.len()),
            ..self
        }
    }

    /// With a fragment added to the partial frame at a place.
    pub open spec fn adding(self, place: int, fragment: Fragment, part: Seq<u8>) -> (
        ReassemblyModel,
        Arrival,
    ) {
        let frame = self.pending[place];
        if frame.bytes.len() != fragment.length || frame.reliable != fragment.reliable {
            (self, Arrival::Refused(WireError::InconsistentFragments))
        } else {
            let next = frame.with(fragment.index as int, part);
            if next.complete() {
                (
                    ReassemblyModel { pending: self.pending.remove(place), ..self },
                    Arrival::Complete { reliable: next.reliable, bytes: next.bytes },
                )
            } else {
                (
                    ReassemblyModel { pending: self.pending.update(place, next), ..self },
                    Arrival::Waiting,
                )
            }
        }
    }

    /// What a packet leads to: it joins the partial frame of its revision, or
    /// starts one if there is room or unreliable frames can make some. A
    /// reliable frame that finds no room is an error, an unreliable one is
    /// dropped.
    pub open spec fn receiving(self, packet: Seq<u8>, now_ns: u64) -> (ReassemblyModel, Arrival) {
        match read_fragment(packet, self.limit) {
            Err(error) => (self, Arrival::Refused(error)),
            Ok(fragment) => {
                let young = self.after(now_ns);
                let place = place_of(young.pending, fragment.revision);
                if place < young.pending.len() {
                    young.adding(place as int, fragment, payload(packet))
                } else {
                    let spare = young.making_room(fragment.length as nat);
                    if !has_room(spare.pending, fragment.length as nat, self.limit as nat) {
                        (
                            spare,
                            if fragment.reliable {
                                Arrival::Refused(WireError::ReassemblyOverflow)
                            } else {
                                Arrival::Waiting
                            },
                        )
                    } else {
                        let started = ReassemblyModel {
                            pending: spare.pending.push(Partial::fresh(fragment, now_ns)),
                            ..spare
                        };
                        started.adding(spare.pending.len() as int, fragment, payload(packet))
                    }
                }
            },
        }
    }
}

/// A revision's place, when there is one, holds it.
proof fn place_holds(pending: Seq<Partial>, revision: u64)
    ensures
        place_of(pending, revision) <= pending.len(),
        place_of(pending, revision) < pending.len() ==> pending[place_of(
            pending,
            revision,
        ) as int].revision == revision,
        place_of(pending, revision) == pending.len() ==> forall|i: int|
            0 <= i < pending.len() ==> (#[trigger] pending[i]).revision != revision,
    decreases pending.len(),
{
    if pending.len() > 0 && pending[0].revision != revision {
        let rest = pending.subrange(1, pending.len() as int);
        place_holds(rest, revision);
        if place_of(pending, revision) == pending.len() {
            assert forall|i: int| 0 <= i < pending.len() implies (
            #[trigger] pending[i]).revision != revision by {
                if i > 0 {
                    assert(rest[i - 1] == pending[i]);
                }
            }
        }
    }
}

/// The first unreliable frame's place is past the end or holds one.
proof fn first_unreliable_holds(pending: Seq<Partial>)
    ensures
        first_unreliable(pending) <= pending.len(),
        first_unreliable(pending) < pending.len() ==> !pending[first_unreliable(
            pending,
        ) as int].reliable,
    decreases pending.len(),
{
    if pending.len() > 0 && pending[0].reliable {
        first_unreliable_holds(pending.subrange(1, pending.len() as int));
    }
}

/// A removed frame frees its bytes.
proof fn removing_frees(pending: Seq<Partial>, i: int)
    requires
        0 <= i < pending.len(),
    ensures
        held(pending.remove(i)) + pending[i].bytes.len() == held(pending),
    decreases pending.len(),
{
    let left = pending.remove(i);
    if i == pending.len() - 1 {
        assert(left =~= pending.drop_last());
    } else {
        assert(left.drop_last() =~= pending.drop_last().remove(i));
        removing_frees(pending.drop_last(), i);
    }
}

/// A frame replaced by one as long holds as much.
proof fn replacing_holds(pending: Seq<Partial>, i: int, frame: Partial)
    requires
        0 <= i < pending.len(),
        frame.bytes.len() == pending[i].bytes.len(),
    ensures
        held(pending.update(i, frame)) == held(pending),
    decreases pending.len(),
{
    let next = pending.update(i, frame);
    if i == pending.len() - 1 {
        assert(next.drop_last() =~= pending.drop_last());
    } else {
        assert(next.drop_last() =~= pending.drop_last().update(i, frame));
        replacing_holds(pending.drop_last(), i, frame);
    }
}

/// Ageing keeps some of the frames.
pub(super) proof fn aging_keeps(pending: Seq<Partial>, now_ns: u64)
    ensures
        aged(pending, now_ns).len() <= pending.len(),
        held(aged(pending, now_ns)) <= held(pending),
        forall|i: int|
            0 <= i < aged(pending, now_ns).len() ==> pending.contains(
                #[trigger] aged(pending, now_ns)[i],
            ),
    decreases pending.len(),
{
    if pending.len() > 0 {
        let head = pending.drop_last();
        aging_keeps(head, now_ns);
        let kept = aged(head, now_ns);
        assert forall|i: int| 0 <= i < kept.len() implies pending.contains(#[trigger] kept[i]) by {
            let k = choose|k: int| 0 <= k < head.len() && head[k] == kept[i];
            assert(pending[k] == kept[i]);
        }
        if alive(pending.last(), now_ns) {
            assert(aged(pending, now_ns).drop_last() =~= kept);
            assert(pending.contains(pending.last()));
        }
    }
}

/// Making room keeps some of the frames.
pub(super) proof fn room_keeps(pending: Seq<Partial>, length: nat, limit: nat)
    ensures
        with_room(pending, length, limit).len() <= pending.len(),
        held(with_room(pending, length, limit)) <= held(pending),
        forall|i: int|
            0 <= i < with_room(pending, length, limit).len() ==> pending.contains(
                #[trigger] with_room(pending, length, limit)[i],
            ),
    decreases pending.len(),
{
    if !(has_room(pending, length, limit) || first_unreliable(pending) >= pending.len()) {
        let at = first_unreliable(pending) as int;
        let left = pending.remove(at);
        removing_frees(pending, at);
        room_keeps(left, length, limit);
        let r = with_room(left, length, limit);
        assert forall|i: int| 0 <= i < r.len() implies pending.contains(#[trigger] r[i]) by {
            let k = choose|k: int| 0 <= k < left.len() && left[k] == r[i];
            assert(left[k] == pending[if k < at {
                k
            } else {
                k + 1
            }]);
        }
    }
}

/// Everything of a sequence's frames that a property says.
pub open spec fn each_part_of(pending: Seq<Partial>, revision: u64, bytes: Seq<u8>) -> bool {
    forall|i: int|
        0 <= i < pending.len() && (#[trigger] pending[i]).revision == revision
            ==> pending[i].part_of(bytes)
}

impl ReassemblyModel {
    /// Whatever comes, the partial frames stay few and within the limit.
    pub proof fn receiving_is_wf(self, packet: Seq<u8>, now_ns: u64)
        requires
            self.wf(),
        ensures
            self.receiving(packet, now_ns).0.wf(),
    {
        if let Ok(fragment) = read_fragment(packet, self.limit) {
            let young = self.after(now_ns);
            aging_keeps(self.pending, now_ns);
            assert forall|i: int| 0 <= i < young.pending.len() implies (
            #[trigger] young.pending[i]).wf() by {
                let k = choose|k: int|
                    0 <= k < self.pending.len() && self.pending[k] == young.pending[i];
                assert(self.pending[k].wf());
            }
            let place = place_of(young.pending, fragment.revision);
            if place < young.pending.len() {
                young.adding_is_wf(place as int, fragment, payload(packet));
            } else {
                let spare = young.making_room(fragment.length as nat);
                room_keeps(young.pending, fragment.length as nat, self.limit as nat);
                assert forall|i: int| 0 <= i < spare.pending.len() implies (
                #[trigger] spare.pending[i]).wf() by {
                    let k = choose|k: int|
                        0 <= k < young.pending.len() && young.pending[k] == spare.pending[i];
                    assert(young.pending[k].wf());
                }
                if has_room(spare.pending, fragment.length as nat, self.limit as nat) {
                    let started = ReassemblyModel {
                        pending: spare.pending.push(Partial::fresh(fragment, now_ns)),
                        ..spare
                    };
                    assert(started.pending.drop_last() =~= spare.pending);
                    started.adding_is_wf(
                        spare.pending.len() as int,
                        fragment,
                        payload(packet),
                    );
                }
            }
        }
    }

    proof fn adding_is_wf(self, place: int, fragment: Fragment, part: Seq<u8>)
        requires
            self.wf(),
            0 <= place < self.pending.len(),
            fragment.index < chunk_count(fragment.length as nat),
        ensures
            self.adding(place, fragment, part).0.wf(),
    {
        let frame = self.pending[place];
        if frame.bytes.len() == fragment.length && frame.reliable == fragment.reliable {
            let next = frame.with(fragment.index as int, part);
            removing_frees(self.pending, place);
            replacing_holds(self.pending, place, next);
            assert(next.wf());
            let left = self.pending.remove(place);
            assert forall|i: int| 0 <= i < left.len() implies (#[trigger] left[i]).wf() by {
                assert(left[i] == self.pending[if i < place {
                    i
                } else {
                    i + 1
                }]);
            }
        }
    }

    /// What a frame's own fragment does to a partial frame that holds only
    /// fragments of that frame.
    proof fn adding_assembles(
        self,
        place: int,
        fragment: Fragment,
        bytes: Seq<u8>,
    )
        requires
            self.wf(),
            0 <= place < self.pending.len(),
            self.pending[place].revision == fragment.revision,
            each_part_of(self.pending, fragment.revision, bytes),
            fragment.length == bytes.len(),
            fragment.index < chunk_count(bytes.len()),
        ensures
            match self.adding(place, fragment, chunk(bytes, fragment.index as int)).1 {
                Arrival::Refused(error) => error == WireError::InconsistentFragments
                    && self.pending[place].reliable != fragment.reliable,
                Arrival::Waiting => exists|i: int|
                    0 <= i < self.pending[place].received.len() && i != fragment.index
                        && !#[trigger] self.pending[place].received[i],
                Arrival::Complete { reliable, bytes: got } => reliable == fragment.reliable && got
                    == bytes,
            },
            each_part_of(
                self.adding(place, fragment, chunk(bytes, fragment.index as int)).0.pending,
                fragment.revision,
                bytes,
            ),
    {
        let frame = self.pending[place];
        let index = fragment.index as int;
        let part = chunk(bytes, index);
        assert(frame.part_of(bytes));
        if frame.reliable == fragment.reliable {
            let next = frame.with(index, part);
            assert(next.part_of(bytes)) by {
                if !frame.received[index] {
                    assert forall|i: int|
                        0 <= i < next.received.len() && #[trigger] next.received[i] implies chunk(
                        next.bytes,
                        i,
                    ) == chunk(bytes, i) by {
                        if i == index {
                            assert(chunk(next.bytes, i) =~= part);
                        } else {
                            assert(frame.received[i]);
                            assert(chunk(next.bytes, i) =~= chunk(frame.bytes, i));
                        }
                    }
                }
            }
            if next.complete() {
                assert(next.bytes =~= bytes) by {
                    assert forall|j: int| 0 <= j < bytes.len() implies next.bytes[j]
                        == bytes[j] by {
                        let i = j / 1000;
                        assert(0 <= i < chunk_count(bytes.len()));
                        assert(next.received[i]);
                        assert(chunk(next.bytes, i)[j - 1000 * i] == next.bytes[j]);
                        assert(chunk(bytes, i)[j - 1000 * i] == bytes[j]);
                    }
                }
            } else {
                let i = choose|i: int| 0 <= i < next.received.len() && !#[trigger] next.received[i];
                assert(!frame.received[i] && i != index);
            }
        }
    }

    /// A frame's own fragments assemble exactly that frame: if all that has come
    /// under the frame's revision is fragments of it, a fragment of it never
    /// leads to other bytes, leads to the frame when all others have come, and
    /// leaves nothing foreign under the revision.
    pub proof fn fragments_assemble_their_frame(
        self,
        now_ns: u64,
        revision: u64,
        reliable: bool,
        bytes: Seq<u8>,
        index: int,
    )
        requires
            self.wf(),
            revision != 0,
            1 <= bytes.len() <= self.limit,
            0 <= index < chunk_count(bytes.len()),
            each_part_of(self.pending, revision, bytes),
        ensures
            ({
                let (next, arrival) = self.receiving(
                    fragment(revision, reliable, bytes, index),
                    now_ns,
                );
                let young = self.after(now_ns).pending;
                let place = place_of(young, revision);
                &&& each_part_of(next.pending, revision, bytes)
                &&& arrival matches Arrival::Complete { reliable: lane, bytes: got } ==> lane
                    == reliable && got == bytes
                &&& place < young.len() && young[place as int].reliable == reliable && (forall|
                    i: int,
                |
                    0 <= i < young[place as int].received.len() && i != index
                        ==> #[trigger] young[place as int].received[i]) ==> arrival
                    == (Arrival::Complete { reliable, bytes })
            }),
    {
        let packet = fragment(revision, reliable, bytes, index);
        fragment_read_back(revision, reliable, bytes, index, self.limit);
        let said = Fragment { reliable, revision, length: bytes.len() as usize, index: index as usize };
        let young = self.after(now_ns);
        aging_keeps(self.pending, now_ns);
        assert forall|i: int| 0 <= i < young.pending.len() implies (
        #[trigger] young.pending[i]).wf() by {
            let k = choose|k: int|
                0 <= k < self.pending.len() && self.pending[k] == young.pending[i];
            assert(self.pending[k].wf());
        }
        assert forall|i: int|
            0 <= i < young.pending.len() && (#[trigger] young.pending[i]).revision
                == revision implies young.pending[i].part_of(bytes) by {
            let k = choose|k: int|
                0 <= k < self.pending.len() && self.pending[k] == young.pending[i];
            assert(self.pending[k].part_of(bytes));
        }
        place_holds(young.pending, revision);
        let place = place_of(young.pending, revision);
        if place < young.pending.len() {
            young.adding_assembles(place as int, said, bytes);
        } else {
            let spare = young.making_room(bytes.len());
            room_keeps(young.pending, bytes.len(), self.limit as nat);
            assert forall|i: int| 0 <= i < spare.pending.len() implies (
            #[trigger] spare.pending[i]).wf() && spare.pending[i].revision != revision by {
                let k = choose|k: int|
                    0 <= k < young.pending.len() && young.pending[k] == spare.pending[i];
                assert(young.pending[k].wf());
            }
            if has_room(spare.pending, bytes.len(), self.limit as nat) {
                let started = ReassemblyModel {
                    pending: spare.pending.push(Partial::fresh(said, now_ns)),
                    ..spare
                };
                assert(started.pending.drop_last() =~= spare.pending);
                started.adding_assembles(spare.pending.len() as int, said, bytes);
            }
        }
    }
}

/// A packet is not a fragment under a revision.
pub open spec fn foreign(packet: Seq<u8>, limit: usize, revision: u64) -> bool {
    match read_fragment(packet, limit) {
        Ok(fragment) => fragment.revision != revision,
        Err(_) => true,
    }
}

/// A packet is a fragment of a frame.
pub open spec fn own(packet: Seq<u8>, revision: u64, reliable: bool, bytes: Seq<u8>) -> bool {
    exists|index: int|
        0 <= index < chunk_count(bytes.len()) && packet == #[trigger] fragment(
            revision,
            reliable,
            bytes,
            index,
        )
}

/// One packet after the other, each at its time.
pub open spec fn received_all(
    start: ReassemblyModel,
    packets: Seq<Seq<u8>>,
    times_ns: Seq<u64>,
) -> ReassemblyModel
    decreases packets.len(),
{
    if packets.len() == 0 {
        start
    } else {
        received_all(start, packets.drop_last(), times_ns.drop_last()).receiving(
            packets.last(),
            times_ns.last(),
        ).0
    }
}

impl ReassemblyModel {
    /// What comes under other revisions does not touch a frame's fragments.
    pub proof fn other_fragments_do_not_interfere(
        self,
        packet: Seq<u8>,
        now_ns: u64,
        revision: u64,
        bytes: Seq<u8>,
    )
        requires
            each_part_of(self.pending, revision, bytes),
            foreign(packet, self.limit, revision),
        ensures
            each_part_of(self.receiving(packet, now_ns).0.pending, revision, bytes),
    {
        if let Ok(said) = read_fragment(packet, self.limit) {
            let young = self.after(now_ns);
            aging_keeps(self.pending, now_ns);
            assert forall|i: int|
                0 <= i < young.pending.len() && (#[trigger] young.pending[i]).revision
                    == revision implies young.pending[i].part_of(bytes) by {
                let k = choose|k: int|
                    0 <= k < self.pending.len() && self.pending[k] == young.pending[i];
                assert(self.pending[k].part_of(bytes));
            }
            place_holds(young.pending, said.revision);
            let place = place_of(young.pending, said.revision);
            if place < young.pending.len() {
                young.adding_does_not_interfere(place as int, said, payload(packet), revision, bytes);
            } else {
                let spare = young.making_room(said.length as nat);
                room_keeps(young.pending, said.length as nat, self.limit as nat);
                assert forall|i: int|
                    0 <= i < spare.pending.len() && (#[trigger] spare.pending[i]).revision
                        == revision implies spare.pending[i].part_of(bytes) by {
                    let k = choose|k: int|
                        0 <= k < young.pending.len() && young.pending[k] == spare.pending[i];
                    assert(young.pending[k].part_of(bytes));
                }
                let started = ReassemblyModel {
                    pending: spare.pending.push(Partial::fresh(said, now_ns)),
                    ..spare
                };
                started.adding_does_not_interfere(
                    spare.pending.len() as int,
                    said,
                    payload(packet),
                    revision,
                    bytes,
                );
            }
        }
    }

    proof fn adding_does_not_interfere(
        self,
        place: int,
        said: Fragment,
        part: Seq<u8>,
        revision: u64,
        bytes: Seq<u8>,
    )
        requires
            0 <= place < self.pending.len(),
            self.pending[place].revision == said.revision,
            said.revision != revision,
            each_part_of(self.pending, revision, bytes),
        ensures
            each_part_of(self.adding(place, said, part).0.pending, revision, bytes),
    {
        let next = self.adding(place, said, part).0.pending;
        assert forall|i: int| 0 <= i < next.len() && (#[trigger] next[i]).revision
            == revision implies next[i].part_of(bytes) by {
            if next.len() == self.pending.len() {
                assert(i != place);
                assert(next[i] == self.pending[i]);
            } else {
                assert(next[i] == self.pending[if i < place {
                    i
                } else {
                    i + 1
                }]);
            }
        }
    }

    /// A frame's fragments assemble exactly that frame in whatever order and
    /// however often they come, and whatever comes between under other
    /// revisions: after any such packets, whatever is next complete under the
    /// frame's revision is the frame.
    pub proof fn any_order_assembles_the_frame(
        self,
        packets: Seq<Seq<u8>>,
        times_ns: Seq<u64>,
        revision: u64,
        reliable: bool,
        bytes: Seq<u8>,
    )
        requires
            self.wf(),
            revision != 0,
            1 <= bytes.len() <= self.limit,
            each_part_of(self.pending, revision, bytes),
            packets.len() == times_ns.len(),
            forall|i: int|
                0 <= i < packets.len() ==> foreign(#[trigger] packets[i], self.limit, revision)
                    || own(packets[i], revision, reliable, bytes),
        ensures
            received_all(self, packets, times_ns).wf(),
            received_all(self, packets, times_ns).limit == self.limit,
            each_part_of(received_all(self, packets, times_ns).pending, revision, bytes),
            forall|index: int, now_ns: u64|
                0 <= index < chunk_count(bytes.len()) ==> match #[trigger] received_all(
                    self,
                    packets,
                    times_ns,
                ).receiving(fragment(revision, reliable, bytes, index), now_ns).1 {
                    Arrival::Complete { reliable: lane, bytes: got } => lane == reliable && got
                        == bytes,
                    _ => true,
                },
        decreases packets.len(),
    {
        let after = received_all(self, packets, times_ns);
        if packets.len() > 0 {
            let head = packets.drop_last();
            assert forall|i: int| 0 <= i < head.len() implies foreign(
                #[trigger] head[i],
                self.limit,
                revision,
            ) || own(head[i], revision, reliable, bytes) by {
                assert(head[i] == packets[i]);
            }
            self.any_order_assembles_the_frame(
                head,
                times_ns.drop_last(),
                revision,
                reliable,
                bytes,
            );
            let before = received_all(self, head, times_ns.drop_last());
            let packet = packets.last();
            let now_ns = times_ns.last();
            before.receiving_is_wf(packet, now_ns);
            assert(packet == packets[packets.len() - 1]);
            if foreign(packet, self.limit, revision) {
                before.other_fragments_do_not_interfere(packet, now_ns, revision, bytes);
            } else {
                let index = choose|index: int|
                    0 <= index < chunk_count(bytes.len()) && packet == #[trigger] fragment(
                        revision,
                        reliable,
                        bytes,
                        index,
                    );
                before.fragments_assemble_their_frame(now_ns, revision, reliable, bytes, index);
            }
        }
        assert forall|index: int, now_ns: u64| 0 <= index < chunk_count(
            bytes.len(),
        ) implies match #[trigger] after.receiving(
            fragment(revision, reliable, bytes, index),
            now_ns,
        ).1 {
            Arrival::Complete { reliable: lane, bytes: got } => lane == reliable && got == bytes,
            _ => true,
        } by {
            after.fragments_assemble_their_frame(now_ns, revision, reliable, bytes, index);
        }
    }
}

/// Fragments of a frame in some order.
pub open spec fn fragments(
    revision: u64,
    reliable: bool,
    bytes: Seq<u8>,
    order: Seq<int>,
) -> Seq<Seq<u8>> {
    Seq::new(order.len(), |k: int| fragment(revision, reliable, bytes, order[k]))
}

/// Every fragment of a frame is among these.
pub open spec fn covers(order: Seq<int>, count: nat) -> bool {
    forall|i: int| 0 <= i < count ==> #[trigger] order.contains(i)
}

/// With nothing received.
pub open spec fn nothing_received(limit: usize) -> ReassemblyModel {
    ReassemblyModel { limit, pending: Seq::empty(), incomplete: 0 }
}

/// A frame of which some fragments came, the first of them at a time.
pub open spec fn begun(
    frame: Partial,
    revision: u64,
    reliable: bool,
    bytes: Seq<u8>,
    order: Seq<int>,
    started_ns: u64,
) -> bool {
    &&& frame.revision == revision
    &&& frame.reliable == reliable
    &&& frame.started_ns == started_ns
    &&& frame.part_of(bytes)
    &&& frame.received == Seq::new(chunk_count(bytes.len()), |i: int| order.contains(i))
}

/// A further fragment of a frame that is held alone joins it or completes it.
proof fn joining(
    state: ReassemblyModel,
    head: Seq<int>,
    index: int,
    started_ns: u64,
    revision: u64,
    reliable: bool,
    bytes: Seq<u8>,
)
    requires
        state.limit <= u32::MAX,
        revision != 0,
        1 <= bytes.len() <= state.limit,
        0 <= index < chunk_count(bytes.len()),
        state.pending.len() == 1,
        begun(state.pending[0], revision, reliable, bytes, head, started_ns),
    ensures
        ({
            let order = head.push(index);
            let (next, arrival) = state.adding(
                0,
                Fragment { reliable, revision, length: bytes.len() as usize, index: index as usize },
                chunk(bytes, index),
            );
            &&& next.limit == state.limit
            &&& covers(order, chunk_count(bytes.len())) ==> next.pending.len() == 0 && arrival == (
            Arrival::Complete { reliable, bytes })
            &&& !covers(order, chunk_count(bytes.len())) ==> next.pending.len() == 1 && begun(
                next.pending[0],
                revision,
                reliable,
                bytes,
                order,
                started_ns,
            ) && arrival == Arrival::Waiting
        }),
{
    let count = chunk_count(bytes.len());
    let order = head.push(index);
    let frame = state.pending[0];
    let part = chunk(bytes, index);
    let said = Fragment { reliable, revision, length: bytes.len() as usize, index: index as usize };
    let next = frame.with(index, part);
    assert forall|i: int| order.contains(i) == (head.contains(i) || i == index) by {
        if order.contains(i) && i != index {
            let k = order.index_of(i);
            assert(head[k] == i);
        }
        if head.contains(i) {
            let k = head.index_of(i);
            assert(order[k] == i);
        }
        assert(order[head.len() as int] == index);
    }
    assert(next.received =~= Seq::new(count, |i: int| order.contains(i)));
    assert(next.complete() == covers(order, count)) by {
        if covers(order, count) {
            assert forall|i: int| 0 <= i < next.received.len() implies #[trigger]
                next.received[i] by {
                assert(order.contains(i));
            }
        }
        if next.complete() {
            assert forall|i: int| 0 <= i < count implies #[trigger] order.contains(i) by {
                assert(next.received[i]);
            }
        }
    }
    assert(held(state.pending) == bytes.len()) by {
        assert(state.pending.drop_last() =~= Seq::empty());
        reveal_with_fuel(held, 2);
        assert(state.pending.last().part_of(bytes));
    }
    state.adding_assembles(0, said, bytes);
    let after = state.adding(0, said, part).0;
    if !covers(order, count) {
        assert(after.pending[0] == next);
        assert(after.pending[0].part_of(bytes));
    }
}

/// A frame's fragment, where nothing is held, starts the frame.
proof fn starting(
    state: ReassemblyModel,
    now_ns: u64,
    revision: u64,
    reliable: bool,
    bytes: Seq<u8>,
    index: int,
)
    requires
        state.limit <= u32::MAX,
        revision != 0,
        1 <= bytes.len() <= state.limit,
        0 <= index < chunk_count(bytes.len()),
        state.pending.len() == 0,
    ensures
        ({
            let said = Fragment {
                reliable,
                revision,
                length: bytes.len() as usize,
                index: index as usize,
            };
            state.receiving(fragment(revision, reliable, bytes, index), now_ns) == (
            ReassemblyModel { pending: seq![Partial::fresh(said, now_ns)], ..state }).adding(
                0,
                said,
                chunk(bytes, index),
            )
        }),
{
    let packet = fragment(revision, reliable, bytes, index);
    fragment_read_back(revision, reliable, bytes, index, state.limit);
    assert(aged(state.pending, now_ns) =~= Seq::empty());
    assert(state.pending =~= Seq::empty());
    let young = state.after(now_ns);
    assert(young == state);
    assert(place_of(young.pending, revision) == 0);
    assert(with_room(young.pending, bytes.len(), state.limit as nat) =~= Seq::empty());
    let spare = young.making_room(bytes.len());
    assert(spare == state);
    let said = Fragment { reliable, revision, length: bytes.len() as usize, index: index as usize };
    assert(spare.pending.push(Partial::fresh(said, now_ns)) =~= seq![
        Partial::fresh(said, now_ns),
    ]);
    assert(payload(packet) == chunk(bytes, index));
}

/// A frame's fragment, where the frame alone is held and not abandoned, is
/// added to it.
proof fn going_on(
    state: ReassemblyModel,
    now_ns: u64,
    revision: u64,
    reliable: bool,
    bytes: Seq<u8>,
    index: int,
)
    requires
        state.limit <= u32::MAX,
        revision != 0,
        1 <= bytes.len() <= state.limit,
        0 <= index < chunk_count(bytes.len()),
        state.pending.len() == 1,
        state.pending[0].revision == revision,
        alive(state.pending[0], now_ns),
    ensures
        state.receiving(fragment(revision, reliable, bytes, index), now_ns) == state.adding(
            0,
            Fragment { reliable, revision, length: bytes.len() as usize, index: index as usize },
            chunk(bytes, index),
        ),
{
    let packet = fragment(revision, reliable, bytes, index);
    fragment_read_back(revision, reliable, bytes, index, state.limit);
    assert(state.pending.drop_last() =~= Seq::empty());
    assert(aged(Seq::<Partial>::empty(), now_ns) =~= Seq::empty());
    assert(aged(state.pending, now_ns) =~= state.pending);
    assert(state.after(now_ns) == state);
    assert(place_of(state.pending, revision) == 0);
    assert(payload(packet) == chunk(bytes, index));
}

/// Until a frame is complete, exactly it is held, with the fragments that came.
proof fn fragments_are_held(
    limit: usize,
    order: Seq<int>,
    times_ns: Seq<u64>,
    revision: u64,
    reliable: bool,
    bytes: Seq<u8>,
)
    requires
        limit <= u32::MAX,
        revision != 0,
        1 <= bytes.len() <= limit,
        order.len() == times_ns.len(),
        forall|k: int| 0 <= k < order.len() ==> 0 <= #[trigger] order[k] < chunk_count(bytes.len()),
        reliable || forall|k: int|
            0 <= k < times_ns.len() ==> #[trigger] times_ns[k] - times_ns[0] < FRAME_LIFETIME_NS,
        order.len() > 0 ==> !covers(order.drop_last(), chunk_count(bytes.len())),
    ensures
        ({
            let after = received_all(
                nothing_received(limit),
                fragments(revision, reliable, bytes, order),
                times_ns,
            );
            &&& after.limit == limit
            &&& order.len() == 0 || covers(order, chunk_count(bytes.len()))
                ==> after.pending.len() == 0
            &&& order.len() > 0 && !covers(order, chunk_count(bytes.len())) ==> {
                &&& after.pending.len() == 1
                &&& begun(after.pending[0], revision, reliable, bytes, order, times_ns[0])
            }
        }),
        order.len() > 0 ==> received_all(
            nothing_received(limit),
            fragments(revision, reliable, bytes, order.drop_last()),
            times_ns.drop_last(),
        ).receiving(fragment(revision, reliable, bytes, order.last()), times_ns.last()).1 == (
        if covers(order, chunk_count(bytes.len())) {
            Arrival::Complete { reliable, bytes }
        } else {
            Arrival::Waiting
        }),
    decreases order.len(),
{
    let count = chunk_count(bytes.len());
    let start = nothing_received(limit);
    if order.len() == 0 {
        assert(!order.contains(0));
    } else {
        let head = order.drop_last();
        let early = times_ns.drop_last();
        if head.len() > 0 {
            assert(!covers(head.drop_last(), count)) by {
                if covers(head.drop_last(), count) {
                    assert forall|i: int| 0 <= i < count implies #[trigger] head.contains(i) by {
                        assert(head.drop_last().contains(i));
                        let k = head.drop_last().index_of(i);
                        assert(head[k] == i);
                    }
                }
            }
        }
        assert forall|k: int| 0 <= k < head.len() implies 0 <= #[trigger] head[k] < count by {
            assert(head[k] == order[k]);
        }
        if !reliable {
            assert forall|k: int| 0 <= k < early.len() implies #[trigger] early[k] - early[0]
                < FRAME_LIFETIME_NS by {
                assert(early[k] == times_ns[k]);
            }
        }
        fragments_are_held(limit, head, early, revision, reliable, bytes);
        let packets = fragments(revision, reliable, bytes, order);
        assert(packets.drop_last() =~= fragments(revision, reliable, bytes, head));
        let before = received_all(start, packets.drop_last(), early);
        let index = order.last();
        assert(order[order.len() - 1] == index);
        let now_ns = times_ns.last();
        assert(times_ns[order.len() - 1] == now_ns);
        assert(packets.last() == fragment(revision, reliable, bytes, index));
        assert(head.push(index) =~= order);
        if head.len() == 0 {
            starting(before, now_ns, revision, reliable, bytes, index);
            let said = Fragment {
                reliable,
                revision,
                length: bytes.len() as usize,
                index: index as usize,
            };
            let fresh = Partial::fresh(said, now_ns);
            assert(fresh.received =~= Seq::new(count, |i: int| head.contains(i)));
            joining(
                ReassemblyModel { pending: seq![fresh], ..before },
                head,
                index,
                now_ns,
                revision,
                reliable,
                bytes,
            );
        } else {
            assert(times_ns[0] == early[0]);
            going_on(before, now_ns, revision, reliable, bytes, index);
            joining(before, head, index, times_ns[0], revision, reliable, bytes);
        }
    }
}

/// The limit stays what it was.
pub(super) proof fn before_completion_keeps_the_limit(
    limit: usize,
    order: Seq<int>,
    times_ns: Seq<u64>,
    revision: u64,
    reliable: bool,
    bytes: Seq<u8>,
)
    ensures
        received_all(
            nothing_received(limit),
            fragments(revision, reliable, bytes, order),
            times_ns,
        ).limit == limit,
    decreases order.len(),
{
    if order.len() > 0 {
        let packets = fragments(revision, reliable, bytes, order);
        assert(packets.drop_last() =~= fragments(revision, reliable, bytes, order.drop_last()));
        before_completion_keeps_the_limit(
            limit,
            order.drop_last(),
            times_ns.drop_last(),
            revision,
            reliable,
            bytes,
        );
    }
}

/// The arrival of one packet of a row.
pub open spec fn arrival_at(
    start: ReassemblyModel,
    packets: Seq<Seq<u8>>,
    times_ns: Seq<u64>,
    n: int,
) -> Arrival {
    received_all(start, packets.take(n), times_ns.take(n)).receiving(packets[n], times_ns[n]).1
}

/// The fragments of one frame may come in any order and repeatedly: as long as
/// one is missing every call waits, and the call that brings the last missing
/// one gives the whole frame. On the unreliable lane that holds within the
/// lifetime of a partial frame.
pub proof fn the_last_missing_fragment_completes(
    limit: usize,
    order: Seq<int>,
    times_ns: Seq<u64>,
    revision: u64,
    reliable: bool,
    bytes: Seq<u8>,
    n: int,
)
    requires
        limit <= u32::MAX,
        revision != 0,
        1 <= bytes.len() <= limit,
        order.len() == times_ns.len(),
        forall|k: int| 0 <= k < order.len() ==> 0 <= #[trigger] order[k] < chunk_count(bytes.len()),
        reliable || forall|k: int|
            0 <= k < times_ns.len() ==> #[trigger] times_ns[k] - times_ns[0] < FRAME_LIFETIME_NS,
        0 <= n < order.len(),
        !covers(order.take(n), chunk_count(bytes.len())),
    ensures
        arrival_at(
            nothing_received(limit),
            fragments(revision, reliable, bytes, order),
            times_ns,
            n,
        ) == (if covers(order.take(n + 1), chunk_count(bytes.len())) {
            Arrival::Complete { reliable, bytes }
        } else {
            Arrival::Waiting
        }),
{
    let packets = fragments(revision, reliable, bytes, order);
    let some = order.take(n + 1);
    let times = times_ns.take(n + 1);
    assert(some.drop_last() =~= order.take(n));
    assert(times.drop_last() =~= times_ns.take(n));
    assert(packets.take(n) =~= fragments(revision, reliable, bytes, order.take(n)));
    assert forall|k: int| 0 <= k < some.len() implies 0 <= #[trigger] some[k] < chunk_count(
        bytes.len(),
    ) by {
        assert(some[k] == order[k]);
    }
    fragments_are_held(limit, some, times, revision, reliable, bytes);
}

impl View for Reassembly {
    type V = ReassemblyModel;

    open spec fn view(&self) -> ReassemblyModel {
        ReassemblyModel {
            limit: self.limit,
            pending: partials(self.pending@),
            incomplete: self.incomplete,
        }
    }
}

impl Reassembly {
    /// Few partial frames, few bytes, and counts that fit them.
    pub open spec fn wf(&self) -> bool {
        self@.wf() && forall|i: int| 0 <= i < self.pending@.len() ==> (
        #[trigger] self.pending@[i]).wf()
    }

    /// With no partial frame.
    pub fn new(limit: usize) -> (r: Reassembly)
        requires
            limit <= u32::MAX,
        ensures
            r.wf(),
            r@ == (ReassemblyModel { limit, pending: Seq::empty(), incomplete: 0 }),
    {
        let r = Reassembly { limit, pending: VecDeque::new(), incomplete: 0 };
        proof {
            assert(partials(r.pending@) =~= Seq::empty());
        }
        r
    }

    /// Give up old unreliable frames.
    fn age(&mut self, now_ns: u64)
        requires
            old(self).wf(),
        ensures
            final(self).wf(),
            final(self)@ == old(self)@.after(now_ns),
    {
        let ghost start = self@.pending;
        let n: usize = self.pending.len();
        let mut seen: usize = 0;
        let mut at: usize = 0;
        proof {
            assert(start.subrange(0, 0) =~= Seq::empty());
            assert(self@.pending =~= aged(start.subrange(0, 0), now_ns) + start.subrange(
                0,
                n as int,
            ));
        }
        while seen < n
            invariant
                seen <= n,
                n == start.len(),
                at <= seen,
                at == aged(start.subrange(0, seen as int), now_ns).len(),
                self@.pending == aged(start.subrange(0, seen as int), now_ns) + start.subrange(
                    seen as int,
                    n as int,
                ),
                self.pending@.len() == at + n - seen,
                self.limit == old(self).limit,
                self.incomplete == old(self).incomplete,
                forall|i: int| 0 <= i < self.pending@.len() ==> (#[trigger] self.pending@[i]).wf(),
            decreases n - seen,
        {
            let ghost head = aged(start.subrange(0, seen as int), now_ns);
            let ghost before = self@.pending;
            proof {
                let longer = start.subrange(0, seen + 1);
                assert(longer.drop_last() =~= start.subrange(0, seen as int));
                assert(longer.last() == start[seen as int]);
                assert(before[at as int] == start[seen as int]);
                assert(before[at as int] == self.pending@[at as int]@);
            }
            let frame = &self.pending[at];
            let keep = frame.reliable || now_ns < frame.started_ns || now_ns - frame.started_ns
                < FRAME_LIFETIME_NS;
            if keep {
                at += 1;
                proof {
                    assert(self@.pending =~= aged(start.subrange(0, seen + 1), now_ns)
                        + start.subrange(seen + 1, n as int));
                }
            } else {
                let ghost all = self.pending@;
                let _ = self.pending.remove(at);
                proof {
                    assert(self.pending@ == all.remove(at as int));
                    assert(self@.pending =~= before.remove(at as int));
                    assert(self@.pending =~= aged(start.subrange(0, seen + 1), now_ns)
                        + start.subrange(seen + 1, n as int));
                    assert forall|i: int| 0 <= i < self.pending@.len() implies (
                    #[trigger] self.pending@[i]).wf() by {
                        assert(self.pending@[i] == all[if i < at {
                            i
                        } else {
                            i + 1
                        }]);
                    }
                }
            }
            seen += 1;
        }
        self.incomplete = self.incomplete.saturating_add((n - self.pending.len()) as u64);
        proof {
            assert(start.subrange(0, n as int) =~= start);
            assert(self@.pending =~= aged(start, now_ns));
            aging_keeps(start, now_ns);
            assert forall|i: int| 0 <= i < self@.pending.len() implies (
            #[trigger] self@.pending[i]).wf() by {
                assert(self.pending@[i].wf());
            }
        }
    }

    /// The place of the partial frame with a revision.
    fn find(&self, revision: u64) -> (r: usize)
        ensures
            r == place_of(self@.pending, revision),
    {
        let mut i: usize = 0;
        let ghost all = self@.pending;
        proof {
            assert(all.subrange(0, all.len() as int) =~= all);
        }
        while i < self.pending.len() && self.pending[i].revision != revision
            invariant
                i <= self.pending@.len(),
                all == self@.pending,
                place_of(all, revision) == i + place_of(
                    all.subrange(i as int, all.len() as int),
                    revision,
                ),
            decreases self.pending@.len() - i,
        {
            proof {
                let rest = all.subrange(i as int, all.len() as int);
                assert(rest[0] == self.pending@[i as int]@);
                assert(rest.subrange(1, rest.len() as int) =~= all.subrange(
                    i + 1,
                    all.len() as int,
                ));
            }
            i += 1;
        }
        proof {
            let rest = all.subrange(i as int, all.len() as int);
            if i < all.len() {
                assert(rest[0] == self.pending@[i as int]@);
            }
        }
        i
    }

    /// The place of the first unreliable frame.
    fn find_unreliable(&self) -> (r: usize)
        ensures
            r == first_unreliable(self@.pending),
    {
        let mut i: usize = 0;
        let ghost all = self@.pending;
        proof {
            assert(all.subrange(0, all.len() as int) =~= all);
        }
        while i < self.pending.len() && self.pending[i].reliable
            invariant
                i <= self.pending@.len(),
                all == self@.pending,
                first_unreliable(all) == i + first_unreliable(
                    all.subrange(i as int, all.len() as int),
                ),
            decreases self.pending@.len() - i,
        {
            proof {
                let rest = all.subrange(i as int, all.len() as int);
                assert(rest[0] == self.pending@[i as int]@);
                assert(rest.subrange(1, rest.len() as int) =~= all.subrange(
                    i + 1,
                    all.len() as int,
                ));
            }
            i += 1;
        }
        proof {
            let rest = all.subrange(i as int, all.len() as int);
            if i < all.len() {
                assert(rest[0] == self.pending@[i as int]@);
            }
        }
        i
    }

    /// Bytes held for partial frames.
    fn held_bytes(&self) -> (r: usize)
        requires
            self.wf(),
        ensures
            r == held(self@.pending),
    {
        let mut i: usize = 0;
        let mut sum: usize = 0;
        let ghost all = self@.pending;
        proof {
            assert(all.subrange(0, 0) =~= Seq::empty());
        }
        while i < self.pending.len()
            invariant
                i <= self.pending@.len(),
                all == self@.pending,
                held(all) <= self.limit,
                sum == held(all.subrange(0, i as int)),
            decreases self.pending@.len() - i,
        {
            proof {
                let longer = all.subrange(0, i + 1);
                assert(longer.drop_last() =~= all.subrange(0, i as int));
                assert(longer.last() == self.pending@[i as int]@);
                held_prefix(all, i + 1);
            }
            sum += self.pending[i].bytes.len();
            i += 1;
        }
        proof {
            assert(all.subrange(0, i as int) =~= all);
        }
        sum
    }

    /// Give up unreliable frames until a frame of some length fits or none is
    /// left. Returns whether it fits.
    fn make_room(&mut self, length: usize) -> (r: bool)
        requires
            old(self).wf(),
            length <= old(self).limit,
        ensures
            final(self).wf(),
            final(self)@ == old(self)@.making_room(length as nat),
            r == has_room(final(self)@.pending, length as nat, old(self).limit as nat),
    {
        let n: usize = self.pending.len();
        loop
            invariant
                self.wf(),
                n == old(self)@.pending.len(),
                self@.pending.len() <= n,
                length <= self.limit,
                self.limit == old(self).limit,
                self.incomplete == old(self).incomplete,
                with_room(self@.pending, length as nat, self.limit as nat) == with_room(
                    old(self)@.pending,
                    length as nat,
                    self.limit as nat,
                ),
            decreases self@.pending.len(),
        {
            let fits = self.pending.len() < PENDING_FRAMES && self.held_bytes() <= self.limit
                - length;
            let at: usize = self.find_unreliable();
            if fits || at >= self.pending.len() {
                self.incomplete =
                self.incomplete.saturating_add((n - self.pending.len()) as u64);
                return fits;
            }
            let ghost all = self.pending@;
            let ghost before = self@.pending;
            proof {
                removing_frees(before, at as int);
            }
            let _ = self.pending.remove(at);
            proof {
                assert(self.pending@ == all.remove(at as int));
                assert(self@.pending =~= before.remove(at as int));
                assert forall|i: int| 0 <= i < self.pending@.len() implies (
                #[trigger] self.pending@[i]).wf() && self@.pending[i].wf() by {
                    assert(self.pending@[i] == all[if i < at {
                        i
                    } else {
                        i + 1
                    }]);
                }
            }
        }
    }

    /// Add a fragment to the partial frame at a place.
    fn add_at(&mut self, place: usize, fragment: Fragment, packet: &[u8]) -> (r: Result<
        Option<Assembled>,
        WireError,
    >)
        requires
            old(self).wf(),
            place < old(self).pending@.len(),
            read_fragment(packet@, old(self).limit) == Ok::<Fragment, WireError>(fragment),
        ensures
            final(self).wf(),
            final(self)@ == old(self)@.adding(place as int, fragment, payload(packet@)).0,
            old(self)@.adding(place as int, fragment, payload(packet@)).1.is(r),
    {
        let ghost all = self.pending@;
        let ghost before = self@.pending;
        proof {
            assert(all[place as int].wf());
            old(self)@.adding_is_wf(place as int, fragment, payload(packet@));
            assert(before[place as int] == all[place as int]@);
        }
        let mut frame = match self.pending.remove(place) {
            Some(frame) => frame,
            None => {
                return Ok(None);
            },
        };
        proof {
            assert(self.pending@ == all.remove(place as int));
        }
        if frame.bytes.len() != fragment.length || frame.reliable != fragment.reliable {
            self.pending.insert(place, frame);
            proof {
                assert(self.pending@ =~= all);
                assert(self@.pending =~= before);
            }
            return Err(WireError::InconsistentFragments);
        }
        frame.store(fragment.index, packet);
        proof {
            none_unset(frame.received@);
        }
        if frame.remaining != 0 {
            let ghost next = frame;
            self.pending.insert(place, frame);
            proof {
                assert(self.pending@ =~= all.update(place as int, next));
                assert(self@.pending =~= before.update(place as int, next@));
            }
            return Ok(None);
        }
        proof {
            assert(self@.pending =~= before.remove(place as int));
            assert forall|i: int| 0 <= i < self.pending@.len() implies (
            #[trigger] self.pending@[i]).wf() by {
                assert(self.pending@[i] == all[if i < place {
                    i
                } else {
                    i + 1
                }]);
            }
        }
        Ok(Some(Assembled { reliable: frame.reliable, bytes: frame.bytes }))
    }

    /// Accept one packet. Returns the frame that it completes, `None` while
    /// fragments are missing or the frame was dropped.
    pub fn receive(&mut self, packet: &[u8], now_ns: u64) -> (r: Result<
        Option<Assembled>,
        WireError,
    >)
        requires
            old(self).wf(),
        ensures
            final(self).wf(),
            final(self)@ == old(self)@.receiving(packet@, now_ns).0,
            old(self)@.receiving(packet@, now_ns).1.is(r),
            final(self).limit == old(self).limit,
    {
        let fragment = match parse_fragment(packet, self.limit) {
            Err(error) => {
                return Err(error);
            },
            Ok(fragment) => fragment,
        };
        self.age(now_ns);
        let place: usize = self.find(fragment.revision);
        if place < self.pending.len() {
            return self.add_at(place, fragment, packet);
        }
        proof {
            place_holds(self@.pending, fragment.revision);
        }
        if !self.make_room(fragment.length) {
            if fragment.reliable {
                return Err(WireError::ReassemblyOverflow);
            }
            return Ok(None);
        }
        let ghost all = self.pending@;
        let ghost before = self@.pending;
        let at: usize = self.pending.len();
        self.pending.push_back(PartialFrame::fresh(fragment, now_ns));
        proof {
            assert(self@.pending =~= before.push(Partial::fresh(fragment, now_ns)));
            assert(self@.pending.drop_last() =~= before);
            assert forall|i: int| 0 <= i < self.pending@.len() implies (
            #[trigger] self.pending@[i]).wf() && self@.pending[i].wf() by {
                if i < all.len() {
                    assert(self.pending@[i] == all[i]);
                }
            }
        }
        self.add_at(at, fragment, packet)
    }
}

/// The first frames hold no more than all.
proof fn held_prefix(pending: Seq<Partial>, n: int)
    requires
        0 <= n <= pending.len(),
    ensures
        held(pending.subrange(0, n)) <= held(pending),
    decreases pending.len(),
{
    if n < pending.len() {
        let head = pending.drop_last();
        assert(pending.subrange(0, n) =~= head.subrange(0, n));
        held_prefix(head, n);
    } else {
        assert(pending.subrange(0, n) =~= pending);
    }
}

} // verus!
