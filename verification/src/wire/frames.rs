//! What one peer's fragments amount to.
use super::baseline::{Decoder, Feedback, Header, Opened, Retire, Unpacked, Wire};
use super::compress::{inflated, unpack};
use super::packet::{chunk_count, fragment};
use super::reassembly::{
    before_completion_keeps_the_limit, counted, covers, fragments, nothing_received, received_all,
    the_last_missing_fragment_completes, Arrival, Assembled, Reassembly, ReassemblyModel,
    FRAME_LIFETIME_NS,
};
use super::WireError;
use std::collections::VecDeque;
use vstd::prelude::*;

verus! {

/// Answers waiting to be sent, at most.
pub const FEEDBACK_QUEUE: usize = 16;

/// What a decoded message is.
#[derive(Clone, Copy, Debug, PartialEq, Eq, Structural)]
pub enum Content {
    /// A snapshot and its number.
    Snapshot(u64),
    /// Anything else.
    Control,
}

/// What reading a complete frame gave.
#[derive(Clone, Copy, Debug, PartialEq, Eq)]
pub enum Body {
    /// A packed checkpoint: the header it was announced with, the one its bytes
    /// hold, and, where unpacking it against the state asked for succeeded, what
    /// that gave and the snapshot's number.
    Packed { announced: Header, actual: Header, unpacked: Option<(Unpacked, u64)> },
    /// A request to drop a baseline.
    Retire(Retire),
    /// A message behind its magic.
    Message(Content),
    /// None of these.
    Unreadable,
}

/// What comes of a frame.
#[derive(Clone, Copy, Debug, PartialEq, Eq, Structural)]
pub enum Delivery {
    /// Nothing to deliver: fragments are missing, the frame is out of date, or
    /// it was for the decoder alone.
    Nothing,
    /// A message is delivered.
    Message(Content),
    /// The frame is refused.
    Refused(WireError),
    /// The frame's bytes cannot be read.
    Unreadable,
}

/// One connection's incoming frames: partial ones, pinned baselines, answers
/// to send, and the newest snapshot delivered.
#[derive(Clone, Debug)]
pub struct Frames {
    /// Partial frames.
    pub reassembly: Reassembly,
    /// Pinned baselines.
    pub decoder: Decoder,
    /// Answers to send, oldest first.
    pub feedback: VecDeque<Feedback>,
    /// Number of the newest snapshot delivered.
    pub latest_snapshot: u64,
    /// Snapshots that came too late.
    pub stale_updates: u64,
    /// Snapshots delivered.
    pub complete_snapshots: u64,
}

/// One connection's incoming frames as a value.
pub struct FramesModel {
    /// Partial frames.
    pub reassembly: ReassemblyModel,
    /// Pinned baselines.
    pub decoder: Decoder,
    /// Answers to send, oldest first.
    pub feedback: Seq<Feedback>,
    /// Number of the newest snapshot delivered.
    pub latest_snapshot: u64,
    /// Snapshots that came too late.
    pub stale_updates: u64,
    /// Snapshots delivered.
    pub complete_snapshots: u64,
}

impl View for Frames {
    type V = FramesModel;

    open spec fn view(&self) -> FramesModel {
        FramesModel {
            reassembly: self.reassembly@,
            decoder: self.decoder,
            feedback: self.feedback@,
            latest_snapshot: self.latest_snapshot,
            stale_updates: self.stale_updates,
            complete_snapshots: self.complete_snapshots,
        }
    }
}

/// A queue of answers after one more; the oldest makes room.
pub open spec fn answering(queue: Seq<Feedback>, feedback: Feedback) -> Seq<Feedback> {
    if queue.len() >= FEEDBACK_QUEUE {
        queue.remove(0).push(feedback)
    } else {
        queue.push(feedback)
    }
}

impl FramesModel {
    /// A frame's header looked at. A retirement must be reliable.
    pub open spec fn opening(self, reliable: bool, wire: Wire) -> (
        FramesModel,
        Result<Opened, WireError>,
    ) {
        if !reliable && wire is Retire {
            (self, Err(WireError::UnreliableRetirement))
        } else {
            let (decoder, opened) = self.decoder.opening(wire);
            (
                FramesModel {
                    decoder,
                    feedback: match opened {
                        Ok(Opened::Answer(feedback)) => answering(self.feedback, feedback),
                        _ => self.feedback,
                    },
                    ..self
                },
                opened,
            )
        }
    }

    /// An unpacked checkpoint taken.
    pub open spec fn closing(self, header: Header, unpacked: Unpacked) -> (
        FramesModel,
        Result<(), WireError>,
    ) {
        let (decoder, taken) = self.decoder.closing(header, unpacked, self.reassembly.limit);
        (
            FramesModel {
                decoder,
                feedback: match taken {
                    Ok(Some(feedback)) => answering(self.feedback, feedback),
                    _ => self.feedback,
                },
                ..self
            },
            match taken {
                Ok(_) => Ok(()),
                Err(error) => Err(error),
            },
        )
    }

    /// A decoded message judged: whether it is delivered. Control messages
    /// must be reliable, and a snapshot no newer than the last is dropped.
    pub open spec fn judging(self, reliable: bool, content: Content) -> (
        FramesModel,
        Result<bool, WireError>,
    ) {
        match content {
            Content::Control => (
                self,
                if reliable {
                    Ok(true)
                } else {
                    Err(WireError::UnreliableControl)
                },
            ),
            Content::Snapshot(id) => if id <= self.latest_snapshot {
                (
                    FramesModel { stale_updates: counted(self.stale_updates, 1), ..self },
                    Ok(false),
                )
            } else {
                (
                    FramesModel {
                        latest_snapshot: id,
                        complete_snapshots: counted(self.complete_snapshots, 1),
                        ..self
                    },
                    Ok(true),
                )
            },
        }
    }

    /// A decoded message handed on where it is judged deliverable.
    pub open spec fn handing(self, reliable: bool, content: Content) -> (FramesModel, Delivery) {
        let (next, judged) = self.judging(reliable, content);
        (
            next,
            match judged {
                Err(error) => Delivery::Refused(error),
                Ok(false) => Delivery::Nothing,
                Ok(true) => Delivery::Message(content),
            },
        )
    }

    /// What comes of a complete frame: its header is looked at, an unpacked
    /// checkpoint is taken, and what is then decoded is judged.
    pub open spec fn delivering(self, reliable: bool, body: Body) -> (FramesModel, Delivery) {
        match body {
            Body::Unreadable => (self, Delivery::Unreadable),
            Body::Message(content) => self.handing(reliable, content),
            Body::Retire(retire) => {
                let (next, opened) = self.opening(reliable, Wire::Retire(retire));
                (
                    next,
                    match opened {
                        Err(error) => Delivery::Refused(error),
                        Ok(_) => Delivery::Nothing,
                    },
                )
            },
            Body::Packed { announced, actual, unpacked } => {
                let (open, opened) = self.opening(reliable, Wire::Packed { announced, actual });
                match opened {
                    Err(error) => (open, Delivery::Refused(error)),
                    Ok(Opened::Unpack { .. }) => match unpacked {
                        None => (open, Delivery::Unreadable),
                        Some((taken, id)) => {
                            let (closed, result) = open.closing(announced, taken);
                            match result {
                                Err(error) => (closed, Delivery::Refused(error)),
                                Ok(()) => closed.handing(reliable, Content::Snapshot(id)),
                            }
                        },
                    },
                    Ok(_) => (open, Delivery::Nothing),
                }
            },
        }
    }

    /// What comes of a packet, where `read` reads a complete frame's bytes.
    pub open spec fn taking(
        self,
        packet: Seq<u8>,
        now_ns: u64,
        read: spec_fn(FramesModel, Seq<u8>) -> Body,
    ) -> (FramesModel, Delivery) {
        let (reassembly, arrival) = self.reassembly.receiving(packet, now_ns);
        let next = FramesModel { reassembly, ..self };
        match arrival {
            Arrival::Refused(error) => (next, Delivery::Refused(error)),
            Arrival::Waiting => (next, Delivery::Nothing),
            Arrival::Complete { reliable, bytes } => match inflated(bytes, self.reassembly.limit) {
                None => (next, Delivery::Refused(WireError::Inflate)),
                Some(body) => next.delivering(reliable, read(next, body)),
            },
        }
    }

    /// One packet after the other, each at its time.
    pub open spec fn taking_all(
        self,
        packets: Seq<Seq<u8>>,
        times_ns: Seq<u64>,
        read: spec_fn(FramesModel, Seq<u8>) -> Body,
    ) -> FramesModel
        decreases packets.len(),
    {
        if packets.len() == 0 {
            self
        } else {
            self.taking_all(packets.drop_last(), times_ns.drop_last(), read).taking(
                packets.last(),
                times_ns.last(),
                read,
            ).0
        }
    }

    /// With nothing received.
    pub open spec fn initial(limit: usize) -> FramesModel {
        FramesModel {
            reassembly: nothing_received(limit),
            decoder: Decoder::initial(),
            feedback: Seq::empty(),
            latest_snapshot: 0,
            stale_updates: 0,
            complete_snapshots: 0,
        }
    }

    /// While a frame's fragments are missing, nothing but the reassembly
    /// changes.
    proof fn waiting_changes_the_reassembly_alone(
        limit: usize,
        order: Seq<int>,
        times_ns: Seq<u64>,
        revision: u64,
        reliable: bool,
        bytes: Seq<u8>,
        read: spec_fn(FramesModel, Seq<u8>) -> Body,
    )
        requires
            limit <= u32::MAX,
            revision != 0,
            1 <= bytes.len() <= limit,
            order.len() == times_ns.len(),
            forall|k: int|
                0 <= k < order.len() ==> 0 <= #[trigger] order[k] < chunk_count(bytes.len()),
            reliable || forall|k: int|
                0 <= k < times_ns.len() ==> #[trigger] times_ns[k] - times_ns[0]
                    < FRAME_LIFETIME_NS,
            !covers(order, chunk_count(bytes.len())),
        ensures
            FramesModel::initial(limit).taking_all(
                fragments(revision, reliable, bytes, order),
                times_ns,
                read,
            ) == (FramesModel {
                reassembly: received_all(
                    nothing_received(limit),
                    fragments(revision, reliable, bytes, order),
                    times_ns,
                ),
                ..FramesModel::initial(limit)
            }),
        decreases order.len(),
    {
        if order.len() > 0 {
            let n = order.len() - 1;
            let head = order.drop_last();
            let early = times_ns.drop_last();
            let packets = fragments(revision, reliable, bytes, order);
            assert(packets.drop_last() =~= fragments(revision, reliable, bytes, head));
            assert(!covers(head, chunk_count(bytes.len()))) by {
                if covers(head, chunk_count(bytes.len())) {
                    assert forall|i: int| 0 <= i < chunk_count(bytes.len()) implies #[trigger]
                        order.contains(i) by {
                        assert(head.contains(i));
                        let k = head.index_of(i);
                        assert(order[k] == i);
                    }
                }
            }
            assert forall|k: int| 0 <= k < head.len() implies 0 <= #[trigger] head[k]
                < chunk_count(bytes.len()) by {
                assert(head[k] == order[k]);
            }
            FramesModel::waiting_changes_the_reassembly_alone(
                limit,
                head,
                early,
                revision,
                reliable,
                bytes,
                read,
            );
            assert(order.take(n) =~= head);
            assert(order.take(n + 1) =~= order);
            assert(packets.take(n) =~= packets.drop_last());
            assert(times_ns.take(n) =~= early);
            the_last_missing_fragment_completes(
                limit,
                order,
                times_ns,
                revision,
                reliable,
                bytes,
                n,
            );
        }
    }

    /// The fragments of a message that is no snapshot may come to a fresh
    /// connection in any order and repeatedly: every call before the one that
    /// brings the last missing fragment delivers nothing, and that call delivers
    /// the message. On the unreliable lane it is refused instead, within the
    /// lifetime of a partial frame.
    pub proof fn messages_arrive_in_any_order(
        limit: usize,
        order: Seq<int>,
        times_ns: Seq<u64>,
        revision: u64,
        reliable: bool,
        bytes: Seq<u8>,
        read: spec_fn(FramesModel, Seq<u8>) -> Body,
        n: int,
    )
        requires
            limit <= u32::MAX,
            revision != 0,
            1 <= bytes.len() <= limit,
            order.len() == times_ns.len(),
            forall|k: int|
                0 <= k < order.len() ==> 0 <= #[trigger] order[k] < chunk_count(bytes.len()),
            reliable || forall|k: int|
                0 <= k < times_ns.len() ==> #[trigger] times_ns[k] - times_ns[0]
                    < FRAME_LIFETIME_NS,
            0 <= n < order.len(),
            !covers(order.take(n), chunk_count(bytes.len())),
            match inflated(bytes, limit) {
                None => false,
                Some(body) => forall|frames: FramesModel| #[trigger]
                    read(frames, body) == Body::Message(Content::Control),
            },
        ensures
            FramesModel::initial(limit).taking_all(
                fragments(revision, reliable, bytes, order).take(n),
                times_ns.take(n),
                read,
            ).taking(fragment(revision, reliable, bytes, order[n]), times_ns[n], read).1 == (
            if !covers(order.take(n + 1), chunk_count(bytes.len())) {
                Delivery::Nothing
            } else if reliable {
                Delivery::Message(Content::Control)
            } else {
                Delivery::Refused(WireError::UnreliableControl)
            }),
    {
        let packets = fragments(revision, reliable, bytes, order);
        let head = order.take(n);
        assert(packets.take(n) =~= fragments(revision, reliable, bytes, head));
        assert forall|k: int| 0 <= k < head.len() implies 0 <= #[trigger] head[k]
            < chunk_count(bytes.len()) by {
            assert(head[k] == order[k]);
        }
        FramesModel::waiting_changes_the_reassembly_alone(
            limit,
            head,
            times_ns.take(n),
            revision,
            reliable,
            bytes,
            read,
        );
        the_last_missing_fragment_completes(limit, order, times_ns, revision, reliable, bytes, n);
        before_completion_keeps_the_limit(
            limit,
            head,
            times_ns.take(n),
            revision,
            reliable,
            bytes,
        );
    }

    /// A snapshot is delivered just when it is newer than every one delivered
    /// before, on whichever lane either came: a late one never takes newer
    /// state back, and an old baseline never hides a newer confirmation.
    pub proof fn snapshots_never_go_back(
        self,
        first: u64,
        first_lane: bool,
        second: u64,
        second_lane: bool,
    )
        ensures
            ({
                let after = self.judging(first_lane, Content::Snapshot(first)).0;
                let newest = if first > self.latest_snapshot {
                    first
                } else {
                    self.latest_snapshot
                };
                &&& after.latest_snapshot == newest
                &&& after.judging(second_lane, Content::Snapshot(second)).1 == Ok::<
                    bool,
                    WireError,
                >(second > newest)
            }),
    {
    }
}

impl Frames {
    /// Partial frames and baselines are consistent, and few answers wait.
    pub open spec fn wf(&self) -> bool {
        self.reassembly.wf() && self.decoder.wf() && self.feedback@.len() <= FEEDBACK_QUEUE
    }

    /// With nothing received; `limit` is the longest frame.
    pub fn new(limit: usize) -> (r: Frames)
        requires
            limit <= u32::MAX,
        ensures
            r.wf(),
            r@ == FramesModel::initial(limit),
    {
        Frames {
            reassembly: Reassembly::new(limit),
            decoder: Decoder::new(),
            feedback: VecDeque::new(),
            latest_snapshot: 0,
            stale_updates: 0,
            complete_snapshots: 0,
        }
    }

    /// Accept one fragment. Returns the inflated frame that it completes.
    pub fn receive(&mut self, packet: &[u8], now_ns: u64) -> (r: Result<
        Option<Assembled>,
        WireError,
    >)
        requires
            old(self).wf(),
        ensures
            final(self).wf(),
            final(self)@ == (FramesModel {
                reassembly: old(self)@.reassembly.receiving(packet@, now_ns).0,
                ..old(self)@
            }),
            match old(self)@.reassembly.receiving(packet@, now_ns).1 {
                Arrival::Refused(error) => r == Err::<Option<Assembled>, WireError>(error),
                Arrival::Waiting => r == Ok::<Option<Assembled>, WireError>(None),
                Arrival::Complete { reliable, bytes } => match inflated(
                    bytes,
                    old(self).reassembly.limit,
                ) {
                    None => r == Err::<Option<Assembled>, WireError>(WireError::Inflate),
                    Some(body) => match r {
                        Ok(Some(frame)) => frame.reliable == reliable && frame.bytes@ == body,
                        _ => false,
                    },
                },
            },
    {
        match self.reassembly.receive(packet, now_ns) {
            Err(error) => Err(error),
            Ok(None) => Ok(None),
            Ok(Some(frame)) => match unpack(&frame.bytes, self.reassembly.limit) {
                Err(error) => Err(error),
                Ok(bytes) => Ok(Some(Assembled { reliable: frame.reliable, bytes })),
            },
        }
    }

    /// Queue an answer.
    fn answer(&mut self, feedback: Feedback)
        requires
            old(self).wf(),
        ensures
            final(self).wf(),
            final(self)@ == (FramesModel {
                feedback: answering(old(self)@.feedback, feedback),
                ..old(self)@
            }),
    {
        if self.feedback.len() >= FEEDBACK_QUEUE {
            let _ = self.feedback.pop_front();
        }
        self.feedback.push_back(feedback);
    }

    /// Look at the header of a frame on the delta lane.
    pub fn open_wire(&mut self, reliable: bool, wire: Wire) -> (r: Result<Opened, WireError>)
        requires
            old(self).wf(),
        ensures
            final(self).wf(),
            final(self)@ == old(self)@.opening(reliable, wire).0,
            r == old(self)@.opening(reliable, wire).1,
            match (wire, r) {
                (Wire::Packed { announced, .. }, Ok(Opened::Unpack { .. })) =>
                    final(self).decoder.awaits(announced),
                _ => true,
            },
    {
        if !reliable {
            if let Wire::Retire(_) = wire {
                return Err(WireError::UnreliableRetirement);
            }
        }
        let opened = self.decoder.open(wire);
        if let Ok(Opened::Answer(feedback)) = opened {
            self.answer(feedback);
        }
        opened
    }

    /// Take an unpacked checkpoint; it is delivered unless this fails.
    pub fn close_wire(&mut self, header: Header, unpacked: Unpacked) -> (r: Result<(), WireError>)
        requires
            old(self).wf(),
            old(self).decoder.awaits(header),
        ensures
            final(self).wf(),
            final(self)@ == old(self)@.closing(header, unpacked).0,
            r == old(self)@.closing(header, unpacked).1,
    {
        match self.decoder.close(header, unpacked, self.reassembly.limit) {
            Err(error) => Err(error),
            Ok(None) => Ok(()),
            Ok(Some(feedback)) => {
                self.answer(feedback);
                Ok(())
            },
        }
    }

    /// Judge a decoded message: whether it is delivered.
    pub fn accept(&mut self, reliable: bool, content: Content) -> (r: Result<bool, WireError>)
        requires
            old(self).wf(),
        ensures
            final(self).wf(),
            final(self)@ == old(self)@.judging(reliable, content).0,
            r == old(self)@.judging(reliable, content).1,
    {
        match content {
            Content::Control => if reliable {
                Ok(true)
            } else {
                Err(WireError::UnreliableControl)
            },
            Content::Snapshot(id) => {
                if id <= self.latest_snapshot {
                    self.stale_updates = self.stale_updates.saturating_add(1);
                    return Ok(false);
                }
                self.latest_snapshot = id;
                self.complete_snapshots = self.complete_snapshots.saturating_add(1);
                Ok(true)
            },
        }
    }

    /// What a frame on the delta lane would ask for; nothing changes.
    pub fn asks(&self, reliable: bool, wire: Wire) -> (r: Result<Opened, WireError>)
        requires
            self.wf(),
        ensures
            r == self@.opening(reliable, wire).1,
    {
        if !reliable {
            if let Wire::Retire(_) = wire {
                return Err(WireError::UnreliableRetirement);
            }
        }
        let mut decoder = self.decoder;
        decoder.open(wire)
    }

    /// Hand a decoded message on where it is judged deliverable.
    fn hand(&mut self, reliable: bool, content: Content) -> (r: Delivery)
        requires
            old(self).wf(),
        ensures
            final(self).wf(),
            final(self)@ == old(self)@.handing(reliable, content).0,
            r == old(self)@.handing(reliable, content).1,
    {
        match self.accept(reliable, content) {
            Err(error) => Delivery::Refused(error),
            Ok(false) => Delivery::Nothing,
            Ok(true) => Delivery::Message(content),
        }
    }

    /// Take what reading a complete frame gave. Returns what is delivered.
    pub fn deliver(&mut self, reliable: bool, body: Body) -> (r: Delivery)
        requires
            old(self).wf(),
        ensures
            final(self).wf(),
            final(self)@ == old(self)@.delivering(reliable, body).0,
            r == old(self)@.delivering(reliable, body).1,
    {
        match body {
            Body::Unreadable => Delivery::Unreadable,
            Body::Message(content) => self.hand(reliable, content),
            Body::Retire(retire) => match self.open_wire(reliable, Wire::Retire(retire)) {
                Err(error) => Delivery::Refused(error),
                Ok(_) => Delivery::Nothing,
            },
            Body::Packed { announced, actual, unpacked } => {
                match self.open_wire(reliable, Wire::Packed { announced, actual }) {
                    Err(error) => Delivery::Refused(error),
                    Ok(Opened::Unpack { .. }) => match unpacked {
                        None => Delivery::Unreadable,
                        Some((taken, id)) => match self.close_wire(announced, taken) {
                            Err(error) => Delivery::Refused(error),
                            Ok(()) => self.hand(reliable, Content::Snapshot(id)),
                        },
                    },
                    Ok(_) => Delivery::Nothing,
                }
            },
        }
    }

    /// The oldest answer to send.
    pub fn next_feedback(&mut self) -> (r: Option<Feedback>)
        requires
            old(self).wf(),
        ensures
            final(self).wf(),
            match r {
                None => old(self)@.feedback.len() == 0 && final(self)@ == old(self)@,
                Some(feedback) => {
                    &&& old(self)@.feedback.len() > 0
                    &&& feedback == old(self)@.feedback[0]
                    &&& final(self)@ == (FramesModel {
                        feedback: old(self)@.feedback.remove(0),
                        ..old(self)@
                    })
                },
            },
    {
        self.feedback.pop_front()
    }
}

} // verus!
