//! One peer's whole host-side leg: admission, the seat it was given, and its
//! wire. It holds no socket and reads no clock.
use super::baseline::{ack_magic, feedback_body, Choice, Encoder, Feedback, Retire};
use super::bytes::{put_bytes, starts_with, tagged};
use super::compress::{deflated, inflated, pack, unpack};
use super::inputs::{batch_magic, decode_inputs, read_packet, PilotInput};
use super::packet::{chunk_count, fragment, packets, HEADER};
use super::reassembly::counted;
use super::WireError;
use vstd::prelude::*;
use vstd::slice::{slice_subrange, slice_to_vec};

verus! {

/// Bytes of a client datagram at most.
pub const CLIENT_LIMIT: usize = 65_536;

/// Bytes of an inflated command at most.
pub const COMMAND_LIMIT: usize = 16_384;

/// A carrier with a larger backlog skips world checkpoints.
pub const CONGESTED_PENDING_BYTES: u32 = 65_536;

/// Time between two delivery reports.
pub const REPORT_INTERVAL_NS: u64 = 1_000_000_000;

/// The first four bytes of a deflated command: `RMC1`.
pub open spec fn command_magic() -> Seq<u8> {
    seq![82, 77, 67, 49]
}

/// What a client's datagram turned out to be.
#[derive(Clone, Debug)]
pub enum PeerRequest {
    /// Baseline feedback, as its JSON.
    Feedback(Vec<u8>),
    /// Pilot input frames, newest last.
    Inputs(Vec<PilotInput>),
    /// A client message that is not pilot input, as its JSON.
    Message(Vec<u8>),
}

/// What a client's datagram turned out to be, as a value.
pub enum Request {
    /// It was refused.
    Refused(WireError),
    /// Baseline feedback, as its JSON.
    Feedback(Seq<u8>),
    /// Pilot input frames, newest last.
    Inputs(Seq<PilotInput>),
    /// A client message that is not pilot input, as its JSON.
    Message(Seq<u8>),
}

impl Request {
    /// A call returned this.
    pub open spec fn is(self, r: Result<PeerRequest, WireError>) -> bool {
        match (self, r) {
            (Request::Refused(error), Err(e)) => error == e,
            (Request::Feedback(json), Ok(PeerRequest::Feedback(v))) => v@ == json,
            (Request::Inputs(inputs), Ok(PeerRequest::Inputs(v))) => v@ == inputs,
            (Request::Message(json), Ok(PeerRequest::Message(v))) => v@ == json,
            _ => false,
        }
    }
}

/// What a client's datagram says. Feedback and input come only from peers that
/// have joined.
pub open spec fn read_request(payload: Seq<u8>, joined: bool) -> Request {
    if payload.len() > CLIENT_LIMIT {
        Request::Refused(WireError::TooLarge)
    } else if tagged(payload, ack_magic()) {
        if !joined {
            Request::Refused(WireError::ExpectedHello)
        } else {
            match feedback_body(payload) {
                Some(json) => Request::Feedback(json),
                None => Request::Refused(WireError::Feedback),
            }
        }
    } else if tagged(payload, batch_magic()) {
        if !joined {
            Request::Refused(WireError::ExpectedHello)
        } else {
            match read_packet(payload) {
                Ok(inputs) => Request::Inputs(inputs),
                Err(error) => Request::Refused(error),
            }
        }
    } else if tagged(payload, command_magic()) {
        match inflated(payload.subrange(4, payload.len() as int), COMMAND_LIMIT) {
            Some(json) => Request::Message(json),
            None => Request::Refused(WireError::Inflate),
        }
    } else {
        Request::Message(payload)
    }
}

/// Decode one client datagram.
pub fn decode_request(payload: &[u8], joined: bool) -> (r: Result<PeerRequest, WireError>)
    ensures
        read_request(payload@, joined).is(r),
{
    if payload.len() > CLIENT_LIMIT {
        return Err(WireError::TooLarge);
    }
    let ack: [u8; 4] = [82, 77, 65, 49];
    let batch: [u8; 4] = [82, 77, 73, 50];
    let command: [u8; 4] = [82, 77, 67, 49];
    proof {
        assert(ack@ =~= ack_magic());
        assert(batch@ =~= batch_magic());
        assert(command@ =~= command_magic());
    }
    if starts_with(payload, &ack) {
        if !joined {
            return Err(WireError::ExpectedHello);
        }
        return match Feedback::decode(payload) {
            Ok(json) => Ok(PeerRequest::Feedback(json)),
            Err(error) => Err(error),
        };
    }
    if starts_with(payload, &batch) {
        if !joined {
            return Err(WireError::ExpectedHello);
        }
        return match decode_inputs(payload) {
            Ok(inputs) => Ok(PeerRequest::Inputs(inputs)),
            Err(error) => Err(error),
        };
    }
    if starts_with(payload, &command) {
        return match unpack(slice_subrange(payload, 4, payload.len()), COMMAND_LIMIT) {
            Ok(json) => Ok(PeerRequest::Message(json)),
            Err(error) => Err(error),
        };
    }
    Ok(PeerRequest::Message(slice_to_vec(payload)))
}

/// A deflated command, from its JSON: an unconfirmed shot retries this way on
/// the unreliable lane. A host reads the same JSON from it, joined or not.
pub fn command_payload(json: &[u8]) -> (r: Vec<u8>)
    ensures
        r@ == command_magic() + deflated(json@, 1),
        json@.len() <= COMMAND_LIMIT && r@.len() <= CLIENT_LIMIT ==> forall|joined: bool|
            #[trigger] read_request(r@, joined) == Request::Message(json@),
{
    let stream = pack(json);
    let mut out: Vec<u8> = Vec::new();
    out.push(82);
    out.push(77);
    out.push(67);
    out.push(49);
    put_bytes(&mut out, &stream);
    proof {
        assert(out@ =~= command_magic() + stream@);
        assert(out@.subrange(0, 4) =~= command_magic());
        assert(out@.subrange(4, out@.len() as int) =~= stream@);
        assert(command_magic()[2] != ack_magic()[2] && command_magic()[2] != batch_magic()[2]);
        assert(inflated(stream@, COMMAND_LIMIT) == Some(json@) || json@.len() > COMMAND_LIMIT);
    }
    out
}

/// Host encoding counters of one peer.
#[derive(Clone, Copy, Debug, PartialEq, Eq, Structural)]
pub struct EncodingStats {
    /// Owner anchors queued.
    pub owner_updates: u64,
    /// Bytes of them.
    pub owner_bytes: u64,
    /// World checkpoints skipped for a backlog.
    pub skipped_world_updates: u64,
    /// Source bytes of world checkpoints.
    pub raw_world_bytes: u64,
    /// World checkpoints queued.
    pub world_updates: u64,
    /// Bytes of them with their headers.
    pub framed_world_bytes: u64,
    /// Bytes the same states would have taken as independent frames.
    pub independent_bytes: u64,
    /// Bytes actually produced.
    pub selected_bytes: u64,
}

/// How a host frame is encoded.
#[derive(Clone, Copy, Debug, PartialEq, Eq, Structural)]
pub enum SendPlan {
    /// Not at all: the carrier is congested.
    Skip,
    /// On the delta lane.
    Delta,
    /// As it is.
    Plain,
}

/// A host frame to send.
#[derive(Clone, Copy, Debug, PartialEq, Eq, Structural)]
pub struct Outbound {
    /// It is replaced by the next of its kind, and may be lost.
    pub periodic: bool,
    /// It carries a snapshot.
    pub snapshot: bool,
}

/// The host's half of one peer's wire.
#[derive(Clone, Copy, Debug, PartialEq, Eq, Structural)]
pub struct PeerCodec {
    /// When the carrier accepted this peer.
    pub admitted_ns: u64,
    /// Chassis of the seat the peer was given.
    pub chassis: Option<u32>,
    /// The peer has a seat.
    pub joined: bool,
    /// Number of the last frame.
    pub revision: u64,
    /// Baselines.
    pub encoder: Encoder,
    /// Deltas are disabled.
    pub full_checkpoints: bool,
    /// Counters.
    pub encoding: EncodingStats,
    /// Longest frame.
    pub limit: usize,
}

impl PeerCodec {
    /// At the peer's admission.
    pub open spec fn initial(admitted_ns: u64, full_checkpoints: bool, limit: usize) -> PeerCodec {
        PeerCodec {
            admitted_ns,
            chassis: None,
            joined: false,
            revision: 0,
            encoder: Encoder::initial(),
            full_checkpoints,
            encoding: EncodingStats {
                owner_updates: 0,
                owner_bytes: 0,
                skipped_world_updates: 0,
                raw_world_bytes: 0,
                world_updates: 0,
                framed_world_bytes: 0,
                independent_bytes: 0,
                selected_bytes: 0,
            },
            limit,
        }
    }

    /// Time since the peer was admitted.
    pub open spec fn elapsed(self, now_ns: u64) -> u64 {
        if now_ns >= self.admitted_ns {
            (now_ns - self.admitted_ns) as u64
        } else {
            0
        }
    }

    /// The chassis whose owner anchor goes with a frame.
    pub open spec fn anchor_of(self, frame: Outbound) -> Option<u32> {
        if frame.periodic && frame.snapshot {
            self.chassis
        } else {
            None
        }
    }

    /// The peer once an owner anchor was sent.
    pub open spec fn anchor_noted(self, bytes: usize) -> PeerCodec {
        PeerCodec {
            encoding: EncodingStats {
                owner_updates: counted(self.encoding.owner_updates, 1),
                owner_bytes: counted(self.encoding.owner_bytes, bytes as int),
                ..self.encoding
            },
            ..self
        }
    }

    /// The peer once a frame was planned: one that is skipped is counted.
    pub open spec fn planned(self, frame: Outbound, pending_bytes: u32) -> PeerCodec {
        if self.plan(frame, pending_bytes) == SendPlan::Skip {
            PeerCodec {
                encoding: EncodingStats {
                    skipped_world_updates: counted(self.encoding.skipped_world_updates, 1),
                    ..self.encoding
                },
                ..self
            }
        } else {
            self
        }
    }

    /// The rotation is consistent and lengths fit their field.
    pub open spec fn wf(self) -> bool {
        self.encoder.wf() && self.limit <= u32::MAX
    }

    /// For a peer the carrier admitted.
    pub fn new(admitted_ns: u64, full_checkpoints: bool, limit: usize) -> (r: PeerCodec)
        requires
            limit <= u32::MAX,
        ensures
            r == PeerCodec::initial(admitted_ns, full_checkpoints, limit),
            r.wf(),
    {
        PeerCodec {
            admitted_ns,
            chassis: None,
            joined: false,
            revision: 0,
            encoder: Encoder::new(),
            full_checkpoints,
            encoding: EncodingStats {
                owner_updates: 0,
                owner_bytes: 0,
                skipped_world_updates: 0,
                raw_world_bytes: 0,
                world_updates: 0,
                framed_world_bytes: 0,
                independent_bytes: 0,
                selected_bytes: 0,
            },
            limit,
        }
    }

    /// Record the seat this peer was given.
    pub fn seated(&mut self, chassis: Option<u32>)
        ensures
            *final(self) == (PeerCodec { joined: true, chassis, ..*old(self) }),
    {
        self.joined = true;
        self.chassis = chassis;
    }

    /// Time since admission, which is the pacer's time base.
    pub fn elapsed_ns(&self, now_ns: u64) -> (r: u64)
        ensures
            r == self.elapsed(now_ns),
    {
        now_ns.saturating_sub(self.admitted_ns)
    }

    /// The chassis whose owner anchor goes with a frame: the peer's own, with
    /// every periodic snapshot, congested or not.
    pub fn anchored(&self, frame: Outbound) -> (r: Option<u32>)
        ensures
            r == self.anchor_of(frame),
    {
        if frame.periodic && frame.snapshot {
            self.chassis
        } else {
            None
        }
    }

    /// Count an owner anchor.
    pub fn note_anchor(&mut self, bytes: usize)
        ensures
            *final(self) == old(self).anchor_noted(bytes),
    {
        self.encoding.owner_updates = self.encoding.owner_updates.saturating_add(1);
        self.encoding.owner_bytes = self.encoding.owner_bytes.saturating_add(bytes as u64);
    }

    /// How a frame is encoded under a carrier's backlog.
    pub open spec fn plan(self, frame: Outbound, pending_bytes: u32) -> SendPlan {
        if frame.periodic && pending_bytes > CONGESTED_PENDING_BYTES {
            SendPlan::Skip
        } else if frame.periodic && frame.snapshot && !self.full_checkpoints {
            SendPlan::Delta
        } else {
            SendPlan::Plain
        }
    }

    /// Plan one host frame. A congested carrier skips world checkpoints.
    pub fn plan_send(&mut self, frame: Outbound, pending_bytes: u32) -> (r: SendPlan)
        ensures
            r == old(self).plan(frame, pending_bytes),
            *final(self) == old(self).planned(frame, pending_bytes),
    {
        if frame.periodic && pending_bytes > CONGESTED_PENDING_BYTES {
            self.encoding.skipped_world_updates =
            self.encoding.skipped_world_updates.saturating_add(1);
            return SendPlan::Skip;
        }
        if frame.periodic && frame.snapshot && !self.full_checkpoints {
            SendPlan::Delta
        } else {
            SendPlan::Plain
        }
    }

    /// At the start of a delta-lane frame whose source has some length.
    pub open spec fn delta_begun(self, epoch: u64, source_len: usize) -> PeerCodec {
        PeerCodec {
            encoder: self.encoder.begun(epoch),
            encoding: EncodingStats {
                raw_world_bytes: counted(self.encoding.raw_world_bytes, source_len as int),
                ..self.encoding
            },
            ..self
        }
    }

    /// Start a frame on the delta lane.
    pub fn begin_delta(&mut self, epoch: u64, source_len: usize)
        requires
            old(self).wf(),
        ensures
            *final(self) == old(self).delta_begun(epoch, source_len),
            final(self).wf(),
            final(self).encoder.epoch == Some(epoch),
    {
        self.encoding.raw_world_bytes =
        self.encoding.raw_world_bytes.saturating_add(source_len as u64);
        self.encoder.begin(epoch);
    }

    /// Choose how a frame on the delta lane is packed.
    pub fn choose_packing(&mut self, state: u64, source_len: usize, independent_len: u64) -> (r:
        Result<Choice, WireError>)
        requires
            old(self).wf(),
            old(self).encoder.epoch is Some,
        ensures
            *final(self) == (PeerCodec {
                encoder: old(self).encoder.choosing(state, source_len, independent_len).0,
                ..*old(self)
            }),
            r == old(self).encoder.choosing(state, source_len, independent_len).1,
            final(self).wf(),
    {
        self.encoder.snapshot(state, source_len, independent_len)
    }

    /// Count a frame on the delta lane. Returns whether its chosen packing is
    /// sent rather than the independent one.
    pub fn finish_packing(&mut self, choice: Choice, independent_len: u64, packed_len: u64) -> (r:
        bool)
        requires
            old(self).wf(),
        ensures
            *final(self) == (PeerCodec {
                encoder: old(self).encoder.finished(choice, independent_len, packed_len).0,
                ..*old(self)
            }),
            r == old(self).encoder.finished(choice, independent_len, packed_len).1,
            final(self).wf(),
    {
        self.encoder.finish(choice, independent_len, packed_len)
    }

    /// With a frame of some length numbered and counted.
    pub open spec fn framed(self, periodic: bool, length: nat) -> PeerCodec {
        let numbered = PeerCodec { revision: (self.revision + 1) as u64, ..self };
        if periodic && 1 <= length <= self.limit {
            PeerCodec {
                encoding: EncodingStats {
                    world_updates: counted(self.encoding.world_updates, 1),
                    framed_world_bytes: counted(
                        self.encoding.framed_world_bytes,
                        HEADER * chunk_count(length) + length,
                    ),
                    independent_bytes: self.encoder.full_bytes,
                    selected_bytes: self.encoder.sent_bytes,
                    ..self.encoding
                },
                ..numbered
            }
        } else {
            numbered
        }
    }

    /// Number a frame and split it. Numbers order the frames of a connection
    /// and never come again; control frames travel on the reliable lane.
    pub fn frame(&mut self, periodic: bool, bytes: &[u8]) -> (r: Result<Vec<Vec<u8>>, WireError>)
        requires
            old(self).wf(),
        ensures
            final(self).wf(),
            *final(self) == if old(self).revision == u64::MAX {
                *old(self)
            } else {
                old(self).framed(periodic, bytes@.len())
            },
            match r {
                Ok(out) => {
                    &&& old(self).revision < u64::MAX
                    &&& 1 <= bytes@.len() <= old(self).limit
                    &&& out@.len() == chunk_count(bytes@.len())
                    &&& forall|i: int|
                        0 <= i < out@.len() ==> (#[trigger] out@[i])@ == fragment(
                            (old(self).revision + 1) as u64,
                            !periodic,
                            bytes@,
                            i,
                        )
                },
                Err(error) => if old(self).revision == u64::MAX {
                    error == WireError::RevisionOverflow
                } else {
                    &&& bytes@.len() == 0 || bytes@.len() > old(self).limit
                    &&& error == WireError::FrameSize
                },
            },
    {
        if self.revision == u64::MAX {
            return Err(WireError::RevisionOverflow);
        }
        self.revision = self.revision + 1;
        match packets(self.revision, !periodic, bytes, self.limit) {
            Err(error) => Err(error),
            Ok(out) => {
                if periodic {
                    self.encoding.world_updates = self.encoding.world_updates.saturating_add(1);
                    let framed: u64 = HEADER as u64 * out.len() as u64 + bytes.len() as u64;
                    self.encoding.framed_world_bytes =
                    self.encoding.framed_world_bytes.saturating_add(framed);
                    self.encoding.independent_bytes = self.encoder.full_bytes;
                    self.encoding.selected_bytes = self.encoder.sent_bytes;
                }
                Ok(out)
            },
        }
    }
}

/// The host's answer to a hello.
#[derive(Clone, Copy, Debug, PartialEq, Eq, Structural)]
pub struct Welcome {
    /// The host's number for the seat.
    pub client_id: u32,
    /// The seat's chassis.
    pub chassis: Option<u32>,
    /// Protocol version.
    pub protocol: u32,
}

/// A datagram for the carrier.
#[derive(Clone, Debug, PartialEq, Eq)]
pub struct Datagram {
    /// It must arrive.
    pub reliable: bool,
    /// Its bytes.
    pub bytes: Vec<u8>,
}

/// What a client message says, as far as the peer cares.
#[derive(Clone, Copy, Debug, PartialEq, Eq, Structural)]
pub enum Said {
    /// A hello in a protocol version.
    Hello { protocol: u32 },
    /// Anything else.
    Other,
}

/// What becomes of a client message.
#[derive(Clone, Copy, Debug, PartialEq, Eq, Structural)]
pub enum Submission {
    /// The host takes it from a seat.
    Seat(u32),
    /// The host is asked for a seat.
    Join,
}

/// What is left of one turn of pumping.
#[derive(Clone, Copy, Debug, PartialEq, Eq, Structural)]
pub struct Pump {
    /// Host messages still to move.
    pub frames: usize,
    /// Packets still to pace out.
    pub datagrams: usize,
}

/// What pumping asks for.
#[derive(Clone, Copy, Debug, PartialEq, Eq, Structural)]
pub enum PumpAction {
    /// Encode the next message of the seat's outbox.
    Frame,
    /// Encode a delivery report.
    Report,
    /// Ask the pacer for a packet.
    Packet,
    /// Nothing more.
    Done,
}

/// What came of it.
#[derive(Clone, Debug, PartialEq, Eq)]
pub enum PumpEvent {
    /// A turn starts.
    Start,
    /// A message was encoded.
    Sent,
    /// The outbox is empty.
    Empty,
    /// The report was encoded.
    Reported,
    /// The pacer allowed a packet.
    Packet(Datagram),
    /// The pacer allows none yet.
    Dry,
}

/// One peer's host-side leg.
#[derive(Clone, Debug, PartialEq, Eq)]
pub struct HostPeer {
    /// Its wire.
    pub codec: PeerCodec,
    /// The host asked for this seat to close.
    pub stop: bool,
    /// The host's number for the seat.
    pub seat: Option<u32>,
    /// The host's answer to the hello.
    pub welcome: Option<Welcome>,
    /// Datagrams for the carrier, oldest first.
    pub outgoing: Vec<Datagram>,
    /// When the last delivery report was sent.
    pub last_report_ns: u64,
}

/// One peer's host-side leg as a value.
pub struct HostPeerModel {
    /// Its wire.
    pub codec: PeerCodec,
    /// The host asked for this seat to close.
    pub stop: bool,
    /// The host's number for the seat.
    pub seat: Option<u32>,
    /// The host's answer to the hello.
    pub welcome: Option<Welcome>,
    /// Datagrams for the carrier, oldest first.
    pub outgoing: Seq<Datagram>,
    /// When the last delivery report was sent.
    pub last_report_ns: u64,
}

impl View for HostPeer {
    type V = HostPeerModel;

    open spec fn view(&self) -> HostPeerModel {
        HostPeerModel {
            codec: self.codec,
            stop: self.stop,
            seat: self.seat,
            welcome: self.welcome,
            outgoing: self.outgoing@,
            last_report_ns: self.last_report_ns,
        }
    }
}

impl HostPeerModel {
    /// The seat, its welcome and its wire agree.
    pub open spec fn wf(self) -> bool {
        &&& self.codec.wf()
        &&& self.codec.joined == (self.seat is Some)
        &&& self.welcome is Some == (self.seat is Some)
        &&& self.welcome is Some ==> self.seat == Some(self.welcome->0.client_id)
            && self.codec.chassis == self.welcome->0.chassis
    }

    /// A delivery report is due.
    pub open spec fn report_due(self, now_ns: u64) -> bool {
        self.seat is Some && now_ns - self.last_report_ns >= REPORT_INTERVAL_NS
    }

    /// What pumping asks for: messages of the seat first, then a report that
    /// is due, then packets.
    pub open spec fn pumping(self, now_ns: u64, pump: Pump) -> PumpAction {
        if self.seat is Some && pump.frames > 0 {
            PumpAction::Frame
        } else if self.report_due(now_ns) {
            PumpAction::Report
        } else if pump.datagrams > 0 {
            PumpAction::Packet
        } else {
            PumpAction::Done
        }
    }

    /// What came of an action, counted.
    pub open spec fn pumped(self, now_ns: u64, pump: Pump, event: PumpEvent) -> (
        HostPeerModel,
        Pump,
    ) {
        match event {
            PumpEvent::Start => (self, pump),
            PumpEvent::Sent => (
                self,
                Pump {
                    frames: if pump.frames > 0 {
                        (pump.frames - 1) as usize
                    } else {
                        0
                    },
                    ..pump
                },
            ),
            PumpEvent::Empty => (self, Pump { frames: 0, ..pump }),
            PumpEvent::Reported => (HostPeerModel { last_report_ns: now_ns, ..self }, pump),
            PumpEvent::Packet(datagram) => (
                HostPeerModel { outgoing: self.outgoing.push(datagram), ..self },
                Pump {
                    datagrams: if pump.datagrams > 0 {
                        (pump.datagrams - 1) as usize
                    } else {
                        0
                    },
                    ..pump
                },
            ),
            PumpEvent::Dry => (self, Pump { datagrams: 0, ..pump }),
        }
    }

    /// How much of a turn is left.
    pub open spec fn left(self, now_ns: u64, pump: Pump) -> nat {
        pump.frames as nat + pump.datagrams as nat + if self.report_due(now_ns) {
            1nat
        } else {
            0
        }
    }

    /// The event answers the action.
    pub open spec fn answers(event: PumpEvent, action: PumpAction) -> bool {
        match action {
            PumpAction::Frame => event is Sent || event is Empty,
            PumpAction::Report => event is Reported,
            PumpAction::Packet => event is Packet || event is Dry,
            PumpAction::Done => false,
        }
    }

    /// One turn ends: every answered action leaves less of it, so one busy
    /// peer cannot starve the others.
    pub proof fn pumping_ends(self, now_ns: u64, pump: Pump, event: PumpEvent)
        requires
            HostPeerModel::answers(event, self.pumping(now_ns, pump)),
        ensures
            ({
                let (next, rest) = self.pumped(now_ns, pump, event);
                next.left(now_ns, rest) < self.left(now_ns, pump)
            }),
    {
    }

    /// A seat gets at most one report in every report interval.
    pub proof fn reports_keep_their_interval(self, now_ns: u64, later_ns: u64)
        requires
            now_ns <= later_ns,
            self.pumped(
                now_ns,
                Pump { frames: 0, datagrams: 0 },
                PumpEvent::Reported,
            ).0.report_due(later_ns),
        ensures
            later_ns - now_ns >= REPORT_INTERVAL_NS,
    {
    }

    /// What becomes of a client message: a seat's goes to the host, and before
    /// there is one only a hello in the host's protocol version is heard.
    pub open spec fn submitting(self, said: Said, version: u32) -> Result<Submission, WireError> {
        match self.seat {
            Some(id) => Ok(Submission::Seat(id)),
            None => match said {
                Said::Other => Err(WireError::ExpectedHello),
                Said::Hello { protocol } => if protocol == version {
                    Ok(Submission::Join)
                } else {
                    Err(WireError::Protocol)
                },
            },
        }
    }
}

impl HostPeer {
    /// The seat, its welcome and its wire agree.
    pub open spec fn wf(&self) -> bool {
        self@.wf()
    }

    /// For a peer the carrier admitted; the hello timeout and the pacer both
    /// measure from then.
    pub fn new(admitted_ns: u64, full_checkpoints: bool, limit: usize) -> (r: HostPeer)
        requires
            limit <= u32::MAX,
        ensures
            r.wf(),
            r@ == (HostPeerModel {
                codec: PeerCodec::initial(admitted_ns, full_checkpoints, limit),
                stop: false,
                seat: None,
                welcome: None,
                outgoing: Seq::empty(),
                last_report_ns: admitted_ns,
            }),
    {
        HostPeer {
            codec: PeerCodec::new(admitted_ns, full_checkpoints, limit),
            stop: false,
            seat: None,
            welcome: None,
            outgoing: Vec::new(),
            last_report_ns: admitted_ns,
        }
    }

    /// When the carrier accepted this peer.
    pub fn admitted(&self) -> (r: u64)
        ensures
            r == self@.codec.admitted_ns,
    {
        self.codec.admitted_ns
    }

    /// The host's number for this peer's seat, or `None` before its hello.
    pub fn client_id(&self) -> (r: Option<u32>)
        ensures
            r == self@.seat,
    {
        self.seat
    }

    /// The welcome the host returned, or `None` before the hello.
    pub fn welcome(&self) -> (r: Option<Welcome>)
        ensures
            r == self@.welcome,
    {
        self.welcome
    }

    /// The host asked for this seat to close.
    pub fn closed(&self) -> (r: bool)
        ensures
            r == self@.stop,
    {
        self.stop
    }

    /// Ask for this seat to close.
    pub fn close(&mut self)
        ensures
            final(self)@ == (HostPeerModel { stop: true, ..old(self)@ }),
    {
        self.stop = true;
    }

    /// Decode one datagram from this peer.
    pub fn deliver(&self, payload: &[u8]) -> (r: Result<PeerRequest, WireError>)
        requires
            self.wf(),
        ensures
            read_request(payload@, self@.seat is Some).is(r),
    {
        decode_request(payload, self.codec.joined)
    }

    /// What becomes of a client message under the host's protocol version.
    pub fn submit(&self, said: Said, version: u32) -> (r: Result<Submission, WireError>)
        ensures
            r == self@.submitting(said, version),
    {
        match self.seat {
            Some(id) => Ok(Submission::Seat(id)),
            None => match said {
                Said::Other => Err(WireError::ExpectedHello),
                Said::Hello { protocol } => if protocol == version {
                    Ok(Submission::Join)
                } else {
                    Err(WireError::Protocol)
                },
            },
        }
    }

    /// Take the seat that the host gave.
    pub fn join(&mut self, welcome: Welcome)
        requires
            old(self).wf(),
        ensures
            final(self).wf(),
            final(self)@ == (HostPeerModel {
                codec: PeerCodec { joined: true, chassis: welcome.chassis, ..old(self)@.codec },
                seat: Some(welcome.client_id),
                welcome: Some(welcome),
                ..old(self)@
            }),
    {
        self.codec.seated(welcome.chassis);
        self.seat = Some(welcome.client_id);
        self.welcome = Some(welcome);
    }

    /// Apply baseline feedback. Returns the retirement to send.
    pub fn feedback(&mut self, feedback: Feedback) -> (r: Option<Retire>)
        requires
            old(self).wf(),
        ensures
            final(self).wf(),
            final(self)@ == (HostPeerModel {
                codec: PeerCodec {
                    encoder: old(self)@.codec.encoder.hearing(feedback).0,
                    ..old(self)@.codec
                },
                ..old(self)@
            }),
            r == old(self)@.codec.encoder.hearing(feedback).1,
    {
        self.codec.encoder.feedback(feedback)
    }

    /// One step of moving host messages into the codec and packets out of the
    /// pacer: what came of the last action, and the next one.
    pub fn pump(&mut self, now_ns: u64, pump: Pump, event: PumpEvent) -> (r: (Pump, PumpAction))
        requires
            old(self).wf(),
        ensures
            final(self).wf(),
            final(self)@ == old(self)@.pumped(now_ns, pump, event).0,
            r.0 == old(self)@.pumped(now_ns, pump, event).1,
            r.1 == final(self)@.pumping(now_ns, r.0),
    {
        let mut rest = pump;
        match event {
            PumpEvent::Start => {},
            PumpEvent::Sent => {
                rest.frames = rest.frames.saturating_sub(1);
            },
            PumpEvent::Empty => {
                rest.frames = 0;
            },
            PumpEvent::Reported => {
                self.last_report_ns = now_ns;
            },
            PumpEvent::Packet(datagram) => {
                self.outgoing.push(datagram);
                rest.datagrams = rest.datagrams.saturating_sub(1);
            },
            PumpEvent::Dry => {
                rest.datagrams = 0;
            },
        }
        let action = if self.seat.is_some() && rest.frames > 0 {
            PumpAction::Frame
        } else if self.seat.is_some() && now_ns.saturating_sub(self.last_report_ns)
            >= REPORT_INTERVAL_NS {
            PumpAction::Report
        } else if rest.datagrams > 0 {
            PumpAction::Packet
        } else {
            PumpAction::Done
        };
        (rest, action)
    }

    /// Datagrams the carrier should transmit, oldest first.
    pub fn take_outgoing(&mut self) -> (r: Vec<Datagram>)
        ensures
            r@ == old(self)@.outgoing,
            final(self)@ == (HostPeerModel { outgoing: Seq::empty(), ..old(self)@ }),
    {
        let mut out: Vec<Datagram> = Vec::new();
        std::mem::swap(&mut out, &mut self.outgoing);
        out
    }
}

/// A call on a peer that concerns what it sends.
pub ghost enum SendCall {
    /// A step of pumping.
    Pump { now_ns: u64, pump: Pump, event: PumpEvent },
    /// Taking what is to be transmitted.
    Take,
}

impl HostPeerModel {
    /// The peer after a call.
    pub open spec fn called(self, call: SendCall) -> HostPeerModel {
        match call {
            SendCall::Pump { now_ns, pump, event } => self.pumped(now_ns, pump, event).0,
            SendCall::Take => HostPeerModel { outgoing: Seq::empty(), ..self },
        }
    }

    /// The peer after calls in a row.
    pub open spec fn called_all(self, calls: Seq<SendCall>) -> HostPeerModel
        decreases calls.len(),
    {
        if calls.len() == 0 {
            self
        } else {
            self.called_all(calls.drop_last()).called(calls.last())
        }
    }

    /// Everything that the calls took, in order.
    pub open spec fn taken(self, calls: Seq<SendCall>) -> Seq<Datagram>
        decreases calls.len(),
    {
        if calls.len() == 0 {
            Seq::empty()
        } else {
            let before = self.taken(calls.drop_last());
            match calls.last() {
                SendCall::Take => before + self.called_all(calls.drop_last()).outgoing,
                SendCall::Pump { .. } => before,
            }
        }
    }
}

/// Every datagram that calls paced out, in order.
pub open spec fn paced_out(calls: Seq<SendCall>) -> Seq<Datagram>
    decreases calls.len(),
{
    if calls.len() == 0 {
        Seq::empty()
    } else {
        match calls.last() {
            SendCall::Pump { event: PumpEvent::Packet(datagram), .. } => paced_out(
                calls.drop_last(),
            ).push(datagram),
            _ => paced_out(calls.drop_last()),
        }
    }
}

/// Whatever the order of pumping and taking, what was taken and what still
/// waits is exactly what was paced out, in that order, each datagram once. So
/// where the last call takes, everything paced out has been taken, and taking
/// again gives nothing.
pub proof fn packets_leave_once_in_order(peer: HostPeerModel, calls: Seq<SendCall>)
    requires
        peer.outgoing.len() == 0,
    ensures
        peer.taken(calls) + peer.called_all(calls).outgoing == paced_out(calls),
        calls.len() > 0 && calls.last() is Take ==> peer.taken(calls) == paced_out(calls)
            && peer.called_all(calls).outgoing == Seq::<Datagram>::empty() && peer.taken(
            calls.push(SendCall::Take),
        ) == peer.taken(calls),
    decreases calls.len(),
{
    if calls.len() > 0 {
        let before = calls.drop_last();
        packets_leave_once_in_order(peer, before);
        assert(peer.taken(calls) + peer.called_all(calls).outgoing =~= paced_out(calls));
        if calls.last() is Take {
            assert(peer.taken(calls) =~= paced_out(calls));
            assert(calls.push(SendCall::Take).drop_last() =~= calls);
            assert(peer.taken(calls.push(SendCall::Take)) =~= peer.taken(calls));
        }
    } else {
        assert(peer.taken(calls) + peer.called_all(calls).outgoing =~= paced_out(calls));
    }
}

} // verus!
