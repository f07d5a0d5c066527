//! Deltas against baselines that the decoder has pinned, never against the
//! last transmitted frame.
//!
//! The decoder pins at most two baselines, so a new one may only be proposed
//! once the previous one is retired. A retirement is reliable but its answer is
//! not, so an unanswered one is sent again on a bounded schedule rather than
//! abandoned.
//!
//! States are packed and unpacked elsewhere. Here a state is the number under
//! which its holder keeps it; equal states have equal numbers.
use super::bytes::{put_bytes, starts_with, tagged};
use super::reassembly::counted;
use super::WireError;
use vstd::prelude::*;
use vstd::slice::{slice_subrange, slice_to_vec};

verus! {

/// Source bytes of a state that may become a baseline, at most.
pub const BASE_LIMIT: usize = 1_048_576;

/// Frames before an active baseline is replaced.
pub const ROTATION_FRAMES: u64 = 32;

/// A proposal is repeated every so many frames.
pub const PROPOSAL_FRAMES: u64 = 8;

/// An unanswered retirement is sent again after this many frames.
pub const RETIRE_RESEND_FRAMES: u64 = 16;

/// Bytes of baseline feedback at most.
pub const FEEDBACK_LIMIT: usize = 256;

/// The decoder's answer about one baseline, or the owner codec's answer about
/// one owner configuration.
#[derive(Clone, Copy, Debug, PartialEq, Eq, Structural)]
pub enum Feedback {
    /// The candidate baseline was pinned.
    Stored { epoch: u64, id: u64 },
    /// The baseline is gone and will not be referenced again.
    Retired { epoch: u64, id: u64 },
    /// A delta referenced a baseline that was not pinned.
    Missing { epoch: u64, id: u64 },
    /// The client stored an owner configuration.
    ConfigStored { revision: u64 },
    /// An anchor named an owner configuration the client does not hold.
    ConfigMissing { revision: u64 },
}

/// The first four bytes of feedback: `RMA1`.
pub open spec fn ack_magic() -> Seq<u8> {
    seq![82, 77, 65, 49]
}

/// The first four bytes of a packed checkpoint: `RMB0`.
pub open spec fn packed_magic() -> Seq<u8> {
    seq![82, 77, 66, 48]
}

/// Whether an inflated frame is a packed checkpoint rather than JSON.
pub fn is_packed(bytes: &[u8]) -> (r: bool)
    ensures
        r == tagged(bytes@, packed_magic()),
{
    let magic: [u8; 4] = [82, 77, 66, 48];
    proof {
        assert(magic@ =~= packed_magic());
    }
    starts_with(bytes, &magic)
}

/// The body of a feedback payload, when it is one.
pub open spec fn feedback_body(payload: Seq<u8>) -> Option<Seq<u8>> {
    if payload.len() > FEEDBACK_LIMIT || !tagged(payload, ack_magic()) {
        None
    } else {
        Some(payload.subrange(4, payload.len() as int))
    }
}

impl Feedback {
    /// The payload of feedback whose JSON is given: the magic keeps it
    /// distinguishable from a snapshot on the same lane.
    pub fn encode(json: &[u8]) -> (r: Vec<u8>)
        ensures
            r@ == ack_magic() + json@,
            json@.len() <= FEEDBACK_LIMIT - 4 ==> feedback_body(r@) == Some(json@),
    {
        let mut out: Vec<u8> = Vec::new();
        out.push(82);
        out.push(77);
        out.push(65);
        out.push(49);
        put_bytes(&mut out, json);
        proof {
            assert(out@ =~= ack_magic() + json@);
            assert(out@.subrange(0, 4) =~= ack_magic());
            assert(out@.subrange(4, out@.len() as int) =~= json@);
        }
        out
    }

    /// The JSON of a feedback payload. One that is too long or does not start
    /// with its magic is refused.
    pub fn decode(payload: &[u8]) -> (r: Result<Vec<u8>, WireError>)
        ensures
            match r {
                Ok(json) => feedback_body(payload@) == Some(json@),
                Err(error) => feedback_body(payload@) is None && error == WireError::Feedback,
            },
    {
        let magic: [u8; 4] = [82, 77, 65, 49];
        proof {
            assert(magic@ =~= ack_magic());
        }
        if payload.len() > FEEDBACK_LIMIT || !starts_with(payload, &magic) {
            return Err(WireError::Feedback);
        }
        Ok(slice_to_vec(slice_subrange(payload, 4, payload.len())))
    }
}

/// A baseline: its number on the connection and the state it holds.
#[derive(Clone, Copy, Debug, PartialEq, Eq, Structural)]
pub struct Baseline {
    /// Its number; the first is one.
    pub id: u64,
    /// The state.
    pub state: u64,
}

/// Asks the decoder to drop a baseline and all before it.
#[derive(Clone, Copy, Debug, PartialEq, Eq, Structural)]
pub struct Retire {
    /// Input epoch the baseline belongs to.
    pub epoch: u64,
    /// Its number.
    pub id: u64,
}

/// How a frame is packed.
#[derive(Clone, Copy, Debug, PartialEq, Eq, Structural)]
pub enum Choice {
    /// As the current state alone, pinning nothing.
    Independent,
    /// As a baseline to pin.
    Full(Baseline),
    /// As the current state's difference from a pinned baseline.
    Delta(Baseline),
}

/// Server-side rotation of baselines for one peer.
#[derive(Clone, Copy, Debug, PartialEq, Eq, Structural)]
pub struct Encoder {
    /// Input epoch of the baselines.
    pub epoch: Option<u64>,
    /// Number of the last baseline proposed.
    pub next_id: u64,
    /// Baseline that deltas refer to.
    pub active: Option<Baseline>,
    /// Baseline proposed and not answered.
    pub pending: Option<Baseline>,
    /// Baseline being retired.
    pub retiring: Option<Baseline>,
    /// Frames since the outstanding retirement was last sent.
    pub retire_age: u64,
    /// Frames since the last proposal or promotion.
    pub count: u64,
    /// The decoder misses the active baseline.
    pub recover: bool,
    /// Bytes the same states would have taken as independent frames.
    pub full_bytes: u64,
    /// Bytes actually produced.
    pub sent_bytes: u64,
    /// Frames sent as a delta.
    pub deltas: u64,
}

impl Encoder {
    /// Before any frame.
    pub open spec fn initial() -> Encoder {
        Encoder {
            epoch: None,
            next_id: 0,
            active: None,
            pending: None,
            retiring: None,
            retire_age: 0,
            count: 0,
            recover: false,
            full_bytes: 0,
            sent_bytes: 0,
            deltas: 0,
        }
    }

    /// A proposal and a retirement are never outstanding together, and the
    /// baselines in play are the last ones proposed, in order.
    pub open spec fn wf(self) -> bool {
        &&& self.pending is Some ==> self.retiring is None && self.pending->0.id == self.next_id
        &&& self.retiring is Some ==> self.active is Some && self.retiring->0.id + 1
            == self.active->0.id
        &&& self.active is Some ==> 1 <= self.active->0.id && if self.pending is Some {
            self.active->0.id + 1 == self.next_id
        } else {
            self.active->0.id == self.next_id
        }
        &&& self.retiring is Some ==> 1 <= self.retiring->0.id
        &&& self.pending is Some ==> 1 <= self.next_id
        &&& self.epoch is None ==> self.active is None && self.pending is None && self.retiring
            is None
    }

    /// With no baseline yet.
    pub fn new() -> (r: Encoder)
        ensures
            r == Encoder::initial(),
            r.wf(),
    {
        Encoder {
            epoch: None,
            next_id: 0,
            active: None,
            pending: None,
            retiring: None,
            retire_age: 0,
            count: 0,
            recover: false,
            full_bytes: 0,
            sent_bytes: 0,
            deltas: 0,
        }
    }

    /// In an epoch: a change discards every baseline and restarts the
    /// rotation.
    pub open spec fn in_epoch(self, epoch: u64) -> Encoder {
        if self.epoch == Some(epoch) {
            self
        } else {
            Encoder {
                epoch: Some(epoch),
                active: None,
                pending: None,
                retiring: None,
                retire_age: 0,
                count: 0,
                recover: false,
                ..self
            }
        }
    }

    /// At the start of a frame.
    pub open spec fn begun(self, epoch: u64) -> Encoder {
        let here = self.in_epoch(epoch);
        Encoder {
            count: counted(here.count, 1),
            retire_age: if here.retiring is Some {
                counted(here.retire_age, 1)
            } else {
                here.retire_age
            },
            ..here
        }
    }

    /// Start a frame in an epoch.
    pub fn begin(&mut self, epoch: u64)
        requires
            old(self).wf(),
        ensures
            *final(self) == old(self).begun(epoch),
            final(self).wf(),
    {
        if self.epoch != Some(epoch) {
            self.epoch = Some(epoch);
            self.active = None;
            self.pending = None;
            self.retiring = None;
            self.retire_age = 0;
            self.count = 0;
            self.recover = false;
        }
        self.count = self.count.saturating_add(1);
        if self.retiring.is_some() {
            self.retire_age = self.retire_age.saturating_add(1);
        }
    }

    /// A new baseline may be proposed: nothing is outstanding, and the active
    /// one is missing or has served its time.
    pub open spec fn may_propose(self) -> bool {
        self.pending is None && self.retiring is None && (self.active is None || self.count
            >= ROTATION_FRAMES)
    }

    /// With the current state proposed, where it may be.
    pub open spec fn proposing(self, state: u64) -> Encoder {
        if self.may_propose() {
            let id = (self.next_id + 1) as u64;
            Encoder { next_id: id, pending: Some(Baseline { id, state }), count: 0, ..self }
        } else {
            self
        }
    }

    /// How the current frame is packed.
    pub open spec fn packing(self) -> Choice {
        if self.recover && self.active is Some {
            Choice::Full(self.active->0)
        } else if self.pending is Some && self.count % PROPOSAL_FRAMES == 0 {
            Choice::Full(self.pending->0)
        } else if self.active is Some {
            Choice::Delta(self.active->0)
        } else {
            Choice::Independent
        }
    }

    /// With an independent frame's bytes counted.
    pub open spec fn weighed(self, independent_len: u64) -> Encoder {
        Encoder { full_bytes: counted(self.full_bytes, independent_len as int), ..self }
    }

    /// The frame's packing, and the rotation after it.
    pub open spec fn choosing(self, state: u64, source_len: usize, independent_len: u64) -> (
        Encoder,
        Result<Choice, WireError>,
    ) {
        let weighed = self.weighed(independent_len);
        if source_len > BASE_LIMIT {
            (weighed, Ok(Choice::Independent))
        } else if weighed.may_propose() && weighed.next_id == u64::MAX {
            (weighed, Err(WireError::BaselineIds))
        } else {
            let next = weighed.proposing(state);
            (
                Encoder { recover: next.recover && next.active is None, ..next },
                Ok(next.packing()),
            )
        }
    }

    /// Choose how a frame is packed, once its independent packing is known. A
    /// state too large for a baseline is sent independently.
    pub fn snapshot(&mut self, state: u64, source_len: usize, independent_len: u64) -> (r: Result<
        Choice,
        WireError,
    >)
        requires
            old(self).wf(),
        ensures
            *final(self) == old(self).choosing(state, source_len, independent_len).0,
            r == old(self).choosing(state, source_len, independent_len).1,
            old(self).epoch is Some ==> final(self).wf(),
    {
        self.full_bytes = self.full_bytes.saturating_add(independent_len);
        if source_len > BASE_LIMIT {
            return Ok(Choice::Independent);
        }
        if self.pending.is_none() && self.retiring.is_none() && (self.active.is_none()
            || self.count >= ROTATION_FRAMES) {
            if self.next_id == u64::MAX {
                return Err(WireError::BaselineIds);
            }
            self.next_id = self.next_id + 1;
            self.pending = Some(Baseline { id: self.next_id, state });
            self.count = 0;
        }
        if self.recover {
            if let Some(active) = self.active {
                self.recover = false;
                return Ok(Choice::Full(active));
            }
        }
        if let Some(pending) = self.pending {
            if self.count % PROPOSAL_FRAMES == 0 {
                return Ok(Choice::Full(pending));
            }
        }
        Ok(
            match self.active {
                Some(active) => Choice::Delta(active),
                None => Choice::Independent,
            },
        )
    }

    /// With a frame counted: a delta is sent only where it is smaller than
    /// the independent packing.
    pub open spec fn finished(self, choice: Choice, independent_len: u64, packed_len: u64) -> (
        Encoder,
        bool,
    ) {
        let packed = match choice {
            Choice::Independent => false,
            Choice::Full(_) => true,
            Choice::Delta(_) => packed_len < independent_len,
        };
        (
            Encoder {
                sent_bytes: counted(
                    self.sent_bytes,
                    if packed {
                        packed_len as int
                    } else {
                        independent_len as int
                    },
                ),
                deltas: if packed && choice is Delta {
                    counted(self.deltas, 1)
                } else {
                    self.deltas
                },
                ..self
            },
            packed,
        )
    }

    /// Count a frame. Returns whether its chosen packing is sent rather than
    /// the independent one.
    pub fn finish(&mut self, choice: Choice, independent_len: u64, packed_len: u64) -> (r: bool)
        ensures
            *final(self) == old(self).finished(choice, independent_len, packed_len).0,
            r == old(self).finished(choice, independent_len, packed_len).1,
            old(self).wf() ==> final(self).wf(),
    {
        let packed = match choice {
            Choice::Independent => false,
            Choice::Full(_) => true,
            Choice::Delta(_) => {
                let smaller = packed_len < independent_len;
                if smaller {
                    self.deltas = self.deltas.saturating_add(1);
                }
                smaller
            },
        };
        self.sent_bytes =
        self.sent_bytes.saturating_add(
            if packed {
                packed_len
            } else {
                independent_len
            },
        );
        packed
    }

    /// After an answer, with the retirement it calls for. Answers for other
    /// epochs or other baselines change nothing.
    pub open spec fn hearing(self, feedback: Feedback) -> (Encoder, Option<Retire>) {
        match feedback {
            Feedback::Stored { epoch, id } => if self.epoch == Some(epoch) && self.pending is Some
                && self.pending->0.id == id {
                (
                    Encoder {
                        retiring: self.active,
                        active: self.pending,
                        pending: None,
                        retire_age: 0,
                        count: 0,
                        ..self
                    },
                    match self.active {
                        Some(old) => Some(Retire { epoch, id: old.id }),
                        None => None,
                    },
                )
            } else {
                (self, None)
            },
            Feedback::Retired { epoch, id } => if self.epoch == Some(epoch) && self.retiring is Some
                && self.retiring->0.id == id {
                (Encoder { retiring: None, retire_age: 0, ..self }, None)
            } else {
                (self, None)
            },
            Feedback::Missing { epoch, id } => if self.epoch == Some(epoch) && self.active is Some
                && self.active->0.id == id {
                (Encoder { recover: true, ..self }, None)
            } else {
                (self, None)
            },
            _ => (self, None),
        }
    }

    /// Apply one answer of the decoder. Returns the retirement to send when
    /// the stored baseline replaced an older one.
    pub fn feedback(&mut self, feedback: Feedback) -> (r: Option<Retire>)
        requires
            old(self).wf(),
        ensures
            *final(self) == old(self).hearing(feedback).0,
            r == old(self).hearing(feedback).1,
            final(self).wf(),
    {
        match feedback {
            Feedback::Stored { epoch, id } => {
                if self.epoch == Some(epoch) {
                    if let Some(pending) = self.pending {
                        if pending.id == id {
                            let replaced = self.active;
                            self.retiring = replaced;
                            self.active = Some(pending);
                            self.pending = None;
                            self.retire_age = 0;
                            self.count = 0;
                            return match replaced {
                                Some(old_one) => Some(Retire { epoch, id: old_one.id }),
                                None => None,
                            };
                        }
                    }
                }
            },
            Feedback::Retired { epoch, id } => {
                if self.epoch == Some(epoch) {
                    if let Some(retiring) = self.retiring {
                        if retiring.id == id {
                            self.retiring = None;
                            self.retire_age = 0;
                        }
                    }
                }
            },
            Feedback::Missing { epoch, id } => {
                if self.epoch == Some(epoch) {
                    if let Some(active) = self.active {
                        if active.id == id {
                            self.recover = true;
                        }
                    }
                }
            },
            _ => {},
        }
        None
    }

    /// The retirement to send again, and the rotation after it.
    pub open spec fn resending(self) -> (Encoder, Option<Retire>) {
        if self.epoch is Some && self.retiring is Some && self.retire_age >= RETIRE_RESEND_FRAMES {
            (
                Encoder { retire_age: 0, ..self },
                Some(Retire { epoch: self.epoch->0, id: self.retiring->0.id }),
            )
        } else {
            (self, None)
        }
    }

    /// The retirement to send again, if its answer has not come in time.
    pub fn resend_retire(&mut self) -> (r: Option<Retire>)
        ensures
            *final(self) == old(self).resending().0,
            r == old(self).resending().1,
            old(self).wf() ==> final(self).wf(),
    {
        match (self.epoch, self.retiring) {
            (Some(epoch), Some(retiring)) => {
                if self.retire_age < RETIRE_RESEND_FRAMES {
                    return None;
                }
                self.retire_age = 0;
                Some(Retire { epoch, id: retiring.id })
            },
            _ => None,
        }
    }
}

/// The inspected header of a packed checkpoint.
#[derive(Clone, Copy, Debug, PartialEq, Eq, Structural)]
pub struct Header {
    /// It needs the named baseline.
    pub delta: bool,
    /// Input epoch; older epochs cannot come back.
    pub epoch: u64,
    /// Zero for independent frames, otherwise the proposed or referenced
    /// baseline.
    pub id: u64,
}

/// One application frame on the delta lane.
#[derive(Clone, Copy, Debug, PartialEq, Eq, Structural)]
pub enum Wire {
    /// A packed checkpoint: the header it was announced with and the one its
    /// bytes hold.
    Packed { announced: Header, actual: Header },
    /// Asks the decoder to drop a baseline.
    Retire(Retire),
}

impl Wire {
    /// The epoch of a frame.
    pub open spec fn epoch(self) -> u64 {
        match self {
            Wire::Packed { announced, .. } => announced.epoch,
            Wire::Retire(retire) => retire.epoch,
        }
    }
}

/// What the decoder asks for after looking at a frame's header.
#[derive(Clone, Copy, Debug, PartialEq, Eq, Structural)]
pub enum Opened {
    /// Nothing: the frame is out of date.
    Ignored,
    /// An answer to the encoder; no message.
    Answer(Feedback),
    /// Unpacking, against a state or on its own.
    Unpack { base: Option<u64> },
}

/// What unpacking a checkpoint gave.
#[derive(Clone, Copy, Debug, PartialEq, Eq, Structural)]
pub struct Unpacked {
    /// The state.
    pub state: u64,
    /// Bytes of it.
    pub bytes: usize,
    /// Its input epoch, where it is a snapshot that can be delivered.
    pub epoch: Option<u64>,
}

/// Client-side baselines of one connection: the active one and the candidate
/// replacing it.
#[derive(Clone, Copy, Debug, PartialEq, Eq, Structural)]
pub struct Decoder {
    /// Input epoch of the baselines.
    pub epoch: Option<u64>,
    /// A pinned baseline.
    pub first: Option<Baseline>,
    /// Another one.
    pub second: Option<Baseline>,
    /// Baselines up to this number are retired.
    pub retired_through: u64,
    /// Deltas refused because their baseline was not pinned.
    pub missing: u64,
    /// Deltas applied to a pinned baseline.
    pub deltas: u64,
}

/// A baseline kept when all up to a number are dropped.
pub open spec fn outliving(baseline: Option<Baseline>, id: u64) -> Option<Baseline> {
    match baseline {
        Some(b) => if b.id > id {
            Some(b)
        } else {
            None
        },
        None => None,
    }
}

impl Decoder {
    /// Before any frame.
    pub open spec fn initial() -> Decoder {
        Decoder {
            epoch: None,
            first: None,
            second: None,
            retired_through: 0,
            missing: 0,
            deltas: 0,
        }
    }

    /// Two different baselines fill both places, one the first.
    pub open spec fn wf(self) -> bool {
        &&& self.second is Some ==> self.first is Some && self.first->0.id != self.second->0.id
        &&& self.first is Some ==> self.first->0.id > self.retired_through
        &&& self.second is Some ==> self.second->0.id > self.retired_through
    }

    /// How many baselines are pinned.
    pub open spec fn pins(self) -> nat {
        if self.second is Some {
            2
        } else if self.first is Some {
            1
        } else {
            0
        }
    }

    /// The state pinned under a number.
    pub open spec fn pinned_state(self, id: u64) -> Option<u64> {
        if self.first is Some && self.first->0.id == id {
            Some(self.first->0.state)
        } else if self.second is Some && self.second->0.id == id {
            Some(self.second->0.state)
        } else {
            None
        }
    }

    /// With nothing pinned.
    pub fn new() -> (r: Decoder)
        ensures
            r == Decoder::initial(),
            r.wf(),
    {
        Decoder {
            epoch: None,
            first: None,
            second: None,
            retired_through: 0,
            missing: 0,
            deltas: 0,
        }
    }

    /// How many baselines are held for future deltas: at most two.
    pub fn pinned(&self) -> (r: usize)
        requires
            self.wf(),
        ensures
            r == self.pins(),
            r <= 2,
    {
        if self.second.is_some() {
            2
        } else if self.first.is_some() {
            1
        } else {
            0
        }
    }

    /// In an epoch: a newer one drops every baseline.
    pub open spec fn in_epoch(self, epoch: u64) -> Decoder {
        if self.epoch == Some(epoch) {
            self
        } else {
            Decoder { epoch: Some(epoch), first: None, second: None, retired_through: 0, ..self }
        }
    }

    /// With all baselines up to a number dropped.
    pub open spec fn retiring(self, id: u64) -> Decoder {
        let first = outliving(self.first, id);
        let second = outliving(self.second, id);
        Decoder {
            first: if first is Some {
                first
            } else {
                second
            },
            second: if first is Some {
                second
            } else {
                None
            },
            retired_through: if id > self.retired_through {
                id
            } else {
                self.retired_through
            },
            ..self
        }
    }

    /// What a frame's header asks for, and the decoder after it.
    pub open spec fn opening(self, wire: Wire) -> (Decoder, Result<Opened, WireError>) {
        if self.epoch is Some && wire.epoch() < self.epoch->0 {
            (self, Ok(Opened::Ignored))
        } else {
            let here = self.in_epoch(wire.epoch());
            match wire {
                Wire::Retire(retire) => (
                    here.retiring(retire.id),
                    Ok(
                        Opened::Answer(
                            Feedback::Retired { epoch: retire.epoch, id: retire.id },
                        ),
                    ),
                ),
                Wire::Packed { announced, actual } => if announced != actual {
                    (here, Err(WireError::HeaderMismatch))
                } else if !announced.delta && announced.id > 0 && announced.id
                    <= here.retired_through {
                    (here, Ok(Opened::Ignored))
                } else if !announced.delta {
                    (here, Ok(Opened::Unpack { base: None }))
                } else {
                    match here.pinned_state(announced.id) {
                        None => (
                            Decoder { missing: counted(here.missing, 1), ..here },
                            Ok(
                                Opened::Answer(
                                    Feedback::Missing {
                                        epoch: announced.epoch,
                                        id: announced.id,
                                    },
                                ),
                            ),
                        ),
                        Some(state) => (here, Ok(Opened::Unpack { base: Some(state) })),
                    }
                },
            }
        }
    }

    /// Drop every baseline up to a number.
    fn retire(&mut self, id: u64)
        requires
            old(self).wf(),
        ensures
            *final(self) == old(self).retiring(id),
            final(self).wf(),
    {
        let first = outlive(self.first, id);
        let second = outlive(self.second, id);
        if first.is_some() {
            self.first = first;
            self.second = second;
        } else {
            self.first = second;
            self.second = None;
        }
        if id > self.retired_through {
            self.retired_through = id;
        }
    }

    /// Look at a frame's header. A delta for a baseline that is not pinned is
    /// answered with [`Feedback::Missing`] rather than partially applied.
    pub fn open(&mut self, wire: Wire) -> (r: Result<Opened, WireError>)
        requires
            old(self).wf(),
        ensures
            *final(self) == old(self).opening(wire).0,
            r == old(self).opening(wire).1,
            final(self).wf(),
            match (wire, r) {
                (Wire::Packed { announced, .. }, Ok(Opened::Unpack { .. })) =>
                    final(self).awaits(announced),
                _ => true,
            },
    {
        let epoch: u64 = match wire {
            Wire::Packed { announced, .. } => announced.epoch,
            Wire::Retire(retire) => retire.epoch,
        };
        if let Some(current) = self.epoch {
            if epoch < current {
                return Ok(Opened::Ignored);
            }
        }
        if self.epoch != Some(epoch) {
            self.epoch = Some(epoch);
            self.first = None;
            self.second = None;
            self.retired_through = 0;
        }
        match wire {
            Wire::Retire(retire) => {
                self.retire(retire.id);
                Ok(Opened::Answer(Feedback::Retired { epoch, id: retire.id }))
            },
            Wire::Packed { announced, actual } => {
                if announced != actual {
                    return Err(WireError::HeaderMismatch);
                }
                let id: u64 = announced.id;
                if !announced.delta {
                    if id > 0 && id <= self.retired_through {
                        return Ok(Opened::Ignored);
                    }
                    return Ok(Opened::Unpack { base: None });
                }
                match self.find(id) {
                    None => {
                        self.missing = self.missing.saturating_add(1);
                        Ok(Opened::Answer(Feedback::Missing { epoch, id }))
                    },
                    Some(state) => Ok(Opened::Unpack { base: Some(state) }),
                }
            },
        }
    }

    /// The state pinned under a number.
    fn find(&self, id: u64) -> (r: Option<u64>)
        ensures
            r == self.pinned_state(id),
    {
        if let Some(first) = self.first {
            if first.id == id {
                return Some(first.state);
            }
        }
        if let Some(second) = self.second {
            if second.id == id {
                return Some(second.state);
            }
        }
        None
    }

    /// A checkpoint with this header was just opened for unpacking.
    pub open spec fn awaits(self, header: Header) -> bool {
        &&& self.epoch == Some(header.epoch)
        &&& !header.delta && header.id > 0 ==> header.id > self.retired_through
        &&& header.delta ==> self.pinned_state(header.id) is Some
    }

    /// With a baseline pinned.
    pub open spec fn pinning(self, baseline: Baseline) -> Decoder {
        if self.pinned_state(baseline.id) is Some {
            self
        } else if self.first is None {
            Decoder { first: Some(baseline), ..self }
        } else {
            Decoder { second: Some(baseline), ..self }
        }
    }

    /// What an unpacked checkpoint leads to, and the decoder after it. The
    /// checkpoint is delivered just when the answer is no error.
    pub open spec fn closing(self, header: Header, unpacked: Unpacked, limit: usize) -> (
        Decoder,
        Result<Option<Feedback>, WireError>,
    ) {
        let deliverable = unpacked.epoch == Some(header.epoch);
        if !header.delta && header.id > 0 {
            let held = self.pinned_state(header.id);
            if self.pins() >= 2 && held is None {
                (self, Err(WireError::BaselineOverflow))
            } else if unpacked.bytes > BASE_LIMIT {
                (self, Err(WireError::BaselineSize))
            } else if held is Some && held->0 != unpacked.state {
                (self, Err(WireError::BaselineChanged))
            } else if !deliverable {
                (self, Err(WireError::StateEpoch))
            } else {
                (
                    self.pinning(Baseline { id: header.id, state: unpacked.state }),
                    Ok(Some(Feedback::Stored { epoch: header.epoch, id: header.id })),
                )
            }
        } else if unpacked.bytes > limit {
            (self, Err(WireError::StateSize))
        } else {
            (
                Decoder {
                    deltas: if header.delta {
                        counted(self.deltas, 1)
                    } else {
                        self.deltas
                    },
                    ..self
                },
                if deliverable {
                    Ok(None)
                } else {
                    Err(WireError::StateEpoch)
                },
            )
        }
    }

    /// Take an unpacked checkpoint: pin it, where it is a proposal. A third
    /// baseline is refused rather than one dropped that a delta might still
    /// reference.
    pub fn close(&mut self, header: Header, unpacked: Unpacked, limit: usize) -> (r: Result<
        Option<Feedback>,
        WireError,
    >)
        requires
            old(self).wf(),
            old(self).awaits(header),
        ensures
            *final(self) == old(self).closing(header, unpacked, limit).0,
            r == old(self).closing(header, unpacked, limit).1,
            final(self).wf(),
    {
        let deliverable = unpacked.epoch == Some(header.epoch);
        if !header.delta && header.id > 0 {
            let held = self.find(header.id);
            if self.second.is_some() && held.is_none() {
                return Err(WireError::BaselineOverflow);
            }
            if unpacked.bytes > BASE_LIMIT {
                return Err(WireError::BaselineSize);
            }
            if let Some(state) = held {
                if state != unpacked.state {
                    return Err(WireError::BaselineChanged);
                }
            }
            if !deliverable {
                return Err(WireError::StateEpoch);
            }
            if held.is_none() {
                let baseline = Baseline { id: header.id, state: unpacked.state };
                if self.first.is_none() {
                    self.first = Some(baseline);
                } else {
                    self.second = Some(baseline);
                }
            }
            return Ok(Some(Feedback::Stored { epoch: header.epoch, id: header.id }));
        }
        if unpacked.bytes > limit {
            return Err(WireError::StateSize);
        }
        if header.delta {
            self.deltas = self.deltas.saturating_add(1);
        }
        if deliverable {
            Ok(None)
        } else {
            Err(WireError::StateEpoch)
        }
    }
}

/// A frame on the delta lane with what unpacking it gave; `None` where its
/// bytes could not be read, or where there was nothing to unpack.
#[derive(Clone, Copy, Debug, PartialEq, Eq)]
pub struct LaneFrame {
    /// The frame.
    pub wire: Wire,
    /// What unpacking gave.
    pub unpacked: Option<Unpacked>,
}

impl Decoder {
    /// What a frame leads to, and the decoder after it: the state that is
    /// delivered, if one is, and the answer to the encoder, if there is one.
    pub open spec fn receiving(self, frame: LaneFrame, limit: usize) -> (
        Decoder,
        Result<(Option<u64>, Option<Feedback>), WireError>,
    ) {
        let (open, opened) = self.opening(frame.wire);
        match (opened, frame.wire) {
            (Err(error), _) => (open, Err(error)),
            (Ok(Opened::Unpack { .. }), Wire::Packed { announced, .. }) => match frame.unpacked {
                None => (open, Err(WireError::Unreadable)),
                Some(unpacked) => {
                    let (closed, taken) = open.closing(announced, unpacked, limit);
                    (
                        closed,
                        match taken {
                            Err(error) => Err(error),
                            Ok(feedback) => Ok((Some(unpacked.state), feedback)),
                        },
                    )
                },
            },
            (Ok(Opened::Answer(feedback)), _) => (open, Ok((None, Some(feedback)))),
            _ => (open, Ok((None, None))),
        }
    }

    /// Apply one frame. Returns the state that is delivered and the answer that
    /// the encoder needs. A delta for a baseline that is not pinned is answered
    /// with [`Feedback::Missing`] and delivers nothing.
    pub fn receive(&mut self, frame: LaneFrame, limit: usize) -> (r: Result<
        (Option<u64>, Option<Feedback>),
        WireError,
    >)
        requires
            old(self).wf(),
        ensures
            *final(self) == old(self).receiving(frame, limit).0,
            r == old(self).receiving(frame, limit).1,
            final(self).wf(),
    {
        match (self.open(frame.wire), frame.wire) {
            (Err(error), _) => Err(error),
            (Ok(Opened::Unpack { .. }), Wire::Packed { announced, .. }) => match frame.unpacked {
                None => Err(WireError::Unreadable),
                Some(unpacked) => match self.close(announced, unpacked, limit) {
                    Err(error) => Err(error),
                    Ok(feedback) => Ok((Some(unpacked.state), feedback)),
                },
            },
            (Ok(Opened::Answer(feedback)), _) => Ok((None, Some(feedback))),
            _ => Ok((None, None)),
        }
    }

    /// The decoder after one frame after the other.
    pub open spec fn receiving_all(self, frames: Seq<LaneFrame>, limit: usize) -> Decoder
        decreases frames.len(),
    {
        if frames.len() == 0 {
            self
        } else {
            self.receiving_all(frames.drop_last(), limit).receiving(frames.last(), limit).0
        }
    }

    /// Whatever frame comes, the invariant is kept and at most two baselines are
    /// pinned; a refused frame, and one whose baseline is missing, pins nothing
    /// new; and a baseline that stays pinned keeps its state.
    pub proof fn frames_keep_the_pins(self, frame: LaneFrame, limit: usize)
        requires
            self.wf(),
        ensures
            ({
                let (after, r) = self.receiving(frame, limit);
                &&& after.wf()
                &&& after.pins() <= 2
                &&& forall|id: u64|
                    #![trigger after.pinned_state(id)]
                    self.pinned_state(id) is Some && after.pinned_state(id) is Some && after.epoch
                        == self.epoch ==> after.pinned_state(id) == self.pinned_state(id)
                &&& r is Err || (r->Ok_0.1 is Some && r->Ok_0.1->0 is Missing) ==> forall|id: u64|
                    #![trigger after.pinned_state(id)]
                    after.pinned_state(id) is Some ==> after.pinned_state(id)
                        == self.pinned_state(id)
            }),
    {
    }

    /// From a fresh decoder, any frames in a row, malformed ones included, keep
    /// at most two baselines pinned.
    pub proof fn at_most_two_stay_pinned(frames: Seq<LaneFrame>, limit: usize)
        ensures
            Decoder::initial().receiving_all(frames, limit).wf(),
            Decoder::initial().receiving_all(frames, limit).pins() <= 2,
        decreases frames.len(),
    {
        if frames.len() > 0 {
            Decoder::at_most_two_stay_pinned(frames.drop_last(), limit);
            Decoder::initial().receiving_all(frames.drop_last(), limit).frames_keep_the_pins(
                frames.last(),
                limit,
            );
        }
    }

    /// Once a retirement is answered, neither traffic of an older epoch nor a
    /// full frame of the epoch up to the retired number is delivered or pinned:
    /// it leads to nothing, and the decoder does not change.
    pub proof fn retired_frames_lead_to_nothing(
        self,
        retire: Retire,
        unused: Option<Unpacked>,
        next: LaneFrame,
        limit: usize,
    )
        requires
            self.wf(),
            self.epoch is Some ==> self.epoch->0 <= retire.epoch,
            next.wire.epoch() < retire.epoch || (match next.wire {
                Wire::Packed { announced, actual } => announced == actual && !announced.delta
                    && announced.epoch == retire.epoch && 0 < announced.id <= retire.id,
                Wire::Retire(_) => false,
            }),
        ensures
            ({
                let (after, r) = self.receiving(
                    LaneFrame { wire: Wire::Retire(retire), unpacked: unused },
                    limit,
                );
                &&& r == Ok::<(Option<u64>, Option<Feedback>), WireError>(
                    (None, Some(Feedback::Retired { epoch: retire.epoch, id: retire.id })),
                )
                &&& after.receiving(next, limit) == (
                    after,
                    Ok::<(Option<u64>, Option<Feedback>), WireError>((None, None)),
                )
            }),
    {
    }
}

/// A baseline kept when all up to a number are dropped.
fn outlive(baseline: Option<Baseline>, id: u64) -> (r: Option<Baseline>)
    ensures
        r == outliving(baseline, id),
{
    match baseline {
        Some(b) => if b.id > id {
            Some(b)
        } else {
            None
        },
        None => None,
    }
}

} // verus!
