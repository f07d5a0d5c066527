//! The client's half of the wire.
use super::bytes::{starts_with, tagged};
use super::compress::{deflated, inflated};
use super::frames::{Frames, FramesModel};
use super::history::{select_inputs, selected, selection_fits_a_batch};
use super::inputs::{
    all_finite, batch_bytes, batch_magic, input_batch, inputs_of, pilot_input, read_packet,
    PilotInput, BATCH_FRAMES,
};
use super::reassembly::{Arrival, Assembled};
use super::WireError;
use crate::simulation::command::Command;
use crate::simulation::shots::AimedShot;
use vstd::prelude::*;

verus! {

/// Input samples remembered at most.
pub const RECENT_INPUTS: usize = 32;

/// The first four bytes of an owner anchor: `RMO3`.
pub open spec fn anchor_magic() -> Seq<u8> {
    seq![82, 77, 79, 51]
}

/// A command a client has queued, with what goes along.
#[derive(Clone, Copy, Debug, PartialEq, Eq)]
pub struct QueuedCommand {
    /// The command.
    pub command: Option<Command>,
    /// Number of a clock probe.
    pub time_probe: Option<u64>,
    /// Number of a confirmation that is waited for.
    pub confirmation: Option<u64>,
}

/// A reliable control message.
#[derive(Clone, Copy, Debug, PartialEq, Eq)]
pub enum Control {
    /// A command.
    Command(Command),
    /// A clock probe.
    TimeProbe(u64),
    /// A ping that asks for confirmation.
    Ping(u64),
}

/// How a queued command travels.
#[derive(Clone, Debug)]
pub enum Upstream {
    /// As a replaceable batch of recent input.
    Inputs(Vec<u8>),
    /// As an unconfirmed shot that retries on the unreliable lane.
    Shot(AimedShot),
    /// As reliable control messages, in this order.
    Controls(Vec<Control>),
}

/// What a host datagram turned out to be.
#[derive(Clone, Debug)]
pub enum Incoming {
    /// An owner anchor.
    Anchor,
    /// A fragment that completed nothing.
    Nothing,
    /// A complete frame, inflated.
    Frame(Assembled),
}

/// Delivery counters.
#[derive(Clone, Copy, Debug, PartialEq, Eq, Structural)]
pub struct TransportStats {
    /// Frames given up.
    pub incomplete_frames: u64,
    /// Snapshots that came too late.
    pub stale_updates: u64,
    /// Snapshots delivered.
    pub complete_snapshots: u64,
    /// Deltas applied to a pinned baseline.
    pub decoded_deltas: u64,
    /// Deltas refused because their baseline was not pinned.
    pub missing_baselines: u64,
}

/// The client's half of the wire.
#[derive(Clone, Debug)]
pub struct ClientCodec {
    /// The host has answered the hello.
    pub welcomed: bool,
    /// Number of the newest anchor's snapshot.
    pub latest_owner: u64,
    /// Incoming frames.
    pub frames: Frames,
    /// Recent input samples, oldest first.
    pub recent_inputs: Vec<Command>,
    /// Redundant input frames in one batch at most.
    pub history_limit: usize,
}

/// The client's half of the wire as a value.
pub struct ClientModel {
    /// The host has answered the hello.
    pub welcomed: bool,
    /// Number of the newest anchor's snapshot.
    pub latest_owner: u64,
    /// Incoming frames.
    pub frames: FramesModel,
    /// Recent input samples, oldest first.
    pub recent_inputs: Seq<Command>,
    /// Redundant input frames in one batch at most.
    pub history_limit: usize,
}

impl View for ClientCodec {
    type V = ClientModel;

    open spec fn view(&self) -> ClientModel {
        ClientModel {
            welcomed: self.welcomed,
            latest_owner: self.latest_owner,
            frames: self.frames@,
            recent_inputs: self.recent_inputs@,
            history_limit: self.history_limit,
        }
    }
}

/// Recent samples after one more; the oldest makes room.
pub open spec fn remembered(recent: Seq<Command>, command: Command) -> Seq<Command> {
    if recent.len() >= RECENT_INPUTS {
        recent.remove(0).push(command)
    } else {
        recent.push(command)
    }
}

/// The control messages of a queued command: the command, the probe, the ping.
pub open spec fn controls(queued: QueuedCommand) -> Seq<Control> {
    let first = match queued.command {
        Some(command) => seq![Control::Command(command)],
        None => Seq::empty(),
    };
    let second = match queued.time_probe {
        Some(nonce) => first.push(Control::TimeProbe(nonce)),
        None => first,
    };
    match queued.confirmation {
        Some(nonce) => second.push(Control::Ping(nonce)),
        None => second,
    }
}

/// A queued command is an input sample that nobody waits for.
pub open spec fn loose_input(queued: QueuedCommand) -> bool {
    queued.confirmation is None && queued.command is Some && pilot_input(queued.command->0) is Some
}

/// A queued command is an aimed shot that nobody waits for.
pub open spec fn loose_shot(queued: QueuedCommand) -> bool {
    queued.confirmation is None && queued.command matches Some(Command::FireAimed(_))
}

impl ClientModel {
    /// Delivery counters.
    pub open spec fn delivery(self) -> TransportStats {
        TransportStats {
            incomplete_frames: self.frames.reassembly.incomplete,
            stale_updates: self.frames.stale_updates,
            complete_snapshots: self.frames.complete_snapshots,
            decoded_deltas: self.frames.decoder.deltas,
            missing_baselines: self.frames.decoder.missing,
        }
    }

    /// The client after a welcome for a protocol version, and whether it took it.
    pub open spec fn welcoming(self, protocol: u32, version: u32) -> (
        ClientModel,
        Result<(), WireError>,
    ) {
        if !self.welcomed && protocol == version {
            (ClientModel { welcomed: true, ..self }, Ok(()))
        } else {
            (self, Err(WireError::Welcome))
        }
    }

    /// An owner anchor for a snapshot: it is used once welcomed, and only if
    /// it is newer than the last.
    pub open spec fn anchoring(self, snapshot_id: u64) -> (ClientModel, bool) {
        if self.welcomed && snapshot_id > self.latest_owner {
            (ClientModel { latest_owner: snapshot_id, ..self }, true)
        } else {
            (self, false)
        }
    }

    /// Anchors are used in the order of their snapshots: after one was used or
    /// passed over, none with the same or an older snapshot is.
    pub proof fn anchors_never_go_back(self, first: u64, second: u64)
        requires
            second <= first,
        ensures
            !self.anchoring(first).0.anchoring(second).1,
    {
    }
}

impl ClientCodec {
    /// Frames are consistent and few samples are remembered.
    pub open spec fn wf(&self) -> bool {
        self.frames.wf() && self.recent_inputs@.len() <= RECENT_INPUTS
    }

    /// Before the hello is answered. `limit` is the longest frame.
    pub fn new(history_limit: usize, limit: usize) -> (r: ClientCodec)
        requires
            limit <= u32::MAX,
        ensures
            r.wf(),
            !r@.welcomed,
            r@.latest_owner == 0,
            r@.recent_inputs == Seq::<Command>::empty(),
            r@.history_limit == history_limit,
            r@.frames == FramesModel::initial(limit),
    {
        ClientCodec {
            welcomed: false,
            latest_owner: 0,
            frames: Frames::new(limit),
            recent_inputs: Vec::new(),
            history_limit,
        }
    }

    /// Accept one server datagram.
    pub fn receive(&mut self, payload: &[u8], now_ns: u64) -> (r: Result<Incoming, WireError>)
        requires
            old(self).wf(),
        ensures
            final(self).wf(),
            tagged(payload@, anchor_magic()) ==> final(self)@ == old(self)@ && r == Ok::<
                Incoming,
                WireError,
            >(Incoming::Anchor),
            !tagged(payload@, anchor_magic()) ==> {
                let (reassembly, arrival) = old(self)@.frames.reassembly.receiving(
                    payload@,
                    now_ns,
                );
                &&& final(self)@ == (ClientModel {
                    frames: FramesModel { reassembly, ..old(self)@.frames },
                    ..old(self)@
                })
                &&& match arrival {
                    Arrival::Refused(error) => r == Err::<Incoming, WireError>(error),
                    Arrival::Waiting => r == Ok::<Incoming, WireError>(Incoming::Nothing),
                    Arrival::Complete { reliable, bytes } => match inflated(
                        bytes,
                        old(self)@.frames.reassembly.limit,
                    ) {
                        None => r == Err::<Incoming, WireError>(WireError::Inflate),
                        Some(body) => match r {
                            Ok(Incoming::Frame(frame)) => frame.reliable == reliable
                                && frame.bytes@ == body,
                            _ => false,
                        },
                    },
                }
            },
    {
        let magic: [u8; 4] = [82, 77, 79, 51];
        proof {
            assert(magic@ =~= anchor_magic());
        }
        if starts_with(payload, &magic) {
            return Ok(Incoming::Anchor);
        }
        match self.frames.receive(payload, now_ns) {
            Err(error) => Err(error),
            Ok(None) => Ok(Incoming::Nothing),
            Ok(Some(frame)) => Ok(Incoming::Frame(frame)),
        }
    }

    /// Judge an owner anchor: whether it is used.
    pub fn anchor(&mut self, snapshot_id: u64) -> (r: bool)
        requires
            old(self).wf(),
        ensures
            final(self).wf(),
            final(self)@ == old(self)@.anchoring(snapshot_id).0,
            r == old(self)@.anchoring(snapshot_id).1,
    {
        if !self.welcomed || snapshot_id <= self.latest_owner {
            return false;
        }
        self.latest_owner = snapshot_id;
        true
    }

    /// Take the host's welcome: once, in the client's protocol version.
    pub fn welcome(&mut self, protocol: u32, version: u32) -> (r: Result<(), WireError>)
        requires
            old(self).wf(),
        ensures
            final(self).wf(),
            (final(self)@, r) == old(self)@.welcoming(protocol, version),
    {
        if self.welcomed || protocol != version {
            return Err(WireError::Welcome);
        }
        self.welcomed = true;
        Ok(())
    }

    /// Choose how a queued command travels: input as a batch of recent
    /// samples, an unconfirmed shot on the unreliable lane, everything else as
    /// reliable control messages. The batch ends in the new sample, and a host
    /// reads from it the samples chosen, as long as they are finite.
    pub fn submit(&mut self, queued: QueuedCommand) -> (r: Result<Upstream, WireError>)
        requires
            old(self).wf(),
        ensures
            final(self).wf(),
            loose_input(queued) ==> {
                let recent = remembered(old(self)@.recent_inputs, queued.command->0);
                let chosen = selected(recent, old(self)@.history_limit as nat);
                &&& final(self)@ == (ClientModel { recent_inputs: recent, ..old(self)@ })
                &&& chosen.last() == queued.command->0
                &&& old(self)@.history_limit <= BATCH_FRAMES ==> r is Ok
                &&& match r {
                    Ok(Upstream::Inputs(batch)) => {
                        &&& chosen.len() <= BATCH_FRAMES
                        &&& batch@ == batch_magic() + deflated(
                            batch_bytes(inputs_of(chosen)),
                            1,
                        )
                        &&& all_finite(inputs_of(chosen)) ==> read_packet(batch@) == Ok::<
                            Seq<PilotInput>,
                            WireError,
                        >(inputs_of(chosen))
                    },
                    Err(error) => chosen.len() > BATCH_FRAMES && error == WireError::InputCount,
                    _ => false,
                }
            },
            !loose_input(queued) ==> final(self)@ == old(self)@,
            loose_shot(queued) ==> r == Ok::<Upstream, WireError>(
                Upstream::Shot(queued.command->0->FireAimed_0),
            ),
            !loose_input(queued) && !loose_shot(queued) ==> match r {
                Ok(Upstream::Controls(messages)) => messages@ == controls(queued),
                _ => false,
            },
    {
        if queued.confirmation.is_none() {
            if let Some(command) = queued.command {
                match command {
                    Command::PilotInput { .. } => {
                        if self.recent_inputs.len() >= RECENT_INPUTS {
                            self.recent_inputs.remove(0);
                        }
                        self.recent_inputs.push(command);
                        proof {
                            selection_fits_a_batch(
                                self.recent_inputs@,
                                self.history_limit as nat,
                            );
                        }
                        let chosen = select_inputs(&self.recent_inputs, self.history_limit);
                        return match input_batch(&chosen) {
                            Ok(batch) => Ok(Upstream::Inputs(batch)),
                            Err(error) => Err(error),
                        };
                    },
                    Command::FireAimed(shot) => {
                        return Ok(Upstream::Shot(shot));
                    },
                    _ => {},
                }
            }
        }
        let mut messages: Vec<Control> = Vec::new();
        if let Some(command) = queued.command {
            messages.push(Control::Command(command));
        }
        if let Some(nonce) = queued.time_probe {
            messages.push(Control::TimeProbe(nonce));
        }
        if let Some(nonce) = queued.confirmation {
            messages.push(Control::Ping(nonce));
        }
        proof {
            assert(messages@ =~= controls(queued));
        }
        Ok(Upstream::Controls(messages))
    }

    /// Delivery counters.
    pub fn stats(&self) -> (r: TransportStats)
        ensures
            r == self@.delivery(),
    {
        TransportStats {
            incomplete_frames: self.frames.reassembly.incomplete,
            stale_updates: self.frames.stale_updates,
            complete_snapshots: self.frames.complete_snapshots,
            decoded_deltas: self.frames.decoder.deltas,
            missing_baselines: self.frames.decoder.missing,
        }
    }

    /// How many baselines are held: at most two.
    pub fn pinned_baselines(&self) -> (r: usize)
        requires
            self.wf(),
        ensures
            r == self@.frames.decoder.pins(),
            r <= 2,
    {
        self.frames.decoder.pinned()
    }
}

} // verus!
