//! Messages behind their magic, and the player checkpoint.
//!
//! A snapshot travels as an independent checkpoint that needs no earlier frame.
use super::bytes::{put_bytes, starts_with, tagged};
use super::WireError;
use crate::projectile::ArmorHit;
use crate::target::Caliber;
use vstd::prelude::*;
use vstd::slice::{slice_subrange, slice_to_vec};

verus! {

/// The first four bytes of every server message: `RMM1`.
pub open spec fn server_magic() -> Seq<u8> {
    seq![82, 77, 77, 49]
}

/// The first four bytes of every client message: `RMQ1`.
pub open spec fn client_magic() -> Seq<u8> {
    seq![82, 77, 81, 49]
}

/// The body behind a magic, when bytes start with it.
pub open spec fn body_of(bytes: Seq<u8>, magic: Seq<u8>) -> Option<Seq<u8>> {
    if tagged(bytes, magic) {
        Some(bytes.subrange(4, bytes.len() as int))
    } else {
        None
    }
}

/// A body is read back from behind its magic, and is no body behind another.
pub proof fn bodies_read_back(magic: Seq<u8>, other: Seq<u8>, body: Seq<u8>)
    requires
        magic.len() == 4,
        magic != other,
    ensures
        body_of(magic + body, magic) == Some(body),
        body_of(magic + body, other) is None,
{
    let bytes = magic + body;
    assert(bytes.subrange(0, 4) =~= magic);
    assert(bytes.subrange(4, bytes.len() as int) =~= body);
}

/// Put a body behind a magic.
fn behind(magic: [u8; 4], body: &[u8]) -> (r: Vec<u8>)
    ensures
        r@ == magic@ + body@,
{
    let mut out: Vec<u8> = Vec::new();
    out.push(magic[0]);
    out.push(magic[1]);
    out.push(magic[2]);
    out.push(magic[3]);
    proof {
        assert(out@ =~= magic@);
    }
    put_bytes(&mut out, body);
    out
}

/// A server message for a peer, from its positional form.
pub fn encode_player_message(body: &[u8]) -> (r: Vec<u8>)
    ensures
        r@ == server_magic() + body@,
{
    let magic: [u8; 4] = [82, 77, 77, 49];
    proof {
        assert(magic@ =~= server_magic());
    }
    behind(magic, body)
}

/// The positional form of a server message.
pub fn decode_player_message(bytes: &[u8]) -> (r: Result<Vec<u8>, WireError>)
    ensures
        match r {
            Ok(body) => body_of(bytes@, server_magic()) == Some(body@),
            Err(error) => body_of(bytes@, server_magic()) is None && error
                == WireError::ServerMagic,
        },
{
    let magic: [u8; 4] = [82, 77, 77, 49];
    proof {
        assert(magic@ =~= server_magic());
    }
    if !starts_with(bytes, &magic) {
        return Err(WireError::ServerMagic);
    }
    Ok(slice_to_vec(slice_subrange(bytes, 4, bytes.len())))
}

/// A client message, from its positional form.
pub fn encode_client_message(body: &[u8]) -> (r: Vec<u8>)
    ensures
        r@ == client_magic() + body@,
{
    let magic: [u8; 4] = [82, 77, 81, 49];
    proof {
        assert(magic@ =~= client_magic());
    }
    behind(magic, body)
}

/// The positional form of a client message.
pub fn decode_client_message(bytes: &[u8]) -> (r: Result<Vec<u8>, WireError>)
    ensures
        match r {
            Ok(body) => body_of(bytes@, client_magic()) == Some(body@),
            Err(error) => body_of(bytes@, client_magic()) is None && error
                == WireError::ClientMagic,
        },
{
    let magic: [u8; 4] = [82, 77, 81, 49];
    proof {
        assert(magic@ =~= client_magic());
    }
    if !starts_with(bytes, &magic) {
        return Err(WireError::ClientMagic);
    }
    Ok(slice_to_vec(slice_subrange(bytes, 4, bytes.len())))
}

/// A ball in flight. Its numbers are binary64 patterns.
#[derive(Clone, Copy, Debug, PartialEq, Eq)]
pub struct Ball {
    /// Identity of the ball.
    pub id: u64,
    /// Its caliber.
    pub caliber: Caliber,
    /// When it was launched.
    pub launched_ns: u64,
    /// Position.
    pub position_m: [u64; 3],
    /// Velocity.
    pub velocity_m_s: [u64; 3],
    /// Spin, which moves no ball a client can see.
    pub angular_velocity_rad_s: [u64; 3],
    /// The chassis that fired it, when a pilot did.
    pub shooter: Option<u32>,
    /// When it first touched something.
    pub first_contact_ns: Option<u64>,
    /// Since when it has been slow.
    pub dwell_since_ns: Option<u64>,
}

/// A ball on the wire. Times ride as ages: launch against the checkpoint,
/// contact against the launch, dwell against the contact or, without one, the
/// launch.
#[derive(Clone, Copy, Debug, PartialEq, Eq)]
pub struct ProjectileWire {
    /// Identity of the ball.
    pub id: u64,
    /// Caliber as one bit: 42 mm when set.
    pub large: bool,
    /// Launch before the checkpoint.
    pub launched_age_ns: u64,
    /// Position.
    pub position_m: [u64; 3],
    /// Velocity.
    pub velocity_m_s: [u64; 3],
    /// The chassis that fired it, when a pilot did.
    pub shooter: Option<u32>,
    /// First contact after the launch.
    pub first_contact_age_ns: Option<u64>,
    /// Dwell after the first contact or launch.
    pub dwell_age_ns: Option<u64>,
}

/// A ball's position and velocity at the precision that the wire carries, as
/// binary64 patterns: `f32` precision where `f32` holds the value finitely,
/// otherwise the value itself. Rounding is done where floats are.
#[derive(Clone, Copy, Debug, PartialEq, Eq)]
pub struct Rounded {
    /// Position.
    pub position_m: [u64; 3],
    /// Velocity.
    pub velocity_m_s: [u64; 3],
}

/// A time less another, not below zero.
pub open spec fn since(later: u64, earlier: u64) -> u64 {
    if later >= earlier {
        (later - earlier) as u64
    } else {
        0
    }
}

/// A time plus an age, up to the end of time.
pub open spec fn plus(time: u64, age: u64) -> u64 {
    if time + age <= u64::MAX {
        (time + age) as u64
    } else {
        u64::MAX
    }
}

impl Ball {
    /// The ball's times are in order: launched by now, touched since, slow
    /// since then.
    pub open spec fn in_order(self, time_ns: u64) -> bool {
        &&& self.launched_ns <= time_ns
        &&& self.first_contact_ns is Some ==> self.launched_ns <= self.first_contact_ns->0
        &&& self.dwell_since_ns is Some ==> self.dwell_from() <= self.dwell_since_ns->0
    }

    /// What the dwell's age counts from.
    pub open spec fn dwell_from(self) -> u64 {
        match self.first_contact_ns {
            Some(contact) => contact,
            None => self.launched_ns,
        }
    }

    /// On the wire of a checkpoint at a time, rounded so.
    pub open spec fn wire(self, time_ns: u64, rounded: Rounded) -> ProjectileWire {
        ProjectileWire {
            id: self.id,
            large: self.caliber == Caliber::Mm42,
            launched_age_ns: since(time_ns, self.launched_ns),
            position_m: rounded.position_m,
            velocity_m_s: rounded.velocity_m_s,
            shooter: self.shooter,
            first_contact_age_ns: match self.first_contact_ns {
                Some(contact) => Some(since(contact, self.launched_ns)),
                None => None,
            },
            dwell_age_ns: match self.dwell_since_ns {
                Some(dwell) => Some(since(dwell, self.dwell_from())),
                None => None,
            },
        }
    }

    /// Without spin, and rounded so.
    pub open spec fn still(self, rounded: Rounded) -> Ball {
        Ball {
            angular_velocity_rad_s: [0u64, 0u64, 0u64],
            position_m: rounded.position_m,
            velocity_m_s: rounded.velocity_m_s,
            ..self
        }
    }

    /// The ball on the wire of a checkpoint at a time, rounded so.
    pub fn to_wire(&self, time_ns: u64, rounded: Rounded) -> (r: ProjectileWire)
        ensures
            r == self.wire(time_ns, rounded),
    {
        let base: u64 = match self.first_contact_ns {
            Some(contact) => contact,
            None => self.launched_ns,
        };
        ProjectileWire {
            id: self.id,
            large: self.caliber == Caliber::Mm42,
            launched_age_ns: time_ns.saturating_sub(self.launched_ns),
            position_m: rounded.position_m,
            velocity_m_s: rounded.velocity_m_s,
            shooter: self.shooter,
            first_contact_age_ns: match self.first_contact_ns {
                Some(contact) => Some(contact.saturating_sub(self.launched_ns)),
                None => None,
            },
            dwell_age_ns: match self.dwell_since_ns {
                Some(dwell) => Some(dwell.saturating_sub(base)),
                None => None,
            },
        }
    }
}

impl ProjectileWire {
    /// The launch time it stands for in a checkpoint at a time.
    pub open spec fn launched(self, time_ns: u64) -> u64 {
        since(time_ns, self.launched_age_ns)
    }

    /// The contact time it stands for.
    pub open spec fn contact(self, time_ns: u64) -> Option<u64> {
        match self.first_contact_age_ns {
            Some(age) => Some(plus(self.launched(time_ns), age)),
            None => None,
        }
    }

    /// The ball it stands for in a checkpoint at a time.
    pub open spec fn ball(self, time_ns: u64) -> Ball {
        let dwell_from = match self.contact(time_ns) {
            Some(contact) => contact,
            None => self.launched(time_ns),
        };
        Ball {
            id: self.id,
            caliber: if self.large {
                Caliber::Mm42
            } else {
                Caliber::Mm17
            },
            launched_ns: self.launched(time_ns),
            position_m: self.position_m,
            velocity_m_s: self.velocity_m_s,
            angular_velocity_rad_s: [0u64, 0u64, 0u64],
            shooter: self.shooter,
            first_contact_ns: self.contact(time_ns),
            dwell_since_ns: match self.dwell_age_ns {
                Some(age) => Some(plus(dwell_from, age)),
                None => None,
            },
        }
    }

    /// The ball it stands for in a checkpoint at a time.
    pub fn to_ball(&self, time_ns: u64) -> (r: Ball)
        ensures
            r == self.ball(time_ns),
    {
        let launched_ns: u64 = time_ns.saturating_sub(self.launched_age_ns);
        let first_contact_ns: Option<u64> = match self.first_contact_age_ns {
            Some(age) => Some(launched_ns.saturating_add(age)),
            None => None,
        };
        let base: u64 = match first_contact_ns {
            Some(contact) => contact,
            None => launched_ns,
        };
        Ball {
            id: self.id,
            caliber: if self.large {
                Caliber::Mm42
            } else {
                Caliber::Mm17
            },
            launched_ns,
            position_m: self.position_m,
            velocity_m_s: self.velocity_m_s,
            angular_velocity_rad_s: [0, 0, 0],
            shooter: self.shooter,
            first_contact_ns,
            dwell_since_ns: match self.dwell_age_ns {
                Some(age) => Some(base.saturating_add(age)),
                None => None,
            },
        }
    }
}

/// A simulation state by the parts that a checkpoint rewrites and the rest.
#[derive(Clone, Debug)]
pub struct PlayerState {
    /// Field time.
    pub time_ns: u64,
    /// Input epoch.
    pub input_epoch: u64,
    /// Number of the snapshot.
    pub snapshot_id: u64,
    /// Balls in flight.
    pub projectiles: Vec<Ball>,
    /// Recent contacts.
    pub hits: Vec<ArmorHit>,
    /// What each wheel of each chassis touches, in their order. A contact goes
    /// by a number that the caller keeps it under.
    pub wheel_contacts: Vec<Option<u64>>,
    /// Everything else of the state, by a number that the caller keeps it under.
    pub rest: u64,
}

/// An independent player checkpoint.
#[derive(Clone, Debug)]
pub struct PlayerSnapshot {
    /// Field time.
    pub time_ns: u64,
    /// Input epoch.
    pub input_epoch: u64,
    /// Number of the snapshot.
    pub snapshot_id: u64,
    /// Balls in flight.
    pub projectiles: Vec<ProjectileWire>,
    /// Registered hits.
    pub hits: Vec<ArmorHit>,
    /// What each wheel of each chassis touches: nothing in a checkpoint that was
    /// taken of a state.
    pub wheel_contacts: Vec<Option<u64>>,
    /// Everything else of the state.
    pub rest: u64,
}

/// A simulation state as a value.
pub struct PlayerStateModel {
    /// Field time.
    pub time_ns: u64,
    /// Input epoch.
    pub input_epoch: u64,
    /// Number of the snapshot.
    pub snapshot_id: u64,
    /// Balls in flight.
    pub projectiles: Seq<Ball>,
    /// Recent contacts.
    pub hits: Seq<ArmorHit>,
    /// What each wheel of each chassis touches.
    pub wheel_contacts: Seq<Option<u64>>,
    /// Everything else of the state.
    pub rest: u64,
}

/// An independent player checkpoint as a value.
pub struct PlayerSnapshotModel {
    /// Field time.
    pub time_ns: u64,
    /// Input epoch.
    pub input_epoch: u64,
    /// Number of the snapshot.
    pub snapshot_id: u64,
    /// Balls in flight.
    pub projectiles: Seq<ProjectileWire>,
    /// Registered hits.
    pub hits: Seq<ArmorHit>,
    /// What each wheel of each chassis touches.
    pub wheel_contacts: Seq<Option<u64>>,
    /// Everything else of the state.
    pub rest: u64,
}

impl View for PlayerState {
    type V = PlayerStateModel;

    open spec fn view(&self) -> PlayerStateModel {
        PlayerStateModel {
            time_ns: self.time_ns,
            input_epoch: self.input_epoch,
            snapshot_id: self.snapshot_id,
            projectiles: self.projectiles@,
            hits: self.hits@,
            wheel_contacts: self.wheel_contacts@,
            rest: self.rest,
        }
    }
}

impl View for PlayerSnapshot {
    type V = PlayerSnapshotModel;

    open spec fn view(&self) -> PlayerSnapshotModel {
        PlayerSnapshotModel {
            time_ns: self.time_ns,
            input_epoch: self.input_epoch,
            snapshot_id: self.snapshot_id,
            projectiles: self.projectiles@,
            hits: self.hits@,
            wheel_contacts: self.wheel_contacts@,
            rest: self.rest,
        }
    }
}

/// As many wheels that touch nothing.
pub open spec fn lifted(contacts: Seq<Option<u64>>) -> Seq<Option<u64>> {
    Seq::new(contacts.len(), |i: int| None)
}

/// The contacts that a module registered.
pub open spec fn registered(hits: Seq<ArmorHit>) -> Seq<ArmorHit> {
    hits.filter(|hit: ArmorHit| hit.detected)
}

impl PlayerStateModel {
    /// The checkpoint of a state: balls by their ages and rounded so, no
    /// contact that was not registered, and no wheel's contact.
    pub open spec fn checkpoint(self, rounded: Seq<Rounded>) -> PlayerSnapshotModel {
        PlayerSnapshotModel {
            time_ns: self.time_ns,
            input_epoch: self.input_epoch,
            snapshot_id: self.snapshot_id,
            projectiles: Seq::new(
                self.projectiles.len(),
                |i: int| self.projectiles[i].wire(self.time_ns, rounded[i]),
            ),
            hits: registered(self.hits),
            wheel_contacts: lifted(self.wheel_contacts),
            rest: self.rest,
        }
    }

    /// What a peer gets to see of a state: its balls rounded and without spin,
    /// the contacts that were registered, and no wheel's contact.
    pub open spec fn delivered(self, rounded: Seq<Rounded>) -> PlayerStateModel {
        PlayerStateModel {
            projectiles: Seq::new(
                self.projectiles.len(),
                |i: int| self.projectiles[i].still(rounded[i]),
            ),
            hits: registered(self.hits),
            wheel_contacts: lifted(self.wheel_contacts),
            ..self
        }
    }

    /// Every ball's times are in order.
    pub open spec fn in_order(self) -> bool {
        forall|i: int|
            0 <= i < self.projectiles.len() ==> (#[trigger] self.projectiles[i]).in_order(
                self.time_ns,
            )
    }

    /// A state whose balls' times are in order comes back from its checkpoint
    /// exactly, but for the rounding and the spin of its balls, the contacts that
    /// were not registered and those of wheels.
    pub proof fn checkpoints_keep_the_state(self, rounded: Seq<Rounded>)
        requires
            self.in_order(),
        ensures
            self.checkpoint(rounded).state() == self.delivered(rounded),
    {
        let wires = self.checkpoint(rounded).projectiles;
        assert forall|i: int| 0 <= i < self.projectiles.len() implies (#[trigger] wires[i]).ball(
            self.time_ns,
        ) == self.projectiles[i].still(rounded[i]) by {
            assert(self.projectiles[i].in_order(self.time_ns));
        }
        assert(self.checkpoint(rounded).state().projectiles =~= self.delivered(
            rounded,
        ).projectiles);
    }
}

impl PlayerSnapshotModel {
    /// The state that a checkpoint stands for.
    pub open spec fn state(self) -> PlayerStateModel {
        PlayerStateModel {
            time_ns: self.time_ns,
            input_epoch: self.input_epoch,
            snapshot_id: self.snapshot_id,
            projectiles: Seq::new(
                self.projectiles.len(),
                |i: int| self.projectiles[i].ball(self.time_ns),
            ),
            hits: self.hits,
            wheel_contacts: self.wheel_contacts,
            rest: self.rest,
        }
    }
}

impl PlayerSnapshot {
    /// The checkpoint of a state, its balls rounded so.
    pub fn from_state(state: &PlayerState, rounded: &Vec<Rounded>) -> (r: PlayerSnapshot)
        requires
            rounded@.len() == state@.projectiles.len(),
        ensures
            r@ == state@.checkpoint(rounded@),
    {
        let mut projectiles: Vec<ProjectileWire> = Vec::new();
        let mut i: usize = 0;
        while i < state.projectiles.len()
            invariant
                i <= state.projectiles@.len(),
                rounded@.len() == state.projectiles@.len(),
                projectiles@.len() == i,
                forall|k: int|
                    0 <= k < i ==> (#[trigger] projectiles@[k]) == state.projectiles@[k].wire(
                        state.time_ns,
                        rounded@[k],
                    ),
            decreases state.projectiles@.len() - i,
        {
            projectiles.push(state.projectiles[i].to_wire(state.time_ns, rounded[i]));
            i += 1;
        }
        let mut hits: Vec<ArmorHit> = Vec::new();
        let mut j: usize = 0;
        proof {
            reveal(Seq::filter);
            assert(hits@ =~= registered(state.hits@.subrange(0, 0)));
        }
        while j < state.hits.len()
            invariant
                j <= state.hits@.len(),
                hits@ == registered(state.hits@.subrange(0, j as int)),
            decreases state.hits@.len() - j,
        {
            proof {
                reveal(Seq::filter);
                let seen = state.hits@.subrange(0, j + 1);
                assert(seen.drop_last() =~= state.hits@.subrange(0, j as int));
                assert(seen.last() == state.hits@[j as int]);
            }
            if state.hits[j].detected {
                hits.push(state.hits[j]);
            }
            j += 1;
        }
        let mut wheel_contacts: Vec<Option<u64>> = Vec::new();
        let mut w: usize = 0;
        while w < state.wheel_contacts.len()
            invariant
                w <= state.wheel_contacts@.len(),
                wheel_contacts@.len() == w,
                forall|k: int| 0 <= k < w ==> (#[trigger] wheel_contacts@[k]) is None,
            decreases state.wheel_contacts@.len() - w,
        {
            wheel_contacts.push(None);
            w += 1;
        }
        let r = PlayerSnapshot {
            time_ns: state.time_ns,
            input_epoch: state.input_epoch,
            snapshot_id: state.snapshot_id,
            projectiles,
            hits,
            wheel_contacts,
            rest: state.rest,
        };
        proof {
            assert(state.hits@.subrange(0, j as int) =~= state.hits@);
            assert(r@.projectiles =~= state@.checkpoint(rounded@).projectiles);
            assert(r@.wheel_contacts =~= lifted(state@.wheel_contacts));
        }
        r
    }

    /// The state that a checkpoint stands for.
    pub fn to_state(&self) -> (r: PlayerState)
        ensures
            r@ == self@.state(),
    {
        let mut projectiles: Vec<Ball> = Vec::new();
        let mut i: usize = 0;
        while i < self.projectiles.len()
            invariant
                i <= self.projectiles@.len(),
                projectiles@.len() == i,
                forall|k: int|
                    0 <= k < i ==> (#[trigger] projectiles@[k]) == self.projectiles@[k].ball(
                        self.time_ns,
                    ),
            decreases self.projectiles@.len() - i,
        {
            projectiles.push(self.projectiles[i].to_ball(self.time_ns));
            i += 1;
        }
        let r = PlayerState {
            time_ns: self.time_ns,
            input_epoch: self.input_epoch,
            snapshot_id: self.snapshot_id,
            projectiles,
            hits: slice_to_vec(self.hits.as_slice()),
            wheel_contacts: slice_to_vec(self.wheel_contacts.as_slice()),
            rest: self.rest,
        };
        proof {
            assert(r@.projectiles =~= self@.state().projectiles);
        }
        r
    }
}

/// The state of an unpacked checkpoint, after a check of its input epoch. With
/// `keep` the checkpoint itself comes back too, to be pinned as a baseline:
/// later deltas use the exact values that the encoder holds.
pub fn decode_checkpoint(snapshot: PlayerSnapshot, epoch: u64, keep: bool) -> (r: Result<
    (PlayerState, Option<PlayerSnapshot>),
    WireError,
>)
    ensures
        match r {
            Ok((state, kept)) => {
                &&& snapshot.input_epoch == epoch
                &&& state@ == snapshot@.state()
                &&& kept is Some == keep
                &&& keep ==> kept->0 == snapshot
            },
            Err(error) => snapshot.input_epoch != epoch && error == WireError::StateEpoch,
        },
{
    if snapshot.input_epoch != epoch {
        return Err(WireError::StateEpoch);
    }
    let state = snapshot.to_state();
    if keep {
        Ok((state, Some(snapshot)))
    } else {
        Ok((state, None))
    }
}

/// A message to a peer. Every message but the snapshot goes by a number that
/// the caller keeps it under.
#[derive(Debug)]
pub enum PlayerMessage {
    /// The state of the simulation.
    Snapshot(PlayerState),
    /// Another message.
    Other(u64),
}

/// The wire form of a message to a peer.
#[derive(Debug)]
pub enum PlayerWire {
    /// A checkpoint.
    Snapshot(PlayerSnapshot),
    /// Another message.
    Message(u64),
}

/// A message to a peer as a value.
pub enum PlayerMessageModel {
    /// The state of the simulation.
    Snapshot(PlayerStateModel),
    /// Another message.
    Other(u64),
}

/// The wire form of a message to a peer as a value.
pub enum PlayerWireModel {
    /// A checkpoint.
    Snapshot(PlayerSnapshotModel),
    /// Another message.
    Message(u64),
}

impl View for PlayerMessage {
    type V = PlayerMessageModel;

    open spec fn view(&self) -> PlayerMessageModel {
        match *self {
            PlayerMessage::Snapshot(state) => PlayerMessageModel::Snapshot(state@),
            PlayerMessage::Other(message) => PlayerMessageModel::Other(message),
        }
    }
}

impl View for PlayerWire {
    type V = PlayerWireModel;

    open spec fn view(&self) -> PlayerWireModel {
        match *self {
            PlayerWire::Snapshot(snapshot) => PlayerWireModel::Snapshot(snapshot@),
            PlayerWire::Message(message) => PlayerWireModel::Message(message),
        }
    }
}

impl PlayerMessageModel {
    /// The wire form: a snapshot becomes an independent checkpoint.
    pub open spec fn wire(self, rounded: Seq<Rounded>) -> PlayerWireModel {
        match self {
            PlayerMessageModel::Snapshot(state) => PlayerWireModel::Snapshot(
                state.checkpoint(rounded),
            ),
            PlayerMessageModel::Other(message) => PlayerWireModel::Message(message),
        }
    }

    /// What a peer gets to see of a message.
    pub open spec fn delivered(self, rounded: Seq<Rounded>) -> PlayerMessageModel {
        match self {
            PlayerMessageModel::Snapshot(state) => PlayerMessageModel::Snapshot(
                state.delivered(rounded),
            ),
            PlayerMessageModel::Other(_) => self,
        }
    }
}

impl PlayerWireModel {
    /// The message that a wire form stands for.
    pub open spec fn message(self) -> PlayerMessageModel {
        match self {
            PlayerWireModel::Snapshot(snapshot) => PlayerMessageModel::Snapshot(snapshot.state()),
            PlayerWireModel::Message(message) => PlayerMessageModel::Other(message),
        }
    }
}

impl PlayerWire {
    /// The wire form of a message, a snapshot's balls rounded so.
    pub fn from_message(message: &PlayerMessage, rounded: &Vec<Rounded>) -> (r: PlayerWire)
        requires
            match message@ {
                PlayerMessageModel::Snapshot(state) => rounded@.len() == state.projectiles.len(),
                PlayerMessageModel::Other(_) => true,
            },
        ensures
            r@ == message@.wire(rounded@),
    {
        match message {
            PlayerMessage::Snapshot(state) => PlayerWire::Snapshot(
                PlayerSnapshot::from_state(state, rounded),
            ),
            PlayerMessage::Other(message) => PlayerWire::Message(*message),
        }
    }

    /// The message that a wire form stands for.
    pub fn to_message(&self) -> (r: PlayerMessage)
        ensures
            r@ == self@.message(),
    {
        match self {
            PlayerWire::Snapshot(snapshot) => PlayerMessage::Snapshot(snapshot.to_state()),
            PlayerWire::Message(message) => PlayerMessage::Other(*message),
        }
    }
}

/// The bytes of a message, with a packer of wire forms.
pub open spec fn encoded(
    message: PlayerMessageModel,
    rounded: Seq<Rounded>,
    pack: spec_fn(PlayerWireModel) -> Seq<u8>,
) -> Seq<u8> {
    server_magic() + pack(message.wire(rounded))
}

/// The message that bytes hold, with an unpacker of wire forms.
pub open spec fn decoded(
    bytes: Seq<u8>,
    unpack: spec_fn(Seq<u8>) -> Option<PlayerWireModel>,
) -> Option<PlayerMessageModel> {
    match body_of(bytes, server_magic()) {
        None => None,
        Some(body) => match unpack(body) {
            None => None,
            Some(wire) => Some(wire.message()),
        },
    }
}

/// Whatever packs the wire form, where unpacking reads back what packing
/// wrote: a message that is no snapshot is read back as it is, and a snapshot
/// whose balls' times are in order with every identity, caliber, shooter and
/// time exact, its balls rounded as handed in and without spin, its registered
/// contacts, and no wheel's contact. Bytes behind another magic are refused.
pub proof fn messages_read_back(
    message: PlayerMessageModel,
    rounded: Seq<Rounded>,
    pack: spec_fn(PlayerWireModel) -> Seq<u8>,
    unpack: spec_fn(Seq<u8>) -> Option<PlayerWireModel>,
    other: Seq<u8>,
)
    requires
        unpack(pack(message.wire(rounded))) == Some(message.wire(rounded)),
        match message {
            PlayerMessageModel::Snapshot(state) => state.in_order(),
            PlayerMessageModel::Other(_) => true,
        },
    ensures
        decoded(encoded(message, rounded, pack), unpack) == Some(message.delivered(rounded)),
        !tagged(other, server_magic()) ==> decoded(other, unpack) is None,
{
    let body = pack(message.wire(rounded));
    bodies_read_back(server_magic(), client_magic(), body);
    assert(server_magic()[2] != client_magic()[2]);
    match message {
        PlayerMessageModel::Snapshot(state) => {
            state.checkpoints_keep_the_state(rounded);
        },
        PlayerMessageModel::Other(_) => {},
    }
}

} // verus!
