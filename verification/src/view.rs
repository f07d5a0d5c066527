//! Remote pose history only. Commands, HP and local chassis remain
//! authoritative.
//!
//! The history decides which known poses a moment lies between and how far.
//! Blending two poses is left to whoever draws them.
use crate::target::Team;
use std::collections::VecDeque;
use vstd::prelude::*;

verus! {

/// Presentation setting, not a rulebook delay.
pub const DELAY_NS: u64 = 64_000_000;

/// Frames retained.
pub const CAPACITY: usize = 32;

/// A missing update is bridged no longer than this.
pub const EXTRAPOLATION_NS: u64 = 100_000_000;

/// One chassis in one frame. Two states of one id belong to one life when
/// everything but the body agrees.
#[derive(Clone, Copy, Debug, PartialEq, Eq, Structural)]
pub struct ChassisState {
    /// Chassis id.
    pub id: u32,
    /// Changes on placement or revival.
    pub placement_revision: u64,
    /// The robot is defeated.
    pub defeated: bool,
    /// Identity of the chassis configuration.
    pub config: u64,
    /// Team the chassis plays for.
    pub team: Team,
    /// Key of the pose and velocity in the caller's keeping.
    pub body: u64,
}

impl ChassisState {
    /// The same robot in the same life.
    pub open spec fn same_life(self, other: ChassisState) -> bool {
        &&& self.id == other.id
        &&& self.placement_revision == other.placement_revision
        &&& self.defeated == other.defeated
        &&& self.config == other.config
        &&& self.team == other.team
    }

    /// Whether this is the same robot in the same life.
    pub fn is_same_life(&self, other: &ChassisState) -> (r: bool)
        ensures
            r == self.same_life(*other),
    {
        self.id == other.id && self.placement_revision == other.placement_revision
            && self.defeated == other.defeated && self.config == other.config && self.team
            == other.team
    }
}

/// A life that goes on in a frame.
pub open spec fn lives_on(states: Seq<ChassisState>, state: ChassisState) -> bool {
    exists|i: int| 0 <= i < states.len() && (#[trigger] states[i]).same_life(state)
}

/// The states whose life goes on in a frame.
pub open spec fn living(states: Seq<ChassisState>, newest: Seq<ChassisState>) -> Seq<ChassisState> {
    states.filter(|s: ChassisState| lives_on(newest, s))
}

/// The first state of a life in a frame.
pub open spec fn of_life(states: Seq<ChassisState>, life: ChassisState) -> Option<ChassisState>
    decreases states.len(),
{
    if states.len() == 0 {
        None
    } else if states[0].same_life(life) {
        Some(states[0])
    } else {
        of_life(states.subrange(1, states.len() as int), life)
    }
}

/// The first state of an id in a frame.
pub open spec fn of_id(states: Seq<ChassisState>, id: u32) -> Option<ChassisState>
    decreases states.len(),
{
    if states.len() == 0 {
        None
    } else if states[0].id == id {
        Some(states[0])
    } else {
        of_id(states.subrange(1, states.len() as int), id)
    }
}

/// Find the first state of a life.
fn find_life(states: &Vec<ChassisState>, life: &ChassisState) -> (r: Option<ChassisState>)
    ensures
        r == of_life(states@, *life),
{
    let mut i: usize = 0;
    proof {
        assert(states@.subrange(0, states@.len() as int) =~= states@);
    }
    while i < states.len()
        invariant
            i <= states@.len(),
            of_life(states@, *life) == of_life(
                states@.subrange(i as int, states@.len() as int),
                *life,
            ),
        decreases states@.len() - i,
    {
        let ghost rest = states@.subrange(i as int, states@.len() as int);
        proof {
            assert(rest[0] == states@[i as int]);
            assert(rest.subrange(1, rest.len() as int) =~= states@.subrange(
                i + 1,
                states@.len() as int,
            ));
        }
        if states[i].is_same_life(life) {
            return Some(states[i]);
        }
        i += 1;
    }
    None
}

/// Find the first state of an id.
fn find_id(states: &Vec<ChassisState>, id: u32) -> (r: Option<ChassisState>)
    ensures
        r == of_id(states@, id),
{
    let mut i: usize = 0;
    proof {
        assert(states@.subrange(0, states@.len() as int) =~= states@);
    }
    while i < states.len()
        invariant
            i <= states@.len(),
            of_id(states@, id) == of_id(states@.subrange(i as int, states@.len() as int), id),
        decreases states@.len() - i,
    {
        let ghost rest = states@.subrange(i as int, states@.len() as int);
        proof {
            assert(rest[0] == states@[i as int]);
            assert(rest.subrange(1, rest.len() as int) =~= states@.subrange(
                i + 1,
                states@.len() as int,
            ));
        }
        if states[i].id == id {
            return Some(states[i]);
        }
        i += 1;
    }
    None
}

/// The state that a sample shows.
#[derive(Clone, Copy, Debug, PartialEq, Eq, Structural)]
pub enum Blend {
    /// One known pose.
    Hold(ChassisState),
    /// A pose between two of one life: `part` out of `whole` of the way.
    Mix {
        /// The earlier state.
        from: ChassisState,
        /// The later state.
        to: ChassisState,
        /// How far after the earlier frame.
        part: u64,
        /// How far apart the two frames are; zero stands for the later pose.
        whole: u64,
    },
}

/// What a frame pair shows of a chassis at a time. The newest frame fixes the
/// life; the later frame's state of that life, or the newest one, is blended
/// with the earlier frame's where there is one.
pub open spec fn shown(
    before_ns: u64,
    before: Seq<ChassisState>,
    after_ns: u64,
    after: Seq<ChassisState>,
    latest: Seq<ChassisState>,
    id: u32,
    time_ns: u64,
) -> Option<Blend> {
    match of_id(latest, id) {
        None => None,
        Some(root) => {
            let next = match of_life(after, root) {
                Some(state) => state,
                None => root,
            };
            match of_life(before, root) {
                None => Some(Blend::Hold(next)),
                Some(old) => Some(
                    Blend::Mix {
                        from: old,
                        to: next,
                        part: time_ns.saturating_sub(before_ns),
                        whole: after_ns.saturating_sub(before_ns),
                    },
                ),
            }
        },
    }
}

/// A single global frame pair, with the latest lifecycle as the fallback.
///
/// Only states matching `id` and the latest life are blended, so two lives are
/// never mixed. A state missing from the later frame falls back to the latest
/// pose, and one missing from the earlier frame falls back to that later pose.
pub fn sample_chassis(
    before: (u64, &Vec<ChassisState>),
    after: (u64, &Vec<ChassisState>),
    latest: &Vec<ChassisState>,
    id: u32,
    time_ns: u64,
) -> (r: Option<Blend>)
    ensures
        r == shown(before.0, before.1@, after.0, after.1@, latest@, id, time_ns),
{
    let root = match find_id(latest, id) {
        Some(root) => root,
        None => {
            return None;
        },
    };
    let next = match find_life(after.1, &root) {
        Some(state) => state,
        None => root,
    };
    match find_life(before.1, &root) {
        None => Some(Blend::Hold(next)),
        Some(old) => Some(
            Blend::Mix {
                from: old,
                to: next,
                part: time_ns.saturating_sub(before.0),
                whole: after.0.saturating_sub(before.0),
            },
        ),
    }
}

/// How far a state may be carried on past its frame: the time asked for, at
/// most 100 ms.
pub fn extrapolate(delta_ns: u64) -> (r: u64)
    ensures
        r == (if delta_ns < EXTRAPOLATION_NS {
            delta_ns
        } else {
            EXTRAPOLATION_NS
        }),
{
    if delta_ns < EXTRAPOLATION_NS {
        delta_ns
    } else {
        EXTRAPOLATION_NS
    }
}

/// One frame per host snapshot.
#[derive(Clone, Debug, PartialEq, Eq)]
pub struct Frame {
    /// Host simulation time.
    pub time_ns: u64,
    /// The chassis states then.
    pub states: Vec<ChassisState>,
    /// The caller's frame id.
    pub id: u64,
}

/// What a frame is.
pub ghost struct FrameModel {
    pub time_ns: u64,
    pub states: Seq<ChassisState>,
    pub id: u64,
}

impl View for Frame {
    type V = FrameModel;

    open spec fn view(&self) -> FrameModel {
        FrameModel { time_ns: self.time_ns, states: self.states@, id: self.id }
    }
}

/// A bounded window of remote poses for interpolation.
#[derive(Debug, PartialEq, Eq)]
pub struct RemoteHistory {
    /// Frames, oldest first.
    pub frames: VecDeque<Frame>,
    /// Pause state of the newest frame.
    pub paused: bool,
}

/// What a history is.
pub ghost struct HistoryModel {
    pub frames: Seq<FrameModel>,
    pub paused: bool,
}

impl View for RemoteHistory {
    type V = HistoryModel;

    open spec fn view(&self) -> HistoryModel {
        HistoryModel { frames: self.frames@.map_values(|f: Frame| f@), paused: self.paused }
    }
}

/// What a sample shows and how far it is to be carried on.
#[derive(Clone, Copy, Debug, PartialEq, Eq, Structural)]
pub struct Sampled {
    /// The known pose or the pose between two.
    pub blend: Blend,
    /// How far the pose is carried on at its own velocity.
    pub extrapolate_ns: u64,
}

/// The state whose lifecycle a blend shows.
pub open spec fn shown_state(blend: Blend) -> ChassisState {
    match blend {
        Blend::Hold(state) => state,
        Blend::Mix { to, .. } => to,
    }
}

/// The first frame with an id.
pub open spec fn frame_of_id(frames: Seq<FrameModel>, id: u64) -> FrameModel
    decreases frames.len(),
{
    if frames.len() <= 1 || frames[0].id == id {
        frames[0]
    } else {
        frame_of_id(frames.subrange(1, frames.len() as int), id)
    }
}

impl HistoryModel {
    /// At most so many frames, their times ascending, and no chassis whose
    /// life does not go on in the newest frame.
    pub open spec fn wf(self) -> bool {
        &&& self.frames.len() <= CAPACITY
        &&& forall|i: int, j: int|
            0 <= i < j < self.frames.len() ==> (#[trigger] self.frames[i]).time_ns < (
            #[trigger] self.frames[j]).time_ns
        &&& forall|i: int, k: int|
            0 <= i < self.frames.len() && 0 <= k < self.frames[i].states.len() ==> lives_on(
                self.frames.last().states,
                #[trigger] self.frames[i].states[k],
            )
    }

    /// The frames without the chassis whose life does not go on in `states`.
    pub open spec fn pruned(self, states: Seq<ChassisState>) -> Seq<FrameModel> {
        self.frames.map_values(
            |f: FrameModel| FrameModel { states: living(f.states, states), ..f },
        )
    }

    /// The history with one more frame. A pause change or a time that moves
    /// backwards clears the window; lives that do not go on leave every frame;
    /// a frame at the same time is replaced, and the oldest leaves a full
    /// window.
    pub open spec fn pushed(self, frame: FrameModel, paused: bool) -> HistoryModel {
        let kept = if paused != self.paused || (self.frames.len() > 0 && frame.time_ns
            < self.frames.last().time_ns) {
            HistoryModel { frames: Seq::empty(), paused }
        } else {
            self
        };
        let pruned = kept.pruned(frame.states);
        let others = if pruned.len() > 0 && pruned.last().time_ns == frame.time_ns {
            pruned.drop_last()
        } else {
            pruned
        };
        let room = if others.len() == CAPACITY {
            others.subrange(1, others.len() as int)
        } else {
            others
        };
        HistoryModel { frames: room.push(frame), paused }
    }

    /// A time within the window.
    pub open spec fn clamped(self, time_ns: u64) -> u64 {
        if time_ns < self.frames[0].time_ns {
            self.frames[0].time_ns
        } else if time_ns > self.frames.last().time_ns {
            self.frames.last().time_ns
        } else {
            time_ns
        }
    }

    /// The last frame that is not after `t`, among the first `n`.
    pub open spec fn last_by(self, t: u64, n: nat) -> FrameModel
        decreases n,
    {
        if n <= 1 || self.frames[n - 1].time_ns <= t {
            self.frames[n - 1]
        } else {
            self.last_by(t, (n - 1) as nat)
        }
    }

    /// The first frame that is not before `t`, from the `n`-th on.
    pub open spec fn first_from(self, t: u64, n: nat) -> FrameModel
        decreases self.frames.len() - n,
    {
        if n + 1 >= self.frames.len() || self.frames[n as int].time_ns >= t {
            self.frames[n as int]
        } else {
            self.first_from(t, n + 1)
        }
    }

    /// What the history shows of a chassis at a time.
    pub open spec fn sampled(self, id: u32, time_ns: u64) -> Option<Sampled> {
        if self.frames.len() == 0 {
            None
        } else {
            let t = self.clamped(time_ns);
            let before = frame_of_id(self.frames, self.last_by(t, self.frames.len()).id);
            let after = frame_of_id(self.frames, self.first_from(t, 0).id);
            match shown(
                before.time_ns,
                before.states,
                after.time_ns,
                after.states,
                self.frames.last().states,
                id,
                t,
            ) {
                None => None,
                Some(blend) => Some(
                    Sampled {
                        blend,
                        extrapolate_ns: if self.paused || shown_state(blend).defeated {
                            0
                        } else if time_ns.saturating_sub(after.time_ns) < EXTRAPOLATION_NS {
                            time_ns.saturating_sub(after.time_ns)
                        } else {
                            EXTRAPOLATION_NS
                        },
                    },
                ),
            }
        }
    }
}

impl Default for RemoteHistory {
    /// An empty window.
    fn default() -> (r: RemoteHistory)
        ensures
            r@ == (HistoryModel { frames: Seq::empty(), paused: false }),
            r@.wf(),
    {
        let r = RemoteHistory { frames: VecDeque::new(), paused: false };
        proof {
            assert(r@.frames =~= Seq::empty());
        }
        r
    }
}

/// Drop the states whose life does not go on.
fn retain_lives(states: &Vec<ChassisState>, newest: &Vec<ChassisState>) -> (r: Vec<ChassisState>)
    ensures
        r@ == living(states@, newest@),
{
    let mut kept: Vec<ChassisState> = Vec::new();
    let mut i: usize = 0;
    proof {
        reveal(Seq::filter);
        assert(living(states@.subrange(0, 0), newest@) =~= Seq::empty());
    }
    while i < states.len()
        invariant
            i <= states@.len(),
            kept@ == living(states@.subrange(0, i as int), newest@),
        decreases states@.len() - i,
    {
        let state = states[i];
        let mut k: usize = 0;
        let mut alive = false;
        while k < newest.len() && !alive
            invariant
                k <= newest@.len(),
                alive ==> lives_on(newest@, state),
                !alive ==> forall|j: int|
                    0 <= j < k ==> !(#[trigger] newest@[j]).same_life(state),
            decreases newest@.len() - k,
        {
            if newest[k].is_same_life(&state) {
                alive = true;
                proof {
                    assert(newest@[k as int].same_life(state));
                }
            }
            k += 1;
        }
        if alive {
            kept.push(state);
        }
        i += 1;
        proof {
            let seen = states@.subrange(0, i as int);
            assert(seen.drop_last() =~= states@.subrange(0, i - 1));
            assert(seen.last() == state);
            reveal(Seq::filter);
        }
    }
    proof {
        assert(states@.subrange(0, i as int) =~= states@);
    }
    kept
}

/// A frame's states that are kept live on.
proof fn kept_states_live_on(states: Seq<ChassisState>, newest: Seq<ChassisState>)
    ensures
        forall|k: int|
            0 <= k < living(states, newest).len() ==> lives_on(
                newest,
                #[trigger] living(states, newest)[k],
            ),
    decreases states.len(),
{
    reveal(Seq::filter);
    if states.len() > 0 {
        let rest = states.drop_last();
        kept_states_live_on(rest, newest);
        let kept = living(states, newest);
        assert(kept == (if lives_on(newest, states.last()) {
            living(rest, newest).push(states.last())
        } else {
            living(rest, newest)
        }));
        assert forall|k: int| 0 <= k < kept.len() implies lives_on(newest, #[trigger] kept[k]) by {
            if k < living(rest, newest).len() {
                assert(kept[k] == living(rest, newest)[k]);
            }
        }
    }
}

/// Pushing a frame keeps the window's invariant, whatever happened before.
pub proof fn pushing_keeps_wf(history: HistoryModel, frame: FrameModel, paused: bool)
    requires
        history.wf(),
    ensures
        history.pushed(frame, paused).wf(),
        history.pushed(frame, paused).frames.last() == frame,
{
    let after = history.pushed(frame, paused);
    let n = after.frames.len();
    assert forall|i: int, k: int|
        0 <= i < n && 0 <= k < after.frames[i].states.len() implies lives_on(
        after.frames.last().states,
        #[trigger] after.frames[i].states[k],
    ) by {
        if i == n - 1 {
            assert(frame.states[k].same_life(frame.states[k]));
        } else {
            let pruned = history.pruned(frame.states);
            let others = if pruned.len() > 0 && pruned.last().time_ns == frame.time_ns {
                pruned.drop_last()
            } else {
                pruned
            };
            let m = if others.len() == CAPACITY {
                i + 1
            } else {
                i
            };
            assert(after.frames[i] == pruned[m]);
            kept_states_live_on(history.frames[m].states, frame.states);
        }
    }
}

impl RemoteHistory {
    /// The history's invariant.
    pub open spec fn wf(self) -> bool {
        self@.wf()
    }

    /// Oldest and newest retained frame times, or `None` while empty.
    pub fn bounds_ns(&self) -> (r: Option<(u64, u64)>)
        ensures
            r == (if self@.frames.len() == 0 {
                None
            } else {
                Some((self@.frames[0].time_ns, self@.frames.last().time_ns))
            }),
    {
        let n: usize = self.frames.len();
        if n == 0 {
            None
        } else {
            Some((self.frames[0].time_ns, self.frames[n - 1].time_ns))
        }
    }

    /// Push one frame and identify it by its own time plus one.
    pub fn push(&mut self, time_ns: u64, states: Vec<ChassisState>, paused: bool)
        requires
            old(self).wf(),
        ensures
            final(self)@ == old(self)@.pushed(
                (FrameModel { time_ns, states: states@, id: time_ns.saturating_add(1) }),
                paused,
            ),
            final(self).wf(),
    {
        self.push_identified(time_ns, states, paused, time_ns.saturating_add(1));
    }

    /// Push one frame tagged with `id`, dropping history that no longer fits.
    pub fn push_identified(
        &mut self,
        time_ns: u64,
        states: Vec<ChassisState>,
        paused: bool,
        id: u64,
    )
        requires
            old(self).wf(),
        ensures
            final(self)@ == old(self)@.pushed(
                (FrameModel { time_ns, states: states@, id }),
                paused,
            ),
            final(self).wf(),
    {
        let ghost start = self@;
        let ghost frame = FrameModel { time_ns, states: states@, id };
        proof {
            pushing_keeps_wf(start, frame, paused);
        }
        let n: usize = self.frames.len();
        if paused != self.paused || (n > 0 && time_ns < self.frames[n - 1].time_ns) {
            self.frames = VecDeque::new();
            proof {
                assert(self@.frames =~= Seq::empty());
            }
        }
        self.paused = paused;
        let ghost kept = self@;
        let mut pruned: VecDeque<Frame> = VecDeque::new();
        let mut i: usize = 0;
        while i < self.frames.len()
            invariant
                i <= self.frames@.len(),
                self.paused == paused,
                self@ == kept,
                pruned@.len() == i,
                forall|k: int| 0 <= k < i ==> (#[trigger] pruned@[k])@ == kept.pruned(states@)[k],
            decreases self.frames@.len() - i,
        {
            let lives = retain_lives(&self.frames[i].states, &states);
            let kept_frame = Frame {
                time_ns: self.frames[i].time_ns,
                states: lives,
                id: self.frames[i].id,
            };
            proof {
                assert(kept.frames[i as int] == self.frames@[i as int]@);
            }
            pruned.push_back(kept_frame);
            i += 1;
        }
        self.frames = pruned;
        proof {
            assert(self@.frames =~= kept.pruned(states@));
        }
        let len: usize = self.frames.len();
        if len > 0 && self.frames[len - 1].time_ns == time_ns {
            let _ = self.frames.pop_back();
            proof {
                assert(self@.frames =~= kept.pruned(states@).drop_last());
            }
        }
        let ghost others = self@.frames;
        if self.frames.len() == CAPACITY {
            let _ = self.frames.pop_front();
            proof {
                assert(self@.frames =~= others.subrange(1, others.len() as int));
            }
        }
        let ghost room = self@.frames;
        self.frames.push_back(Frame { time_ns, states, id });
        proof {
            assert(self@.frames =~= room.push(frame));
        }
    }

    /// The first frame with an id, by its index.
    fn index_of(&self, id: u64) -> (r: usize)
        requires
            self@.frames.len() > 0,
        ensures
            r < self@.frames.len(),
            self@.frames[r as int] == frame_of_id(self@.frames, id),
    {
        let n: usize = self.frames.len();
        let mut i: usize = 0;
        proof {
            assert(self@.frames.subrange(0, n as int) =~= self@.frames);
        }
        while i + 1 < n && self.frames[i].id != id
            invariant
                n == self@.frames.len(),
                i < n,
                frame_of_id(self@.frames, id) == frame_of_id(
                    self@.frames.subrange(i as int, n as int),
                    id,
                ),
            decreases n - i,
        {
            proof {
                let rest = self@.frames.subrange(i as int, n as int);
                assert(rest[0] == self@.frames[i as int]);
                assert(rest.subrange(1, rest.len() as int) =~= self@.frames.subrange(
                    i + 1,
                    n as int,
                ));
            }
            i += 1;
        }
        proof {
            let rest = self@.frames.subrange(i as int, n as int);
            assert(rest[0] == self@.frames[i as int]);
        }
        i
    }

    /// The frame pair bracketing `time_ns`, with the clamped sample time; the
    /// history is not empty.
    fn bracket(&self, time_ns: u64) -> (r: (u64, u64, u64))
        requires
            self@.frames.len() > 0,
        ensures
            r.2 == self@.clamped(time_ns),
            r.0 == self@.last_by(r.2, self@.frames.len()).id,
            r.1 == self@.first_from(r.2, 0).id,
    {
        let n: usize = self.frames.len();
        let first: u64 = self.frames[0].time_ns;
        let last: u64 = self.frames[n - 1].time_ns;
        let sample: u64 = if time_ns < first {
            first
        } else if time_ns > last {
            last
        } else {
            time_ns
        };
        let mut a: usize = n;
        while a > 1 && self.frames[a - 1].time_ns > sample
            invariant
                1 <= a <= n,
                n == self@.frames.len(),
                self@.last_by(sample, n as nat) == self@.last_by(sample, a as nat),
            decreases a,
        {
            a -= 1;
        }
        let mut b: usize = 0;
        while b + 1 < n && self.frames[b].time_ns < sample
            invariant
                b < n,
                n == self@.frames.len(),
                self@.first_from(sample, 0) == self@.first_from(sample, b as nat),
            decreases n - b,
        {
            b += 1;
        }
        (self.frames[a - 1].id, self.frames[b].id, sample)
    }

    /// Sample known poses for chassis `id` at `time_ns`, clamping to the
    /// retained window instead of reading past its ends. A live, non-defeated
    /// chassis is then carried on up to 100 ms past the later frame. `None`
    /// when the newest frame does not carry that chassis.
    pub fn sample(&self, id: u32, time_ns: u64) -> (r: Option<Sampled>)
        ensures
            r == self@.sampled(id, time_ns),
    {
        if self.frames.len() == 0 {
            return None;
        }
        let (before, after, sample): (u64, u64, u64) = self.bracket(time_ns);
        let b: usize = self.index_of(before);
        let a: usize = self.index_of(after);
        let n: usize = self.frames.len();
        let after_ns: u64 = self.frames[a].time_ns;
        let blend = match sample_chassis(
            (self.frames[b].time_ns, &self.frames[b].states),
            (after_ns, &self.frames[a].states),
            &self.frames[n - 1].states,
            id,
            sample,
        ) {
            Some(blend) => blend,
            None => {
                return None;
            },
        };
        let state = match blend {
            Blend::Hold(state) => state,
            Blend::Mix { to, .. } => to,
        };
        let extrapolate_ns: u64 = if self.paused || state.defeated {
            0
        } else {
            extrapolate(time_ns.saturating_sub(after_ns))
        };
        Some(Sampled { blend, extrapolate_ns })
    }
}

/// A sample never mixes two lives: both states of a blend are of the life the
/// newest frame shows.
pub proof fn samples_stay_in_one_life(history: HistoryModel, id: u32, time_ns: u64)
    requires
        history.frames.len() > 0,
    ensures
        match history.sampled(id, time_ns) {
            None => true,
            Some(sampled) => match (sampled.blend, of_id(history.frames.last().states, id)) {
                (Blend::Hold(state), Some(root)) => state.same_life(root),
                (Blend::Mix { from, to, .. }, Some(root)) => from.same_life(root)
                    && to.same_life(root),
                _ => false,
            },
        },
{
    let t = history.clamped(time_ns);
    let before = frame_of_id(history.frames, history.last_by(t, history.frames.len()).id);
    let after = frame_of_id(history.frames, history.first_from(t, 0).id);
    match of_id(history.frames.last().states, id) {
        Some(root) => {
            found_life(before.states, root);
            found_life(after.states, root);
        },
        None => {},
    }
}

/// A state found for a life is of that life.
proof fn found_life(states: Seq<ChassisState>, life: ChassisState)
    ensures
        match of_life(states, life) {
            Some(state) => state.same_life(life),
            None => true,
        },
    decreases states.len(),
{
    if states.len() > 0 && !states[0].same_life(life) {
        found_life(states.subrange(1, states.len() as int), life);
    }
}

/// A frame carries a chassis.
pub open spec fn carries(states: Seq<ChassisState>, id: u32) -> bool {
    exists|k: int| 0 <= k < states.len() && (#[trigger] states[k]).id == id
}

/// A state is found of an id where a frame carries it, and it has that id.
proof fn found_id(states: Seq<ChassisState>, id: u32)
    ensures
        (of_id(states, id) is Some) == carries(states, id),
        match of_id(states, id) {
            Some(state) => state.id == id,
            None => true,
        },
    decreases states.len(),
{
    if states.len() > 0 {
        let rest = states.subrange(1, states.len() as int);
        if states[0].id == id {
        } else {
            found_id(rest, id);
            if carries(states, id) {
                let k = choose|k: int| 0 <= k < states.len() && (#[trigger] states[k]).id == id;
                assert(rest[k - 1].id == id);
            }
            if carries(rest, id) {
                let k = choose|k: int| 0 <= k < rest.len() && (#[trigger] rest[k]).id == id;
                assert(states[k + 1].id == id);
            }
        }
    }
}

/// A chassis is shown exactly where a retained frame carries it; an empty
/// window shows none.
pub proof fn samples_show_what_is_carried(history: HistoryModel, id: u32, time_ns: u64)
    requires
        history.wf(),
    ensures
        (history.sampled(id, time_ns) is None) == (forall|i: int|
            0 <= i < history.frames.len() ==> !carries(
                (#[trigger] history.frames[i]).states,
                id,
            )),
        history.frames.len() == 0 ==> history.sampled(id, time_ns) is None,
{
    if history.frames.len() > 0 {
        let newest = history.frames.last().states;
        found_id(newest, id);
        assert(history.frames.last() == history.frames[history.frames.len() - 1]);
        if history.sampled(id, time_ns) is None {
            assert forall|i: int| 0 <= i < history.frames.len() implies !carries(
                (#[trigger] history.frames[i]).states,
                id,
            ) by {
                let states = history.frames[i].states;
                if carries(states, id) {
                    let k = choose|k: int| 0 <= k < states.len() && (#[trigger] states[k]).id == id;
                    assert(lives_on(newest, history.frames[i].states[k]));
                    let j = choose|j: int|
                        0 <= j < newest.len() && (#[trigger] newest[j]).same_life(states[k]);
                    assert(newest[j].id == id);
                }
            }
        }
    }
}

/// Times outside the window show its ends: any time up to the oldest frame
/// shows what that frame's time shows, and any time from 100 ms past the newest
/// frame on shows what that time shows. While paused, or of a defeated chassis,
/// nothing is carried on past the newest frame at all.
pub proof fn samples_stop_at_the_ends(history: HistoryModel, id: u32, time_ns: u64)
    requires
        history.wf(),
        history.frames.len() > 0,
    ensures
        ({
            let oldest = history.frames[0].time_ns;
            let newest = history.frames.last().time_ns;
            &&& time_ns <= oldest ==> history.sampled(id, time_ns) == history.sampled(id, oldest)
            &&& newest + EXTRAPOLATION_NS <= time_ns ==> history.sampled(id, time_ns)
                == history.sampled(id, (newest + EXTRAPOLATION_NS) as u64)
            &&& newest <= time_ns && (history.paused || match history.sampled(id, newest) {
                Some(sampled) => shown_state(sampled.blend).defeated,
                None => true,
            }) ==> history.sampled(id, time_ns) == history.sampled(id, newest)
        }),
{
    let oldest = history.frames[0].time_ns;
    let newest = history.frames.last().time_ns;
    let n = history.frames.len();
    assert(history.frames.last() == history.frames[n - 1]);
    assert(oldest <= newest);
    assert(history.clamped(oldest) == oldest);
    let after = frame_of_id(history.frames, history.first_from(oldest, 0).id);
    assert(after == history.frames[0]);
    let at_newest = history.first_from(newest, 0).id;
    found_frame(history.frames, at_newest);
    if newest + EXTRAPOLATION_NS <= time_ns {
        let cap = (newest + EXTRAPOLATION_NS) as u64;
        assert(history.clamped(time_ns) == newest);
        assert(history.clamped(cap) == newest);
        let last = frame_of_id(history.frames, at_newest);
        assert(last.time_ns <= newest);
    }
}

/// A frame looked up by id is one of the frames.
proof fn found_frame(frames: Seq<FrameModel>, id: u64)
    requires
        frames.len() > 0,
    ensures
        exists|i: int| 0 <= i < frames.len() && frame_of_id(frames, id) == #[trigger] frames[i],
    decreases frames.len(),
{
    if frames.len() <= 1 || frames[0].id == id {
        assert(frame_of_id(frames, id) == frames[0]);
    } else {
        let rest = frames.subrange(1, frames.len() as int);
        found_frame(rest, id);
        let i = choose|i: int| 0 <= i < rest.len() && frame_of_id(rest, id) == #[trigger] rest[i];
        assert(frame_of_id(frames, id) == frames[i + 1]);
    }
}

/// One life is everything but the body: two states belong to one life exactly
/// when they could differ in nothing else.
pub proof fn a_life_is_all_but_the_body(a: ChassisState, b: ChassisState, body: u64)
    ensures
        a.same_life(b) <==> (ChassisState { body, ..a }) == (ChassisState { body, ..b }),
{
}

/// A state is the first of its frame that looks like another but for the body.
pub open spec fn first_alike(states: Seq<ChassisState>, k: int, life: ChassisState) -> bool {
    &&& 0 <= k < states.len()
    &&& states[k] == (ChassisState { body: states[k].body, ..life })
    &&& forall|j: int| 0 <= j < k ==> #[trigger] states[j] != (ChassisState {
        body: states[j].body,
        ..life
    })
}

/// Where a life is found, and where it is not.
proof fn first_of_life(states: Seq<ChassisState>, life: ChassisState)
    ensures
        match of_life(states, life) {
            Some(state) => exists|k: int|
                #[trigger] first_alike(states, k, life) && states[k] == state,
            None => forall|k: int|
                0 <= k < states.len() ==> #[trigger] states[k] != (ChassisState {
                    body: states[k].body,
                    ..life
                }),
        },
    decreases states.len(),
{
    if states.len() > 0 {
        let rest = states.subrange(1, states.len() as int);
        if states[0].same_life(life) {
            assert(first_alike(states, 0, life));
        } else {
            first_of_life(rest, life);
            match of_life(rest, life) {
                Some(state) => {
                    let k = choose|k: int| #[trigger]
                        first_alike(rest, k, life) && rest[k] == state;
                    assert forall|j: int| 0 <= j < k + 1 implies #[trigger] states[j] != (
                    ChassisState { body: states[j].body, ..life }) by {
                        if j > 0 {
                            assert(rest[j - 1] == states[j]);
                        }
                    }
                    assert(first_alike(states, k + 1, life));
                },
                None => {
                    assert forall|j: int| 0 <= j < states.len() implies #[trigger] states[j] != (
                    ChassisState { body: states[j].body, ..life }) by {
                        if j > 0 {
                            assert(rest[j - 1] == states[j]);
                        }
                    }
                },
            }
        }
    }
}

/// A life stands at one first place only.
proof fn first_alike_once(states: Seq<ChassisState>, i: int, k: int, life: ChassisState)
    requires
        first_alike(states, i, life),
        first_alike(states, k, life),
    ensures
        i == k,
{
    if i < k {
        assert(states[i] == (ChassisState { body: states[i].body, ..life }));
    } else if k < i {
        assert(states[k] == (ChassisState { body: states[k].body, ..life }));
    }
}

/// Where an id is found first.
proof fn first_of_id(states: Seq<ChassisState>, k: int)
    requires
        0 <= k < states.len(),
        forall|j: int| 0 <= j < k ==> (#[trigger] states[j]).id != states[k].id,
    ensures
        of_id(states, states[k].id) == Some(states[k]),
    decreases states.len(),
{
    if k > 0 {
        let rest = states.subrange(1, states.len() as int);
        assert(states[0].id != states[k].id);
        assert forall|j: int| 0 <= j < k - 1 implies (#[trigger] rest[j]).id != rest[k - 1].id by {
            assert(rest[j] == states[j + 1]);
        }
        first_of_id(rest, k - 1);
    }
}

/// A frame pair blends a robot from its pose in the earlier frame to its pose
/// in the later one, as the newest frame knows it: `root` is where the newest
/// frame first has the robot, `b` where the earlier and `a` where the later
/// frame first has it in that life. The blend is as far along as time has gone
/// since the earlier frame.
pub proof fn a_pair_blends_from_the_earlier_to_the_later(
    before_ns: u64,
    before: Seq<ChassisState>,
    after_ns: u64,
    after: Seq<ChassisState>,
    latest: Seq<ChassisState>,
    root: int,
    b: int,
    a: int,
    time_ns: u64,
)
    requires
        before_ns <= time_ns <= after_ns,
        0 <= root < latest.len(),
        forall|j: int| 0 <= j < root ==> (#[trigger] latest[j]).id != latest[root].id,
        first_alike(before, b, latest[root]),
        first_alike(after, a, latest[root]),
    ensures
        match shown(before_ns, before, after_ns, after, latest, latest[root].id, time_ns) {
            Some(Blend::Mix { from, to, part, whole }) => {
                &&& from == before[b]
                &&& to == after[a]
                &&& before_ns + part == time_ns
                &&& before_ns + whole == after_ns
            },
            _ => false,
        },
{
    let life = latest[root];
    first_of_id(latest, root);
    first_of_life(before, life);
    first_of_life(after, life);
    assert(before[b] == (ChassisState { body: before[b].body, ..life }));
    assert(after[a] == (ChassisState { body: after[a].body, ..life }));
    let x = of_life(before, life)->0;
    let i = choose|k: int| #[trigger] first_alike(before, k, life) && before[k] == x;
    first_alike_once(before, i, b, life);
    let y = of_life(after, life)->0;
    let k = choose|k: int| #[trigger] first_alike(after, k, life) && after[k] == y;
    first_alike_once(after, k, a, life);
}

/// Time between two frames moves a robot forward evenly: at the earlier frame
/// nothing of the way is gone, at the later one all of it, and between two
/// moments as much as time has passed. Which poses are blended does not change.
pub proof fn a_blend_keeps_pace_with_time(
    before_ns: u64,
    before: Seq<ChassisState>,
    after_ns: u64,
    after: Seq<ChassisState>,
    latest: Seq<ChassisState>,
    id: u32,
    sooner_ns: u64,
    later_ns: u64,
)
    requires
        before_ns <= sooner_ns <= later_ns <= after_ns,
    ensures
        match (
            shown(before_ns, before, after_ns, after, latest, id, sooner_ns),
            shown(before_ns, before, after_ns, after, latest, id, later_ns),
        ) {
            (
                Some(Blend::Mix { from, to, part, whole }),
                Some(Blend::Mix { from: still_from, to: still_to, part: more, whole: all }),
            ) => {
                &&& from == still_from
                &&& to == still_to
                &&& whole == all
                &&& part <= more <= whole
                &&& more - part == later_ns - sooner_ns
                &&& sooner_ns == before_ns ==> part == 0
                &&& later_ns == after_ns ==> more == whole
                &&& whole == after_ns - before_ns
            },
            (Some(Blend::Hold(state)), Some(Blend::Hold(same))) => state == same,
            (None, None) => true,
            _ => false,
        },
{
}

/// A robot that the earlier frame does not have in its life holds its pose: the
/// later frame's, or the newest where the later frame has none.
pub proof fn a_fresh_life_holds_its_pose(
    before_ns: u64,
    before: Seq<ChassisState>,
    after_ns: u64,
    after: Seq<ChassisState>,
    latest: Seq<ChassisState>,
    root: int,
    time_ns: u64,
)
    requires
        0 <= root < latest.len(),
        forall|j: int| 0 <= j < root ==> (#[trigger] latest[j]).id != latest[root].id,
        forall|k: int|
            0 <= k < before.len() ==> #[trigger] before[k] != (ChassisState {
                body: before[k].body,
                ..latest[root]
            }),
    ensures
        match shown(before_ns, before, after_ns, after, latest, latest[root].id, time_ns) {
            Some(Blend::Hold(state)) => {
                &&& forall|a: int| #[trigger]
                    first_alike(after, a, latest[root]) ==> state == after[a]
                &&& (forall|k: int|
                    0 <= k < after.len() ==> #[trigger] after[k] != (ChassisState {
                        body: after[k].body,
                        ..latest[root]
                    })) ==> state == latest[root]
            },
            _ => false,
        },
{
    let life = latest[root];
    first_of_id(latest, root);
    first_of_life(before, life);
    first_of_life(after, life);
    match of_life(after, life) {
        Some(y) => {
            let i = choose|k: int| #[trigger] first_alike(after, k, life) && after[k] == y;
            assert forall|a: int| #[trigger] first_alike(after, a, life) implies y == after[a] by {
                first_alike_once(after, i, a, life);
            }
            assert(after[i] == (ChassisState { body: after[i].body, ..life }));
        },
        None => {
            assert forall|a: int| #[trigger] first_alike(after, a, life) implies false by {
                assert(after[a] == (ChassisState { body: after[a].body, ..life }));
            }
        },
    }
}

/// The frame of an id that no other frame has.
proof fn frame_by_its_id(frames: Seq<FrameModel>, k: int)
    requires
        0 <= k < frames.len(),
        forall|i: int, j: int|
            0 <= i < j < frames.len() ==> (#[trigger] frames[i]).id != (#[trigger] frames[j]).id,
    ensures
        frame_of_id(frames, frames[k].id) == frames[k],
    decreases frames.len(),
{
    if k > 0 {
        let rest = frames.subrange(1, frames.len() as int);
        assert(frames[0].id != frames[k].id);
        assert forall|i: int, j: int| 0 <= i < j < rest.len() implies (#[trigger] rest[i]).id != (
        #[trigger] rest[j]).id by {
            assert(rest[i] == frames[i + 1]);
            assert(rest[j] == frames[j + 1]);
        }
        frame_by_its_id(rest, k - 1);
    }
}

/// The last frame by a time that falls on or after one frame and before the
/// next.
proof fn last_frame_by(history: HistoryModel, k: int, n: nat, t: u64)
    requires
        history.wf(),
        0 <= k < n <= history.frames.len(),
        history.frames[k].time_ns <= t,
        k + 1 < n ==> t < history.frames[k + 1].time_ns,
    ensures
        history.last_by(t, n) == history.frames[k],
    decreases n,
{
    if k + 1 < n {
        if k + 2 < n {
            assert(history.frames[k + 1].time_ns < history.frames[n - 1].time_ns);
        }
        last_frame_by(history, k, (n - 1) as nat, t);
    }
}

/// The first frame from a time that falls after one frame and on or before the
/// next.
proof fn first_frame_from(history: HistoryModel, k: int, n: nat, t: u64)
    requires
        history.wf(),
        n <= k < history.frames.len(),
        t <= history.frames[k].time_ns,
        n < k ==> history.frames[k - 1].time_ns < t,
    ensures
        history.first_from(t, n) == history.frames[k],
    decreases k - n,
{
    if n < k {
        if n < k - 1 {
            assert(history.frames[n as int].time_ns < history.frames[k - 1].time_ns);
        }
        first_frame_from(history, k, n + 1, t);
    }
}

/// Remote robots are shown between the two frames around a time: a robot that
/// frame `k` and the next both have in its life is shown between their two
/// poses, as far along as time has gone since frame `k`, and is not carried on.
pub proof fn samples_lie_between_the_frames_around_them(
    history: HistoryModel,
    k: int,
    root: int,
    b: int,
    a: int,
    time_ns: u64,
)
    requires
        history.wf(),
        forall|i: int, j: int|
            0 <= i < j < history.frames.len() ==> (#[trigger] history.frames[i]).id != (
            #[trigger] history.frames[j]).id,
        0 <= k < history.frames.len() - 1,
        history.frames[k].time_ns < time_ns < history.frames[k + 1].time_ns,
        ({
            let latest = history.frames[history.frames.len() - 1].states;
            &&& 0 <= root < latest.len()
            &&& forall|j: int| 0 <= j < root ==> (#[trigger] latest[j]).id != latest[root].id
            &&& first_alike(history.frames[k].states, b, latest[root])
            &&& first_alike(history.frames[k + 1].states, a, latest[root])
        }),
    ensures
        ({
            let latest = history.frames[history.frames.len() - 1].states;
            match history.sampled(latest[root].id, time_ns) {
                Some(
                    Sampled { blend: Blend::Mix { from, to, part, whole }, extrapolate_ns },
                ) => {
                    &&& from == history.frames[k].states[b]
                    &&& to == history.frames[k + 1].states[a]
                    &&& part == time_ns - history.frames[k].time_ns
                    &&& whole == history.frames[k + 1].time_ns - history.frames[k].time_ns
                    &&& extrapolate_ns == 0
                },
                _ => false,
            }
        }),
{
    let n = history.frames.len();
    let latest = history.frames[n - 1].states;
    if k > 0 {
        assert(history.frames[0].time_ns < history.frames[k].time_ns);
    }
    if k + 1 < n - 1 {
        assert(history.frames[k + 1].time_ns < history.frames[n - 1].time_ns);
    }
    assert(history.clamped(time_ns) == time_ns);
    last_frame_by(history, k, n, time_ns);
    first_frame_from(history, k + 1, 0, time_ns);
    frame_by_its_id(history.frames, k);
    frame_by_its_id(history.frames, k + 1);
    a_pair_blends_from_the_earlier_to_the_later(
        history.frames[k].time_ns,
        history.frames[k].states,
        history.frames[k + 1].time_ns,
        history.frames[k + 1].states,
        latest,
        root,
        b,
        a,
        time_ns,
    );
}

/// A missing update is bridged: past the newest frame a robot that stands, in a
/// running simulation, is carried on from its newest pose for as long as time
/// has gone since, up to a tenth of a second. While paused, and once defeated,
/// it is not.
pub proof fn a_missing_update_is_bridged(history: HistoryModel, root: int, time_ns: u64)
    requires
        history.wf(),
        forall|i: int, j: int|
            0 <= i < j < history.frames.len() ==> (#[trigger] history.frames[i]).id != (
            #[trigger] history.frames[j]).id,
        history.frames.len() > 0,
        history.frames[history.frames.len() - 1].time_ns <= time_ns,
        ({
            let latest = history.frames[history.frames.len() - 1].states;
            &&& 0 <= root < latest.len()
            &&& forall|j: int| 0 <= j < root ==> (#[trigger] latest[j]).id != latest[root].id
        }),
    ensures
        ({
            let newest = history.frames[history.frames.len() - 1];
            match history.sampled(newest.states[root].id, time_ns) {
                Some(Sampled { blend: Blend::Mix { from, to, part, whole }, extrapolate_ns }) => {
                    &&& from == newest.states[root]
                    &&& to == newest.states[root]
                    &&& part == 0
                    &&& whole == 0
                    &&& history.paused || newest.states[root].defeated ==> extrapolate_ns == 0
                    &&& !history.paused && !newest.states[root].defeated ==> {
                        &&& time_ns - newest.time_ns <= 100_000_000 ==> extrapolate_ns == time_ns
                            - newest.time_ns
                        &&& time_ns - newest.time_ns >= 100_000_000 ==> extrapolate_ns
                            == 100_000_000
                    }
                },
                _ => false,
            }
        }),
{
    let n = history.frames.len();
    let newest = history.frames[n - 1];
    let t = newest.time_ns;
    if n > 1 {
        assert(history.frames[0].time_ns < t);
        assert(history.frames[n - 2].time_ns < t);
    }
    assert(history.clamped(time_ns) == t);
    last_frame_by(history, n - 1, n, t);
    first_frame_from(history, n - 1, 0, t);
    frame_by_its_id(history.frames, n - 1);
    let life = newest.states[root];
    assert forall|j: int| 0 <= j < root implies #[trigger] newest.states[j] != (ChassisState {
        body: newest.states[j].body,
        ..life
    }) by {
        assert(newest.states[j].id != life.id);
    }
    assert(first_alike(newest.states, root, life));
    a_pair_blends_from_the_earlier_to_the_later(
        t,
        newest.states,
        t,
        newest.states,
        newest.states,
        root,
        root,
        root,
        t,
    );
}

/// A new frame goes behind the ones that came before it. Time that goes
/// backwards and a pause that begins or ends leave it alone in the window;
/// otherwise it replaces a frame of its own time, and beyond thirty-two frames
/// only the oldest leaves.
pub proof fn a_window_keeps_its_newest_frames(
    history: HistoryModel,
    frame: FrameModel,
    paused: bool,
)
    requires
        history.wf(),
    ensures
        ({
            let n = history.frames.len() as int;
            let after = history.pushed(frame, paused);
            let m = after.frames.len() as int;
            let newest_ns = history.frames[n - 1].time_ns;
            &&& after.paused == paused
            &&& m > 0 && after.frames[m - 1] == frame
            &&& n == 0 || paused != history.paused || frame.time_ns < newest_ns ==> m == 1
            &&& n > 0 && paused == history.paused && frame.time_ns == newest_ns ==> {
                &&& m == n
                &&& forall|i: int|
                    0 <= i < n - 1 ==> (#[trigger] after.frames[i]).time_ns
                        == history.frames[i].time_ns && after.frames[i].id == history.frames[i].id
            }
            &&& n > 0 && paused == history.paused && newest_ns < frame.time_ns ==> {
                &&& m == (if n < 32 {
                    n + 1
                } else {
                    32
                })
                &&& forall|i: int|
                    0 <= i < m - 1 ==> (#[trigger] after.frames[i]).time_ns == history.frames[n - m
                        + 1 + i].time_ns && after.frames[i].id == history.frames[n - m + 1 + i].id
            }
        }),
{
    pushing_keeps_wf(history, frame, paused);
}

/// What a filter keeps and what it drops.
proof fn living_keeps(states: Seq<ChassisState>, newest: Seq<ChassisState>, s: ChassisState)
    ensures
        living(states, newest).contains(s) <==> states.contains(s) && lives_on(newest, s),
    decreases states.len(),
{
    reveal(Seq::filter);
    if states.len() > 0 {
        let rest = states.drop_last();
        let last = states.last();
        living_keeps(rest, newest, s);
        assert(states =~= rest.push(last));
        if states.contains(s) && s != last {
            let i = choose|i: int| 0 <= i < states.len() && states[i] == s;
            assert(rest[i] == s);
        }
        if rest.contains(s) {
            let i = choose|i: int| 0 <= i < rest.len() && rest[i] == s;
            assert(states[i] == s);
        }
        let kept = living(rest, newest);
        if lives_on(newest, last) {
            assert(living(states, newest) == kept.push(last));
            assert(kept.push(last)[kept.len() as int] == last);
            if kept.contains(s) {
                let i = choose|i: int| 0 <= i < kept.len() && kept[i] == s;
                assert(kept.push(last)[i] == s);
            }
            if kept.push(last).contains(s) && s != last {
                let i = choose|i: int| 0 <= i < kept.push(last).len() && kept.push(last)[i] == s;
                assert(kept[i] == s);
            }
        }
        assert(states.contains(last)) by {
            assert(states[states.len() - 1] == last);
        }
    }
}

/// A life that ends leaves every frame, and no other does: of an older frame
/// exactly those states stay that the new frame goes on with, but for the body.
pub proof fn only_lives_that_go_on_are_remembered(
    history: HistoryModel,
    frame: FrameModel,
    paused: bool,
    k: int,
    i: int,
    state: ChassisState,
)
    requires
        history.wf(),
        0 <= i < history.frames.len(),
        0 <= k < history.pushed(frame, paused).frames.len() - 1,
        history.pushed(frame, paused).frames[k].time_ns == history.frames[i].time_ns,
    ensures
        history.pushed(frame, paused).frames[k].states.contains(state) <==> {
            &&& history.frames[i].states.contains(state)
            &&& exists|j: int|
                0 <= j < frame.states.len() && #[trigger] frame.states[j] == (ChassisState {
                    body: frame.states[j].body,
                    ..state
                })
        },
{
    let after = history.pushed(frame, paused);
    let m = after.frames.len() as int;
    a_window_keeps_its_newest_frames(history, frame, paused);
    let pruned = history.pruned(frame.states);
    let others = if pruned.last().time_ns == frame.time_ns {
        pruned.drop_last()
    } else {
        pruned
    };
    let at = if others.len() == CAPACITY {
        k + 1
    } else {
        k
    };
    assert(after.frames[k] == pruned[at]);
    if at < i {
        assert(history.frames[at].time_ns < history.frames[i].time_ns);
    } else if i < at {
        assert(history.frames[i].time_ns < history.frames[at].time_ns);
    }
    living_keeps(history.frames[i].states, frame.states, state);
    if lives_on(frame.states, state) {
        let j = choose|j: int|
            0 <= j < frame.states.len() && (#[trigger] frame.states[j]).same_life(state);
        assert(frame.states[j] == (ChassisState { body: frame.states[j].body, ..state }));
    }
    if exists|j: int|
        0 <= j < frame.states.len() && #[trigger] frame.states[j] == (ChassisState {
            body: frame.states[j].body,
            ..state
        }) {
        let j = choose|j: int|
            0 <= j < frame.states.len() && #[trigger] frame.states[j] == (ChassisState {
                body: frame.states[j].body,
                ..state
            });
        assert(frame.states[j].same_life(state));
    }
}

/// What is shown of others lags 64 milliseconds behind, less than what the
/// window bridges when an update is missing.
pub proof fn the_view_lags_behind()
    ensures
        DELAY_NS == 64 * 1_000_000,
        DELAY_NS < EXTRAPOLATION_NS,
{
}

} // verus!
