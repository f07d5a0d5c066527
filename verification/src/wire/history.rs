//! Which recent input samples ride in one batch.
use super::inputs::{all_inputs, pilot_input};
use crate::binary::{at_most, exceeds, magnitude, nan, INFINITY, SIGN};
use crate::input::{ChassisCommand, InputFrame};
use crate::simulation::command::Command;
use vstd::prelude::*;

verus! {

/// How long a sample stays useful to the host.
pub const INPUT_LEASE_NS: u64 = 250_000_000;

/// The newest samples that always ride along.
pub const NEWEST: usize = 4;

/// The pattern of 0.1, the least speed that counts as movement.
pub const MOVEMENT: u64 = 0x3fb9_9999_9999_999a;

/// Which way a number points: 0 below 0.1 in size, otherwise its sign. What is
/// not a number counts as backwards.
pub open spec fn heading(bits: u64) -> int {
    if magnitude(bits) < MOVEMENT {
        0
    } else if bits < SIGN && !nan(bits) {
        1
    } else {
        -1
    }
}

/// Which way a number points.
fn direction(bits: u64) -> (r: i8)
    ensures
        r == heading(bits),
{
    let size: u64 = bits % SIGN;
    if size < MOVEMENT {
        0
    } else if bits < SIGN && size <= INFINITY {
        1
    } else {
        -1
    }
}

/// Two drive commands press the same directions.
pub open spec fn same_movement(a: ChassisCommand, b: ChassisCommand) -> bool {
    &&& heading(a.forward_m_s) == heading(b.forward_m_s)
    &&& heading(a.left_m_s) == heading(b.left_m_s)
    &&& heading(a.yaw_rate_rad_s) == heading(b.yaw_rate_rad_s)
}

/// Whether two drive commands press the same directions. Body-relative
/// commands drift as the chassis turns; steering corrections do not count.
fn moves_alike(a: &ChassisCommand, b: &ChassisCommand) -> (r: bool)
    ensures
        r == same_movement(*a, *b),
{
    direction(a.forward_m_s) == direction(b.forward_m_s) && direction(a.left_m_s) == direction(
        b.left_m_s,
    ) && direction(a.yaw_rate_rad_s) == direction(b.yaw_rate_rad_s)
}

/// A sample still useful beside the newest: of the same chassis, pause epoch
/// and placement, and no older than the lease.
pub open spec fn still_useful(command: Command, chassis: u32, newest: InputFrame) -> bool {
    match pilot_input(command) {
        Some(input) => {
            &&& input.chassis == chassis
            &&& input.frame.input_epoch == newest.input_epoch
            &&& input.frame.placement_revision == newest.placement_revision
            &&& newest.sampled_time_ns - input.frame.sampled_time_ns <= INPUT_LEASE_NS
        },
        None => false,
    }
}

/// The useful samples of a history, in its order.
pub open spec fn useful(history: Seq<Command>, chassis: u32, newest: InputFrame) -> Seq<Command>
    decreases history.len(),
{
    if history.len() == 0 {
        Seq::empty()
    } else {
        let head = useful(history.drop_last(), chassis, newest);
        if still_useful(history.last(), chassis, newest) {
            head.push(history.last())
        } else {
            head
        }
    }
}

/// The sample at a place presses other directions than the one before it.
pub open spec fn turns_at(samples: Seq<Command>, i: int) -> bool {
    !same_movement(
        pilot_input(samples[i])->0.frame.command,
        pilot_input(samples[i - 1])->0.frame.command,
    )
}

/// The newest `room` movement transitions among the samples before `end`, in
/// their order.
pub open spec fn transitions(samples: Seq<Command>, end: int, room: nat) -> Seq<Command>
    decreases end,
{
    if end <= 1 || room == 0 {
        Seq::empty()
    } else if turns_at(samples, end - 1) {
        transitions(samples, end - 1, (room - 1) as nat).push(samples[end - 1])
    } else {
        transitions(samples, end - 1, room)
    }
}

/// The place of the first of the newest samples.
pub open spec fn newest_from(n: nat) -> nat {
    if n > NEWEST {
        (n - NEWEST) as nat
    } else {
        0
    }
}

/// The samples that ride in a batch of about `limit`: older movement
/// transitions, then the newest four.
pub open spec fn selected(history: Seq<Command>, limit: nat) -> Seq<Command> {
    if history.len() == 0 {
        Seq::empty()
    } else {
        match pilot_input(history.last()) {
            None => Seq::empty(),
            Some(newest) => {
                let samples = useful(history, newest.chassis, newest.frame);
                let from = newest_from(samples.len());
                let taken = samples.len() - from;
                let room = if limit > taken {
                    (limit - taken) as nat
                } else {
                    0
                };
                transitions(samples, from as int, room) + samples.subrange(
                    from as int,
                    samples.len() as int,
                )
            },
        }
    }
}

/// Every useful sample is useful.
proof fn useful_holds(history: Seq<Command>, chassis: u32, newest: InputFrame)
    ensures
        useful(history, chassis, newest).len() <= history.len(),
        forall|i: int|
            0 <= i < useful(history, chassis, newest).len() ==> still_useful(
                #[trigger] useful(history, chassis, newest)[i],
                chassis,
                newest,
            ),
    decreases history.len(),
{
    if history.len() > 0 {
        useful_holds(history.drop_last(), chassis, newest);
    }
}

/// Transitions are samples, and no more than there is room for.
proof fn transitions_hold(samples: Seq<Command>, end: int, room: nat)
    requires
        end <= samples.len(),
    ensures
        transitions(samples, end, room).len() <= room,
        forall|k: int|
            0 <= k < transitions(samples, end, room).len() ==> samples.contains(
                #[trigger] transitions(samples, end, room)[k],
            ),
    decreases end,
{
    if end > 1 && room > 0 {
        if turns_at(samples, end - 1) {
            transitions_hold(samples, end - 1, (room - 1) as nat);
            assert(samples.contains(samples[end - 1]));
        } else {
            transitions_hold(samples, end - 1, room);
        }
    }
}

/// The newest sample of a history that ends in one rides last. All others are
/// samples of the same chassis, pause epoch and placement within the lease,
/// and beyond the newest four they are no more than the limit leaves room for.
/// So a limit of at most a batch's frames always gives a batch that can be
/// sent.
pub proof fn selection_fits_a_batch(history: Seq<Command>, limit: nat)
    requires
        history.len() > 0,
        pilot_input(history.last()) is Some,
    ensures
        selected(history, limit).len() > 0,
        selected(history, limit).last() == history.last(),
        all_inputs(selected(history, limit)),
        selected(history, limit).len() <= limit || selected(history, limit).len() <= NEWEST,
        forall|i: int|
            0 <= i < selected(history, limit).len() ==> still_useful(
                #[trigger] selected(history, limit)[i],
                pilot_input(history.last())->0.chassis,
                pilot_input(history.last())->0.frame,
            ),
{
    let newest = pilot_input(history.last())->0;
    let samples = useful(history, newest.chassis, newest.frame);
    useful_holds(history, newest.chassis, newest.frame);
    assert(still_useful(history.last(), newest.chassis, newest.frame));
    assert(samples.last() == history.last());
    let from = newest_from(samples.len());
    let taken = samples.len() - from;
    let room = if limit > taken {
        (limit - taken) as nat
    } else {
        0
    };
    transitions_hold(samples, from as int, room);
    let older = transitions(samples, from as int, room);
    let tail = samples.subrange(from as int, samples.len() as int);
    assert(selected(history, limit) == older + tail);
    assert forall|i: int| 0 <= i < (older + tail).len() implies still_useful(
        #[trigger] (older + tail)[i],
        newest.chassis,
        newest.frame,
    ) by {
        if i < older.len() {
            assert((older + tail)[i] == older[i]);
            let k = choose|k: int| 0 <= k < samples.len() && samples[k] == older[i];
            assert(still_useful(samples[k], newest.chassis, newest.frame));
        } else {
            assert((older + tail)[i] == samples[i - older.len() + from]);
        }
    }
    assert forall|i: int| 0 <= i < selected(history, limit).len() implies pilot_input(
        #[trigger] selected(history, limit)[i],
    ) is Some by {
        assert(still_useful(selected(history, limit)[i], newest.chassis, newest.frame));
    }
    assert((older + tail).last() == tail.last());
}

/// Transitions found so far, newest first, complete the older ones.
proof fn transitions_step(samples: Seq<Command>, end: int, room: nat, found: Seq<Command>)
    requires
        1 < end <= samples.len(),
        room > 0,
    ensures
        transitions(samples, end, room) + found.reverse() == if turns_at(samples, end - 1) {
            transitions(samples, end - 1, (room - 1) as nat) + found.push(
                samples[end - 1],
            ).reverse()
        } else {
            transitions(samples, end - 1, room) + found.reverse()
        },
{
    if turns_at(samples, end - 1) {
        assert(transitions(samples, end, room) + found.reverse() =~= transitions(
            samples,
            end - 1,
            (room - 1) as nat,
        ) + found.push(samples[end - 1]).reverse());
    }
}

/// The useful samples of a history.
fn collect_useful(history: &Vec<Command>, chassis: u32, newest: &InputFrame) -> (r: Vec<Command>)
    ensures
        r@ == useful(history@, chassis, *newest),
{
    let mut samples: Vec<Command> = Vec::new();
    let mut i: usize = 0;
    proof {
        assert(samples@ =~= useful(history@.subrange(0, 0), chassis, *newest));
    }
    while i < history.len()
        invariant
            i <= history@.len(),
            samples@ == useful(history@.subrange(0, i as int), chassis, *newest),
        decreases history@.len() - i,
    {
        proof {
            let seen = history@.subrange(0, i + 1);
            assert(seen.drop_last() =~= history@.subrange(0, i as int));
            assert(seen.last() == history@[i as int]);
        }
        if let Command::PilotInput { chassis: id, frame } = history[i] {
            if id == chassis && frame.input_epoch == newest.input_epoch
                && frame.placement_revision == newest.placement_revision
                && newest.sampled_time_ns.saturating_sub(frame.sampled_time_ns) <= INPUT_LEASE_NS {
                samples.push(history[i]);
            }
        }
        i += 1;
    }
    proof {
        assert(history@.subrange(0, i as int) =~= history@);
    }
    samples
}

/// The drive of a sample.
fn drive_of(command: &Command) -> (r: ChassisCommand)
    requires
        pilot_input(*command) is Some,
    ensures
        r == pilot_input(*command)->0.frame.command,
{
    match command {
        Command::PilotInput { frame, .. } => frame.command,
        _ => ChassisCommand::default(),
    }
}

/// Keep the newest four samples plus older movement transitions, up to
/// `limit`, within the host's useful-input window.
pub fn select_inputs(history: &Vec<Command>, limit: usize) -> (r: Vec<Command>)
    ensures
        r@ == selected(history@, limit as nat),
{
    let n: usize = history.len();
    if n == 0 {
        return Vec::new();
    }
    let Command::PilotInput { chassis, frame: newest } = history[n - 1] else {
        return Vec::new();
    };
    let samples = collect_useful(history, chassis, &newest);
    proof {
        useful_holds(history@, chassis, newest);
    }
    let from: usize = samples.len().saturating_sub(NEWEST);
    let mut room: usize = limit.saturating_sub(samples.len() - from);
    let mut found: Vec<Command> = Vec::new();
    let mut end: usize = from;
    let ghost older = transitions(samples@, from as int, room as nat);
    proof {
        assert(older + found@.reverse() =~= older);
    }
    while end > 1 && room > 0
        invariant
            end <= from <= samples@.len(),
            older == transitions(samples@, end as int, room as nat) + found@.reverse(),
            forall|i: int|
                0 <= i < samples@.len() ==> still_useful(#[trigger] samples@[i], chassis, newest),
        decreases end,
    {
        proof {
            transitions_step(samples@, end as int, room as nat, found@);
            assert(still_useful(samples@[end - 1], chassis, newest));
            assert(still_useful(samples@[end - 2], chassis, newest));
        }
        let at: usize = end - 1;
        if !moves_alike(&drive_of(&samples[at]), &drive_of(&samples[at - 1])) {
            found.push(samples[at]);
            room -= 1;
        }
        end = at;
    }
    proof {
        assert(older =~= found@.reverse());
    }
    let mut chosen: Vec<Command> = Vec::new();
    let mut k: usize = found.len();
    while k > 0
        invariant
            k <= found@.len(),
            chosen@ == found@.reverse().subrange(0, found@.len() - k),
        decreases k,
    {
        k -= 1;
        chosen.push(found[k]);
        proof {
            assert(chosen@ =~= found@.reverse().subrange(0, found@.len() - k));
        }
    }
    let mut j: usize = from;
    proof {
        assert(chosen@ =~= older + samples@.subrange(from as int, from as int));
    }
    while j < samples.len()
        invariant
            from <= j <= samples@.len(),
            chosen@ == older + samples@.subrange(from as int, j as int),
        decreases samples@.len() - j,
    {
        chosen.push(samples[j]);
        j += 1;
        proof {
            assert(chosen@ =~= older + samples@.subrange(from as int, j as int));
        }
    }
    chosen
}

/// Which way a control is pressed: forward from the number 0.1 on, not at all
/// between that and its negative, and backwards otherwise.
pub open spec fn pressed(bits: u64) -> int {
    if at_most(0x3fb9_9999_9999_999a, bits) {
        1
    } else if exceeds(bits, 0xbfb9_9999_9999_999a) {
        0
    } else {
        -1
    }
}

/// A key went down or up between two samples: forward, sideways or turning, each
/// counts alone.
pub open spec fn key_changed(earlier: Command, later: Command) -> bool {
    let a = earlier->PilotInput_frame.command;
    let b = later->PilotInput_frame.command;
    ||| pressed(a.forward_m_s) != pressed(b.forward_m_s)
    ||| pressed(a.left_m_s) != pressed(b.left_m_s)
    ||| pressed(a.yaw_rate_rad_s) != pressed(b.yaw_rate_rad_s)
}

/// A command is a sample of the same chassis, epoch and placement as another,
/// and no more than a quarter of a second older.
pub open spec fn goes_with(command: Command, newest: Command) -> bool {
    &&& command is PilotInput
    &&& newest is PilotInput
    &&& command->PilotInput_chassis == newest->PilotInput_chassis
    &&& command->PilotInput_frame.input_epoch == newest->PilotInput_frame.input_epoch
    &&& command->PilotInput_frame.placement_revision
        == newest->PilotInput_frame.placement_revision
    &&& newest->PilotInput_frame.sampled_time_ns - command->PilotInput_frame.sampled_time_ns
        <= 250_000_000
}

/// The samples of a history that go with another, in their order.
pub open spec fn going_with(history: Seq<Command>, newest: Command) -> Seq<Command> {
    history.filter(|c: Command| goes_with(c, newest))
}

/// Places of older samples that ride along: in order, each where a key changed,
/// no more than there is room for, and none left out but the oldest for want of
/// room.
pub open spec fn ride_along(samples: Seq<Command>, places: Seq<int>, end: int, room: int) -> bool {
    &&& places.len() <= room
    &&& forall|i: int, j: int|
        0 <= i < j < places.len() ==> #[trigger] places[i] < #[trigger] places[j]
    &&& forall|k: int|
        0 <= k < places.len() ==> 1 <= #[trigger] places[k] < end && key_changed(
            samples[places[k] - 1],
            samples[places[k]],
        )
    &&& forall|i: int|
        1 <= i < end && #[trigger] key_changed(samples[i - 1], samples[i]) ==> places.contains(i)
            || places.len() == room && forall|k: int| 0 <= k < places.len() ==> i < #[trigger]
            places[k]
}

/// The samples at places.
pub open spec fn at_places(samples: Seq<Command>, places: Seq<int>) -> Seq<Command> {
    Seq::new(places.len(), |k: int| samples[places[k]])
}

/// A batch is the samples from a place on, and before them those that ride along
/// in the room there is.
pub open spec fn fills(batch: Seq<Command>, samples: Seq<Command>, from: int, room: int) -> bool {
    exists|places: Seq<int>|
        {
            &&& #[trigger] ride_along(samples, places, from, room)
            &&& batch == at_places(samples, places) + samples.subrange(
                from,
                samples.len() as int,
            )
        }
}

/// Where the newest transitions stand.
spec fn places_of(samples: Seq<Command>, end: int, room: nat) -> Seq<int>
    decreases end,
{
    if end <= 1 || room == 0 {
        Seq::empty()
    } else if key_changed(samples[end - 2], samples[end - 1]) {
        places_of(samples, end - 1, (room - 1) as nat).push(end - 1)
    } else {
        places_of(samples, end - 1, room)
    }
}

/// The newest transitions are the samples at their places.
proof fn transitions_ride_along(samples: Seq<Command>, end: int, room: nat)
    requires
        end <= samples.len(),
        forall|i: int| 0 <= i < samples.len() ==> #[trigger] samples[i] is PilotInput,
    ensures
        ride_along(samples, places_of(samples, end, room), end, room as int),
        transitions(samples, end, room) == at_places(samples, places_of(samples, end, room)),
    decreases end,
{
    let places = places_of(samples, end, room);
    let found = transitions(samples, end, room);
    if end <= 1 || room == 0 {
        assert(found =~= at_places(samples, places));
    } else {
        let a = pilot_input(samples[end - 1])->0.frame.command;
        let b = pilot_input(samples[end - 2])->0.frame.command;
        assert(samples[end - 1] is PilotInput && samples[end - 2] is PilotInput);
        headings_are_pressed(a.forward_m_s);
        headings_are_pressed(a.left_m_s);
        headings_are_pressed(a.yaw_rate_rad_s);
        headings_are_pressed(b.forward_m_s);
        headings_are_pressed(b.left_m_s);
        headings_are_pressed(b.yaw_rate_rad_s);
        assert(turns_at(samples, end - 1) == key_changed(samples[end - 2], samples[end - 1]));
        if key_changed(samples[end - 2], samples[end - 1]) {
            let before = places_of(samples, end - 1, (room - 1) as nat);
            transitions_ride_along(samples, end - 1, (room - 1) as nat);
            assert(found =~= at_places(samples, places));
            assert(places == before.push(end - 1));
            assert(places.contains(end - 1)) by {
                assert(places[places.len() - 1] == end - 1);
            }
            assert forall|i: int|
                1 <= i < end && #[trigger] key_changed(
                    samples[i - 1],
                    samples[i],
                ) implies places.contains(i) || places.len() == room && forall|k: int|
                0 <= k < places.len() ==> i < #[trigger] places[k] by {
                if i < end - 1 && before.contains(i) {
                    let k = choose|k: int| 0 <= k < before.len() && before[k] == i;
                    assert(places[k] == i);
                }
            }
        } else {
            transitions_ride_along(samples, end - 1, room);
            assert(found =~= at_places(samples, places));
        }
    }
}

/// The direction of a control is which way it is pressed.
proof fn headings_are_pressed(bits: u64)
    ensures
        heading(bits) == pressed(bits),
{
}

/// The useful samples are those that go with the newest, in their order.
proof fn useful_go_with_the_newest(history: Seq<Command>, newest: Command)
    requires
        newest is PilotInput,
    ensures
        useful(history, newest->PilotInput_chassis, newest->PilotInput_frame) == going_with(
            history,
            newest,
        ),
    decreases history.len(),
{
    reveal(Seq::filter);
    if history.len() > 0 {
        useful_go_with_the_newest(history.drop_last(), newest);
    } else {
        assert(useful(history, newest->PilotInput_chassis, newest->PilotInput_frame)
            =~= going_with(history, newest));
    }
}

/// What rides in a batch: of the samples that go with the newest, the last four,
/// and before them, as far as the limit leaves room, the newest of those at
/// which a key went down or up, in the order in which they were taken. So a lost
/// datagram loses no key press or release that a later one still has room for.
pub proof fn key_changes_ride_along(history: Seq<Command>, limit: nat)
    requires
        history.len() > 0,
        history[history.len() - 1] is PilotInput,
    ensures
        ({
            let newest = history[history.len() - 1];
            let samples = going_with(history, newest);
            let n = samples.len() as int;
            let from = if n > 4 {
                n - 4
            } else {
                0
            };
            let room = if limit > n - from {
                limit - (n - from)
            } else {
                0
            };
            fills(selected(history, limit), samples, from, room)
        }),
{
    let newest = history[history.len() - 1];
    let chassis = newest->PilotInput_chassis;
    let frame = newest->PilotInput_frame;
    assert(history.last() == newest);
    useful_go_with_the_newest(history, newest);
    useful_holds(history, chassis, frame);
    let samples = going_with(history, newest);
    let n = samples.len() as int;
    let from = if n > 4 {
        n - 4
    } else {
        0
    };
    let room = if limit > n - from {
        limit - (n - from)
    } else {
        0
    };
    assert(from == newest_from(samples.len()));
    assert forall|i: int| 0 <= i < samples.len() implies #[trigger] samples[i] is PilotInput by {
        assert(still_useful(useful(history, chassis, frame)[i], chassis, frame));
    }
    transitions_ride_along(samples, from, room as nat);
    let places = places_of(samples, from, room as nat);
    assert(ride_along(samples, places, from, room));
    assert(selected(history, limit) =~= at_places(samples, places) + samples.subrange(from, n));
}

/// Without a newest sample nothing rides.
pub proof fn without_a_sample_nothing_rides(history: Seq<Command>, limit: nat)
    requires
        history.len() == 0 || !(history[history.len() - 1] is PilotInput),
    ensures
        selected(history, limit).len() == 0,
{
}

} // verus!
