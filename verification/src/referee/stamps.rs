//! The referee's absolute timestamps, for a codec that rewrites them.
use super::machine::Referee;
use super::model::{MatchState, RefereeModel, Side, TeamState};
use super::{BuffState, StampClock, TimedEvent};
use vstd::prelude::*;

verus! {

/// A stamp that may be missing.
pub open spec fn maybe(stamp: Option<u64>) -> Seq<u64> {
    match stamp {
        Some(at) => seq![at],
        None => Seq::empty(),
    }
}

/// The field times of events.
pub open spec fn field_times(events: Seq<TimedEvent>) -> Seq<u64> {
    events.map_values(|e: TimedEvent| e.time_ns)
}

/// The round times of those events that have one.
pub open spec fn round_times(events: Seq<TimedEvent>) -> Seq<u64>
    decreases events.len(),
{
    if events.len() == 0 {
        Seq::empty()
    } else {
        round_times(events.drop_last()) + maybe(events.last().match_time_ns)
    }
}

/// The round stamps of a team: its attempt's start, its buff's start and end.
pub open spec fn team_stamps(team: TeamState) -> Seq<u64> {
    maybe(team.activating_since_ns) + match team.buff {
        Some(buff) => seq![buff.started_ns, buff.expires_ns],
        None => Seq::empty(),
    }
}

impl RefereeModel {
    /// Every absolute timestamp on a clock, in a fixed order. On the field
    /// clock: the referee's time, the phase start, the round start, when each
    /// base and the dart targets set off, then each event's time. On the round
    /// clock: per team the activation start and the buff's start and end, then
    /// each event's round time.
    pub open spec fn stamps(self, clock: StampClock) -> Seq<u64> {
        let s = self.state;
        match clock {
            StampClock::Field => seq![s.now_ns, s.phase_started_ns, s.match_started_ns] + maybe(
                s.red.base_moved_ns,
            ) + maybe(s.blue.base_moved_ns) + maybe(s.dart_target_since_ns) + field_times(
                self.events,
            ),
            StampClock::Round => team_stamps(s.red.team) + team_stamps(s.blue.team) + round_times(
                self.events,
            ),
        }
    }

    /// Another referee that differs in nothing but the values of stamps on a
    /// clock: the same stamps are there.
    pub open spec fn same_but_stamps(self, other: RefereeModel, clock: StampClock) -> bool {
        let a = self.state;
        let b = other.state;
        &&& other == (RefereeModel { state: b, events: other.events, ..self })
        &&& self.events.len() == other.events.len()
        &&& match clock {
            StampClock::Field => {
                &&& b == (MatchState {
                    now_ns: b.now_ns,
                    phase_started_ns: b.phase_started_ns,
                    match_started_ns: b.match_started_ns,
                    red: Side { base_moved_ns: b.red.base_moved_ns, ..a.red },
                    blue: Side { base_moved_ns: b.blue.base_moved_ns, ..a.blue },
                    dart_target_since_ns: b.dart_target_since_ns,
                    ..a
                })
                &&& b.red.base_moved_ns is Some <==> a.red.base_moved_ns is Some
                &&& b.blue.base_moved_ns is Some <==> a.blue.base_moved_ns is Some
                &&& b.dart_target_since_ns is Some <==> a.dart_target_since_ns is Some
                &&& forall|i: int|
                    0 <= i < self.events.len() ==> #[trigger] other.events[i] == (TimedEvent {
                        time_ns: other.events[i].time_ns,
                        ..self.events[i]
                    })
            },
            StampClock::Round => {
                &&& b == (MatchState {
                    red: Side { team: b.red.team, ..a.red },
                    blue: Side { team: b.blue.team, ..a.blue },
                    ..a
                })
                &&& same_team(a.red.team, b.red.team)
                &&& same_team(a.blue.team, b.blue.team)
                &&& forall|i: int|
                    0 <= i < self.events.len() ==> {
                        &&& #[trigger] other.events[i] == (TimedEvent {
                            match_time_ns: other.events[i].match_time_ns,
                            ..self.events[i]
                        })
                        &&& other.events[i].match_time_ns is Some
                            <==> self.events[i].match_time_ns is Some
                    }
            },
        }
    }
}

/// Teams that differ in nothing but the values of their round stamps.
pub open spec fn same_team(a: TeamState, b: TeamState) -> bool {
    &&& b == (TeamState { activating_since_ns: b.activating_since_ns, buff: b.buff, ..a })
    &&& b.activating_since_ns is Some <==> a.activating_since_ns is Some
    &&& match (a.buff, b.buff) {
        (None, None) => true,
        (Some(x), Some(y)) => y == (BuffState {
            started_ns: y.started_ns,
            expires_ns: y.expires_ns,
            ..x
        }),
        _ => false,
    }
}

/// Events whose round times are there alike have as many.
proof fn round_times_alike(a: Seq<TimedEvent>, b: Seq<TimedEvent>)
    requires
        a.len() == b.len(),
        forall|i: int|
            0 <= i < a.len() ==> ((#[trigger] b[i]).match_time_ns is Some
                <==> a[i].match_time_ns is Some),
    ensures
        round_times(a).len() == round_times(b).len(),
    decreases a.len(),
{
    if a.len() > 0 {
        assert(b[a.len() - 1].match_time_ns is Some <==> a[a.len() - 1].match_time_ns is Some);
        assert forall|i: int| 0 <= i < a.len() - 1 implies ((
        #[trigger] b.drop_last()[i]).match_time_ns is Some
            <==> a.drop_last()[i].match_time_ns is Some) by {
            assert(b[i].match_time_ns is Some <==> a[i].match_time_ns is Some);
        }
        round_times_alike(a.drop_last(), b.drop_last());
    }
}

/// The stamps determine the referee: two that differ in nothing but the values
/// of their stamps, and have the same stamps, are the same. So reading the
/// stamps of a referee, rewriting them and writing the first ones back gives
/// the referee again.
pub proof fn stamps_determine_the_referee(a: RefereeModel, b: RefereeModel, clock: StampClock)
    requires
        a.same_but_stamps(b, clock),
        a.stamps(clock) == b.stamps(clock),
    ensures
        a == b,
{
    match clock {
        StampClock::Field => field_determined(a, b),
        StampClock::Round => round_determined(a, b),
    }
}

/// The stamps on the field clock determine the referee.
proof fn field_determined(a: RefereeModel, b: RefereeModel)
    requires
        a.same_but_stamps(b, StampClock::Field),
        a.stamps(StampClock::Field) == b.stamps(StampClock::Field),
    ensures
        a == b,
{
    let clock = StampClock::Field;
    let p = a.state;
    let q = b.state;
    let head = 3int;
    let sa = a.stamps(clock);
    assert(sa[0] == p.now_ns && sa[1] == p.phase_started_ns && sa[2]
        == p.match_started_ns);
    let sb = b.stamps(clock);
    assert(sb[0] == q.now_ns && sb[1] == q.phase_started_ns && sb[2]
        == q.match_started_ns);
    let n1 = maybe(p.red.base_moved_ns).len() as int;
    let n2 = maybe(p.blue.base_moved_ns).len() as int;
    let n3 = maybe(p.dart_target_since_ns).len() as int;
    let tail = head + n1 + n2 + n3;
    assert(sa.subrange(head, head + n1) =~= maybe(p.red.base_moved_ns));
    assert(sb.subrange(head, head + n1) =~= maybe(q.red.base_moved_ns));
    stamp_determined(p.red.base_moved_ns, q.red.base_moved_ns);
    assert(sa.subrange(head + n1, head + n1 + n2) =~= maybe(p.blue.base_moved_ns));
    assert(sb.subrange(head + n1, head + n1 + n2) =~= maybe(q.blue.base_moved_ns));
    stamp_determined(p.blue.base_moved_ns, q.blue.base_moved_ns);
    assert(sa.subrange(head + n1 + n2, tail) =~= maybe(p.dart_target_since_ns));
    assert(sb.subrange(head + n1 + n2, tail) =~= maybe(q.dart_target_since_ns));
    stamp_determined(p.dart_target_since_ns, q.dart_target_since_ns);
    assert(sa.subrange(tail, sa.len() as int) =~= field_times(a.events));
    assert(sb.subrange(tail, sb.len() as int) =~= field_times(b.events));
    assert forall|i: int| 0 <= i < a.events.len() implies a.events[i]
        == #[trigger] b.events[i] by {
        assert(field_times(a.events)[i] == a.events[i].time_ns);
        assert(field_times(b.events)[i] == b.events[i].time_ns);
    }
    assert(a.events =~= b.events);
}

/// A stamp is determined by what it adds to the stamps.
proof fn stamp_determined(a: Option<u64>, b: Option<u64>)
    requires
        maybe(a) == maybe(b),
    ensures
        a == b,
{
    if a is Some {
        assert(maybe(a)[0] == a->0);
    }
    if b is Some {
        assert(maybe(b)[0] == b->0);
    }
}

/// The stamps on the round clock determine the referee.
proof fn round_determined(a: RefereeModel, b: RefereeModel)
    requires
        a.same_but_stamps(b, StampClock::Round),
        a.stamps(StampClock::Round) == b.stamps(StampClock::Round),
    ensures
        a == b,
{
    let clock = StampClock::Round;
    let p = a.state;
    let q = b.state;
    round_times_alike(a.events, b.events);
    let sa = a.stamps(clock);
    let sb = b.stamps(clock);
    let red = team_stamps(p.red.team).len() as int;
    let blue = team_stamps(p.blue.team).len() as int;
    assert(team_stamps(q.red.team).len() == red);
    assert(team_stamps(q.blue.team).len() == blue);
    assert(sa.subrange(0, red) =~= team_stamps(p.red.team));
    assert(sb.subrange(0, red) =~= team_stamps(q.red.team));
    assert(sa.subrange(red, red + blue) =~= team_stamps(p.blue.team));
    assert(sb.subrange(red, red + blue) =~= team_stamps(q.blue.team));
    assert(sa.subrange(red + blue, sa.len() as int) =~= round_times(a.events));
    assert(sb.subrange(red + blue, sb.len() as int) =~= round_times(b.events));
    team_determined(p.red.team, q.red.team);
    team_determined(p.blue.team, q.blue.team);
    events_determined(a.events, b.events);
}

/// A team's round stamps determine it.
proof fn team_determined(a: TeamState, b: TeamState)
    requires
        same_team(a, b),
        team_stamps(a) == team_stamps(b),
    ensures
        a == b,
{
    let sa = team_stamps(a);
    let sb = team_stamps(b);
    let n = maybe(a.activating_since_ns).len() as int;
    if a.activating_since_ns is Some {
        assert(sa[0] == a.activating_since_ns->0);
        assert(sb[0] == b.activating_since_ns->0);
    }
    if a.buff is Some {
        assert(sa[n] == a.buff->0.started_ns && sa[n + 1] == a.buff->0.expires_ns);
        assert(sb[n] == b.buff->0.started_ns && sb[n + 1] == b.buff->0.expires_ns);
    }
}

/// Events that differ in round times alone are determined by them.
proof fn events_determined(a: Seq<TimedEvent>, b: Seq<TimedEvent>)
    requires
        a.len() == b.len(),
        round_times(a) == round_times(b),
        forall|i: int|
            0 <= i < a.len() ==> {
                &&& #[trigger] b[i] == (TimedEvent { match_time_ns: b[i].match_time_ns, ..a[i] })
                &&& b[i].match_time_ns is Some <==> a[i].match_time_ns is Some
            },
    ensures
        a == b,
    decreases a.len(),
{
    if a.len() > 0 {
        let ra = round_times(a.drop_last());
        let rb = round_times(b.drop_last());
        assert(b[a.len() - 1].match_time_ns is Some <==> a[a.len() - 1].match_time_ns is Some);
        assert forall|i: int| 0 <= i < a.len() - 1 implies ((
        #[trigger] b.drop_last()[i]).match_time_ns is Some
            <==> a.drop_last()[i].match_time_ns is Some) by {
            assert(b[i].match_time_ns is Some <==> a[i].match_time_ns is Some);
        }
        round_times_alike(a.drop_last(), b.drop_last());
        assert(ra =~= round_times(a).subrange(0, ra.len() as int));
        assert(rb =~= round_times(b).subrange(0, rb.len() as int));
        assert forall|i: int| 0 <= i < a.len() - 1 implies ({
            &&& #[trigger] b.drop_last()[i] == (TimedEvent {
                match_time_ns: b.drop_last()[i].match_time_ns,
                ..a.drop_last()[i]
            })
            &&& b.drop_last()[i].match_time_ns is Some
                <==> a.drop_last()[i].match_time_ns is Some
        }) by {
            assert(b[i] == (TimedEvent { match_time_ns: b[i].match_time_ns, ..a[i] }));
        }
        events_determined(a.drop_last(), b.drop_last());
        if a.last().match_time_ns is Some {
            assert(round_times(a)[ra.len() as int] == a.last().match_time_ns->0);
            assert(round_times(b)[ra.len() as int] == b.last().match_time_ns->0);
        }
        assert(a.last() == a[a.len() - 1] && b.last() == b[a.len() - 1]);
        assert(a =~= a.drop_last().push(a.last()));
        assert(b =~= b.drop_last().push(b.last()));
    } else {
        assert(a =~= b);
    }
}

/// Append a stamp that may be missing.
fn push_maybe(stamps: &mut Vec<u64>, stamp: Option<u64>)
    ensures
        final(stamps)@ == old(stamps)@ + maybe(stamp),
{
    if let Some(at) = stamp {
        stamps.push(at);
    }
    proof {
        assert(stamps@ =~= old(stamps)@ + maybe(stamp));
    }
}

/// Append a team's round stamps.
fn push_team(stamps: &mut Vec<u64>, team: TeamState)
    ensures
        final(stamps)@ == old(stamps)@ + team_stamps(team),
{
    push_maybe(stamps, team.activating_since_ns);
    if let Some(buff) = team.buff {
        stamps.push(buff.started_ns);
        stamps.push(buff.expires_ns);
    }
    proof {
        assert(stamps@ =~= old(stamps)@ + team_stamps(team));
    }
}

/// Take the next stamp for one that may be missing.
fn take_maybe(stamp: Option<u64>, stamps: &Vec<u64>, next: usize) -> (r: (Option<u64>, usize))
    requires
        next + maybe(stamp).len() <= stamps@.len(),
    ensures
        r.0 is Some <==> stamp is Some,
        r.1 == next + maybe(stamp).len(),
        maybe(r.0) == stamps@.subrange(next as int, r.1 as int),
{
    proof {
        assert(stamps.len() == stamps@.len());
    }
    match stamp {
        Some(_) => {
            proof {
                assert(seq![stamps@[next as int]] =~= stamps@.subrange(
                    next as int,
                    next + 1,
                ));
            }
            (Some(stamps[next]), next + 1)
        },
        None => {
            proof {
                assert(Seq::<u64>::empty() =~= stamps@.subrange(next as int, next as int));
            }
            (None, next)
        },
    }
}

/// Take the next stamps for a team.
fn take_team(team: TeamState, stamps: &Vec<u64>, next: usize) -> (r: (TeamState, usize))
    requires
        next + team_stamps(team).len() <= stamps@.len(),
    ensures
        same_team(team, r.0),
        r.1 == next + team_stamps(team).len(),
        team_stamps(r.0) == stamps@.subrange(next as int, r.1 as int),
{
    proof {
        assert(stamps.len() == stamps@.len());
    }
    let (since, after): (Option<u64>, usize) = take_maybe(
        team.activating_since_ns,
        stamps,
        next,
    );
    match team.buff {
        Some(buff) => {
            let started_ns: u64 = stamps[after];
            let expires_ns: u64 = stamps[after + 1];
            let set = TeamState {
                activating_since_ns: since,
                buff: Some(BuffState { started_ns, expires_ns, ..buff }),
                ..team
            };
            proof {
                assert(team_stamps(set) =~= stamps@.subrange(next as int, after + 2));
            }
            (set, after + 2)
        },
        None => {
            let set = TeamState { activating_since_ns: since, ..team };
            proof {
                assert(team_stamps(set) =~= stamps@.subrange(next as int, after as int));
            }
            (set, after)
        },
    }
}

impl Referee {
    /// Every absolute timestamp on `clock`, in a fixed order, so a wire codec
    /// can rewrite them as tick-relative codes and back.
    pub fn stamps(&self, clock: StampClock) -> (r: Vec<u64>)
        ensures
            r@ == self@.stamps(clock),
    {
        let mut out: Vec<u64> = Vec::new();
        let s = &self.state;
        match clock {
            StampClock::Field => {
                out.push(s.now_ns);
                out.push(s.phase_started_ns);
                out.push(s.match_started_ns);
                push_maybe(&mut out, s.red.base_moved_ns);
                push_maybe(&mut out, s.blue.base_moved_ns);
                push_maybe(&mut out, s.dart_target_since_ns);
                let ghost head = out@;
                let mut i: usize = 0;
                while i < self.events.len()
                    invariant
                        i <= self.events@.len(),
                        out@ == head + field_times(self.events@.subrange(0, i as int)),
                    decreases self.events@.len() - i,
                {
                    out.push(self.events[i].time_ns);
                    i += 1;
                    proof {
                        assert(out@ =~= head + field_times(self.events@.subrange(0, i as int)));
                    }
                }
                proof {
                    assert(self.events@.subrange(0, i as int) =~= self.events@);
                    assert(out@ =~= self@.stamps(clock));
                }
            },
            StampClock::Round => {
                push_team(&mut out, s.red.team);
                push_team(&mut out, s.blue.team);
                let ghost head = out@;
                let mut i: usize = 0;
                proof {
                    assert(out@ =~= head + round_times(self.events@.subrange(0, 0)));
                }
                while i < self.events.len()
                    invariant
                        i <= self.events@.len(),
                        out@ == head + round_times(self.events@.subrange(0, i as int)),
                    decreases self.events@.len() - i,
                {
                    push_maybe(&mut out, self.events[i].match_time_ns);
                    i += 1;
                    proof {
                        let seen = self.events@.subrange(0, i as int);
                        assert(seen.drop_last() =~= self.events@.subrange(0, i - 1));
                        assert(out@ =~= head + round_times(seen));
                    }
                }
                proof {
                    assert(self.events@.subrange(0, i as int) =~= self.events@);
                    assert(out@ =~= self@.stamps(clock));
                }
            },
        }
        out
    }

    /// Replace the values of every absolute timestamp on `clock`, in the same
    /// order. A referee whose stamps were rewritten is meaningless until they
    /// are mapped back.
    pub fn set_stamps(&mut self, clock: StampClock, stamps: &Vec<u64>)
        requires
            stamps@.len() == old(self)@.stamps(clock).len(),
        ensures
            old(self)@.same_but_stamps(final(self)@, clock),
            final(self)@.stamps(clock) == stamps@,
    {
        let ghost start = self@;
        proof {
            assert(stamps.len() == stamps@.len());
        }
        match clock {
            StampClock::Field => {
                self.state.now_ns = stamps[0];
                self.state.phase_started_ns = stamps[1];
                self.state.match_started_ns = stamps[2];
                let (red, n1): (Option<u64>, usize) = take_maybe(
                    self.state.red.base_moved_ns,
                    stamps,
                    3,
                );
                let (blue, n2): (Option<u64>, usize) = take_maybe(
                    self.state.blue.base_moved_ns,
                    stamps,
                    n1,
                );
                let (dart, n3): (Option<u64>, usize) = take_maybe(
                    self.state.dart_target_since_ns,
                    stamps,
                    n2,
                );
                self.state.red.base_moved_ns = red;
                self.state.blue.base_moved_ns = blue;
                self.state.dart_target_since_ns = dart;
                let ghost state = self.state;
                let mut i: usize = 0;
                while i < self.events.len()
                    invariant
                        i <= self.events@.len(),
                        self.state == state,
                        self@ == (RefereeModel { state, events: self.events@, ..start }),
                        self.events@.len() == start.events.len(),
                        n3 + self.events@.len() == stamps@.len(),
                        stamps@.len() <= usize::MAX,
                        forall|k: int|
                            0 <= k < i ==> #[trigger] self.events@[k] == (TimedEvent {
                                time_ns: stamps@[n3 + k],
                                ..start.events[k]
                            }),
                        forall|k: int|
                            i <= k < self.events@.len() ==> #[trigger] self.events@[k]
                                == start.events[k],
                    decreases self.events@.len() - i,
                {
                    let mut event = self.events[i];
                    event.time_ns = stamps[n3 + i];
                    self.replace_event(i, event);
                    i += 1;
                }
                proof {
                    assert(field_times(self.events@) =~= stamps@.subrange(
                        n3 as int,
                        stamps@.len() as int,
                    ));
                    assert(self@.stamps(clock) =~= stamps@);
                }
            },
            StampClock::Round => {
                let (red, n1): (TeamState, usize) = take_team(self.state.red.team, stamps, 0);
                let (blue, n2): (TeamState, usize) = take_team(self.state.blue.team, stamps, n1);
                self.state.red.team = red;
                self.state.blue.team = blue;
                let ghost state = self.state;
                let mut next: usize = n2;
                let mut i: usize = 0;
                proof {
                    assert(start.events.subrange(0, start.events.len() as int) =~= start.events);
                    assert(stamps@.subrange(n2 as int, n2 as int) =~= round_times(
                        self.events@.subrange(0, 0),
                    ));
                }
                while i < self.events.len()
                    invariant
                        i <= self.events@.len(),
                        self.state == state,
                        self@ == (RefereeModel { state, events: self.events@, ..start }),
                        self.events@.len() == start.events.len(),
                        n2 <= next,
                        n2 + round_times(start.events).len() == stamps@.len(),
                        next == n2 + round_times(start.events.subrange(0, i as int)).len(),
                        round_times(self.events@.subrange(0, i as int)) == stamps@.subrange(
                            n2 as int,
                            next as int,
                        ),
                        forall|k: int|
                            0 <= k < i ==> {
                                &&& #[trigger] self.events@[k] == (TimedEvent {
                                    match_time_ns: self.events@[k].match_time_ns,
                                    ..start.events[k]
                                })
                                &&& self.events@[k].match_time_ns is Some
                                    <==> start.events[k].match_time_ns is Some
                            },
                        forall|k: int|
                            i <= k < self.events@.len() ==> #[trigger] self.events@[k]
                                == start.events[k],
                    decreases self.events@.len() - i,
                {
                    let mut event = self.events[i];
                    let ghost before = self.events@;
                    proof {
                        round_times_grow(start.events, i + 1);
                        let seen = start.events.subrange(0, i + 1);
                        assert(seen.drop_last() =~= start.events.subrange(0, i as int));
                        assert(seen.last() == start.events[i as int]);
                        assert(before[i as int] == start.events[i as int]);
                    }
                    let (at, after): (Option<u64>, usize) = take_maybe(
                        event.match_time_ns,
                        stamps,
                        next,
                    );
                    event.match_time_ns = at;
                    self.replace_event(i, event);
                    proof {
                        let now = self.events@.subrange(0, i + 1);
                        assert(now.drop_last() =~= before.subrange(0, i as int));
                        assert(now.last() == event);
                        assert(stamps@.subrange(n2 as int, after as int) =~= stamps@.subrange(
                            n2 as int,
                            next as int,
                        ) + stamps@.subrange(next as int, after as int));
                    }
                    next = after;
                    i += 1;
                }
                proof {
                    assert(self.events@.subrange(0, i as int) =~= self.events@);
                    assert(start.events.subrange(0, i as int) =~= start.events);
                    assert(self@.stamps(clock) =~= stamps@);
                }
            },
        }
    }

    /// Put an event in place of another.
    fn replace_event(&mut self, index: usize, event: TimedEvent)
        requires
            index < old(self).events@.len(),
        ensures
            final(self)@ == (RefereeModel {
                events: old(self).events@.update(index as int, event),
                ..old(self)@
            }),
    {
        let _ = self.events.remove(index);
        self.events.insert(index, event);
        proof {
            assert(self.events@ =~= old(self).events@.update(index as int, event));
        }
    }
}

/// Fewer events have no more round times.
proof fn round_times_grow(events: Seq<TimedEvent>, n: int)
    requires
        0 <= n <= events.len(),
    ensures
        round_times(events.subrange(0, n)).len() <= round_times(events).len(),
    decreases events.len() - n,
{
    if n < events.len() {
        round_times_grow(events, n + 1);
        let more = events.subrange(0, n + 1);
        assert(more.drop_last() =~= events.subrange(0, n));
    } else {
        assert(events.subrange(0, n) =~= events);
    }
}

} // verus!
