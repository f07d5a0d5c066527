//! What stands on the wire and what becomes of it on either side.
use super::baseline::{
    ack_magic, feedback_body, packed_magic, Baseline, Choice, Decoder, Encoder, Feedback, Header,
    Opened, Retire, Unpacked, Wire,
};
use super::bytes::{le_bytes, le_value};
use super::client::{
    anchor_magic, controls, loose_input, loose_shot, remembered, ClientModel, Control,
    QueuedCommand,
};
use super::compress::inflated;
use super::frames::{answering, Content, Delivery, FramesModel};
use super::inputs::{
    batch_bytes, batch_magic, frame_at, frame_bytes, frames_bytes, read_batch, read_packet,
    PilotInput,
};
use super::message::{
    client_magic, registered, server_magic, Ball, PlayerStateModel, ProjectileWire,
    Rounded,
};
use super::packet::{chunk, chunk_count, fragment, fragment_magic, payload, read_fragment};
use super::peer::{
    command_magic, read_request, HostPeerModel, Outbound, PeerCodec, Pump, PumpAction, PumpEvent,
    Request, Said, SendPlan, Submission,
};
use super::reassembly::{
    aged, first_unreliable, held, with_room, Arrival, Partial, ReassemblyModel,
};
use super::WireError;
use crate::binary::finite;
use crate::projectile::ArmorHit;
use crate::simulation::command::Command;
use crate::target::Caliber;
use vstd::prelude::*;

verus! {

/// Numbers stand low byte first: one that fits a byte is that byte and zeros.
pub proof fn numbers_stand_low_byte_first(x: u8, n: nat, k: int)
    requires
        0 <= k < n,
    ensures
        le_bytes(x as nat, n).len() == n,
        k == 0 ==> le_bytes(x as nat, n)[k] == x,
        k > 0 ==> le_bytes(x as nat, n)[k] == 0,
    decreases n,
{
    super::bytes::le_bytes_len(x as nat, n);
    let rest = le_bytes((x as nat) / 256, (n - 1) as nat);
    super::bytes::le_bytes_len((x as nat) / 256, (n - 1) as nat);
    assert(le_bytes(x as nat, n) == seq![((x as nat) % 256) as u8] + rest);
    if k > 0 {
        assert((x as nat) / 256 == 0);
        numbers_stand_low_byte_first(0, (n - 1) as nat, k - 1);
    }
}

/// Every kind of payload starts with four letters of its own: `RMI2` input
/// batches, `RMG1` fragments, `RMA1` feedback, `RMB0` packed checkpoints, `RMC1`
/// commands, `RMM1` and `RMQ1` messages to and from a player, `RMO3` anchors.
pub proof fn payloads_start_with_their_letters()
    ensures
        batch_magic() == seq![0x52u8, 0x4du8, 0x49u8, 0x32u8],
        fragment_magic() == seq![0x52u8, 0x4du8, 0x47u8, 0x31u8],
        ack_magic() == seq![0x52u8, 0x4du8, 0x41u8, 0x31u8],
        packed_magic() == seq![0x52u8, 0x4du8, 0x42u8, 0x30u8],
        command_magic() == seq![0x52u8, 0x4du8, 0x43u8, 0x31u8],
        server_magic() == seq![0x52u8, 0x4du8, 0x4du8, 0x31u8],
        client_magic() == seq![0x52u8, 0x4du8, 0x51u8, 0x31u8],
        anchor_magic() == seq![0x52u8, 0x4du8, 0x4fu8, 0x33u8],
{
}

/// Where the numbers of a sample stand in its eighty bytes.
pub proof fn samples_have_a_fixed_layout(input: PilotInput)
    ensures
        ({
            let s = frame_bytes(input);
            let f = input.frame;
            &&& s.len() == 80
            &&& le_value(s.subrange(0, 4)) == input.chassis
            &&& le_value(s.subrange(4, 12)) == f.input_epoch
            &&& le_value(s.subrange(12, 20)) == f.sequence
            &&& le_value(s.subrange(20, 28)) == f.sampled_time_ns
            &&& le_value(s.subrange(28, 36)) == f.placement_revision
            &&& le_value(s.subrange(36, 40)) == f.duration_ticks
            &&& le_value(s.subrange(40, 48)) == f.command.forward_m_s
            &&& le_value(s.subrange(48, 56)) == f.command.left_m_s
            &&& le_value(s.subrange(56, 64)) == f.command.yaw_rate_rad_s
            &&& le_value(s.subrange(64, 72)) == f.command.aim_yaw_rad
            &&& le_value(s.subrange(72, 80)) == f.command.aim_pitch_rad
        }),
{
    let f = input.frame;
    let c = f.command;
    super::bytes::u32_read_back(input.chassis);
    super::bytes::u64_read_back(f.input_epoch);
    super::bytes::u64_read_back(f.sequence);
    super::bytes::u64_read_back(f.sampled_time_ns);
    super::bytes::u64_read_back(f.placement_revision);
    super::bytes::u32_read_back(f.duration_ticks);
    super::bytes::u64_read_back(c.forward_m_s);
    super::bytes::u64_read_back(c.left_m_s);
    super::bytes::u64_read_back(c.yaw_rate_rad_s);
    super::bytes::u64_read_back(c.aim_yaw_rad);
    super::bytes::u64_read_back(c.aim_pitch_rad);
    let s = frame_bytes(input);
    assert(s.subrange(0, 4) =~= le_bytes(input.chassis as nat, 4));
    assert(s.subrange(4, 12) =~= le_bytes(f.input_epoch as nat, 8));
    assert(s.subrange(12, 20) =~= le_bytes(f.sequence as nat, 8));
    assert(s.subrange(20, 28) =~= le_bytes(f.sampled_time_ns as nat, 8));
    assert(s.subrange(28, 36) =~= le_bytes(f.placement_revision as nat, 8));
    assert(s.subrange(36, 40) =~= le_bytes(f.duration_ticks as nat, 4));
    assert(s.subrange(40, 48) =~= le_bytes(c.forward_m_s as nat, 8));
    assert(s.subrange(48, 56) =~= le_bytes(c.left_m_s as nat, 8));
    assert(s.subrange(56, 64) =~= le_bytes(c.yaw_rate_rad_s as nat, 8));
    assert(s.subrange(64, 72) =~= le_bytes(c.aim_yaw_rad as nat, 8));
    assert(s.subrange(72, 80) =~= le_bytes(c.aim_pitch_rad as nat, 8));
}

/// Every control of a sample is a finite number.
pub open spec fn sound_sample(input: PilotInput) -> bool {
    let c = input.frame.command;
    &&& finite(c.forward_m_s)
    &&& finite(c.left_m_s)
    &&& finite(c.yaw_rate_rad_s)
    &&& finite(c.aim_yaw_rad)
    &&& finite(c.aim_pitch_rad)
}

/// A batch is read where its first byte counts between one and twelve samples,
/// exactly so many follow, and every control in them is finite. A wrong length
/// is told before a number that is not finite.
pub proof fn which_batches_are_read(bytes: Seq<u8>)
    ensures
        ({
            let n = bytes[0] as int;
            let whole = bytes.len() > 0 && 1 <= n <= 12 && bytes.len() == 1 + 80 * n;
            &&& !whole ==> read_batch(bytes) == Err::<Seq<PilotInput>, WireError>(
                WireError::InputLength,
            )
            &&& whole ==> (read_batch(bytes) is Ok <==> forall|i: int|
                0 <= i < n ==> sound_sample(#[trigger] frame_at(bytes, i)))
            &&& whole && read_batch(bytes) is Err ==> read_batch(bytes)->Err_0
                == WireError::NonFiniteInput
            &&& read_batch(bytes) is Ok ==> read_batch(bytes)->Ok_0.len() == n
        }),
{
    let n = bytes[0] as int;
    if bytes.len() > 0 && 1 <= n <= 12 && bytes.len() == 1 + 80 * n {
        if forall|i: int| 0 <= i < n ==> sound_sample(#[trigger] frame_at(bytes, i)) {
            assert forall|i: int| 0 <= i < n implies (#[trigger] frame_at(
                bytes,
                i,
            )).frame.command.finite() by {
                assert(sound_sample(frame_at(bytes, i)));
            }
        } else {
            let i = choose|i: int| 0 <= i < n && !sound_sample(#[trigger] frame_at(bytes, i));
            assert(!frame_at(bytes, i).frame.command.finite());
        }
    }
}

/// A batch starts with its count, and its samples follow in their order.
pub proof fn batches_count_their_samples(inputs: Seq<PilotInput>)
    requires
        inputs.len() <= 12,
    ensures
        batch_bytes(inputs)[0] == inputs.len(),
        batch_bytes(inputs).len() == 1 + 80 * inputs.len(),
    decreases inputs.len(),
{
    lengths_add_up(inputs);
}

/// Every sample takes eighty bytes.
proof fn lengths_add_up(inputs: Seq<PilotInput>)
    ensures
        frames_bytes(inputs).len() == 80 * inputs.len(),
    decreases inputs.len(),
{
    if inputs.len() > 0 {
        lengths_add_up(inputs.drop_last());
        super::inputs::frame_read_back(inputs.last());
    }
}

/// A packet that is no batch is told so, and one that does not inflate into at
/// most 961 bytes too.
pub proof fn which_packets_are_batches(packet: Seq<u8>)
    ensures
        !(packet.len() >= 4 && packet.subrange(0, 4) == seq![0x52u8, 0x4du8, 0x49u8, 0x32u8])
            ==> read_packet(packet) == Err::<Seq<PilotInput>, WireError>(WireError::InputMagic),
        packet.len() >= 4 && packet.subrange(0, 4) == seq![0x52u8, 0x4du8, 0x49u8, 0x32u8]
            && inflated(packet.subrange(4, packet.len() as int), 961) is None ==> read_packet(
            packet,
        ) == Err::<Seq<PilotInput>, WireError>(WireError::Inflate),
{
}

/// Fragments share a frame's bytes out in pieces of a thousand: so many as it
/// takes, each byte in exactly the piece of its thousand.
pub proof fn fragments_share_the_bytes_out(bytes: Seq<u8>, j: int)
    requires
        0 <= j < bytes.len(),
    ensures
        (chunk_count(bytes.len()) - 1) * 1000 < bytes.len() <= chunk_count(bytes.len()) * 1000,
        0 <= j / 1000 < chunk_count(bytes.len()),
        j % 1000 < chunk(bytes, j / 1000).len() <= 1000,
        chunk(bytes, j / 1000)[j % 1000] == bytes[j],
{
}

/// Where the numbers of a fragment stand: its lane, the frame's number and
/// length, and the place of its piece, which follows behind twenty-one bytes.
pub proof fn fragments_have_a_fixed_header(
    revision: u64,
    reliable: bool,
    bytes: Seq<u8>,
    index: int,
)
    requires
        0 <= index < chunk_count(bytes.len()),
        bytes.len() <= u32::MAX,
    ensures
        ({
            let s = fragment(revision, reliable, bytes, index);
            &&& s.subrange(0, 4) == seq![0x52u8, 0x4du8, 0x47u8, 0x31u8]
            &&& s[4] == (if reliable {
                1u8
            } else {
                0u8
            })
            &&& le_value(s.subrange(5, 13)) == revision
            &&& le_value(s.subrange(13, 17)) == bytes.len()
            &&& le_value(s.subrange(17, 21)) == index
            &&& s.subrange(21, s.len() as int) == chunk(bytes, index)
        }),
{
    super::bytes::u64_read_back(revision);
    super::bytes::u32_read_back(bytes.len() as u32);
    super::bytes::u32_read_back(index as u32);
    let s = fragment(revision, reliable, bytes, index);
    assert(s.subrange(0, 4) =~= fragment_magic());
    assert(s.subrange(5, 13) =~= le_bytes(revision as nat, 8));
    assert(s.subrange(13, 17) =~= le_bytes(bytes.len(), 4));
    assert(s.subrange(17, 21) =~= le_bytes(index as nat, 4));
    assert(s.subrange(21, s.len() as int) =~= chunk(bytes, index));
}

/// A fragment is taken where its header is whole and its numbers fit: a frame
/// with a number, a length within the limit, a place within that length, and a
/// piece exactly as long as its place has it.
pub proof fn which_fragments_are_taken(packet: Seq<u8>, limit: usize)
    ensures
        ({
            let headed = packet.len() >= 21 && packet.subrange(0, 4) == seq![
                0x52u8,
                0x4du8,
                0x47u8,
                0x31u8,
            ] && packet[4] <= 1;
            let revision = le_value(packet.subrange(5, 13));
            let length = le_value(packet.subrange(13, 17)) as int;
            let index = le_value(packet.subrange(17, 21)) as int;
            let piece = packet.len() - 21;
            let left = length - 1000 * index;
            &&& !headed ==> read_fragment(packet, limit) is Err && read_fragment(packet, limit)->Err_0
                == WireError::FragmentHeader
            &&& headed ==> (read_fragment(packet, limit) is Ok <==> {
                &&& revision > 0
                &&& 0 < length <= limit
                &&& 0 < left
                &&& left > 1000 ==> piece == 1000
                &&& left <= 1000 ==> piece == left
            })
            &&& headed && read_fragment(packet, limit) is Err ==> read_fragment(
                packet,
                limit,
            )->Err_0 == WireError::FragmentSize
            &&& read_fragment(packet, limit) is Ok ==> {
                let f = read_fragment(packet, limit)->Ok_0;
                f.reliable == (packet[4] == 1) && f.revision == revision as u64 && f.length == length
                    && f.index == index as usize
            }
        }),
{
}

/// A frame under way that is not reliable waits a quarter of a second for its
/// pieces; a reliable one waits on.
pub proof fn frames_wait_a_quarter_second(pending: Seq<Partial>, now_ns: u64)
    ensures
        aged(pending, now_ns) == pending.filter(
            |frame: Partial| frame.reliable || now_ns - frame.started_ns < 250_000_000,
        ),
    decreases pending.len(),
{
    reveal(Seq::filter);
    if pending.len() > 0 {
        frames_wait_a_quarter_second(pending.drop_last(), now_ns);
    } else {
        assert(aged(pending, now_ns) =~= pending.filter(
            |frame: Partial| frame.reliable || now_ns - frame.started_ns < 250_000_000,
        ));
    }
}

/// The reliable frames under way.
pub open spec fn reliable_ones(pending: Seq<Partial>) -> Seq<Partial> {
    pending.filter(|frame: Partial| frame.reliable)
}

/// Room is made by dropping frames that are not reliable, the oldest first, and
/// no more than it takes: until fewer than four are under way and their bytes
/// fit with the new frame's. A reliable frame is never dropped for room.
pub proof fn room_is_made_by_the_unreliable(pending: Seq<Partial>, length: nat, limit: nat)
    ensures
        pending.len() < 4 && held(pending) + length <= limit ==> with_room(
            pending,
            length,
            limit,
        ) == pending,
        reliable_ones(with_room(pending, length, limit)) == reliable_ones(pending),
        ({
            let left = with_room(pending, length, limit);
            (left.len() < 4 && held(left) + length <= limit) || forall|i: int|
                0 <= i < left.len() ==> (#[trigger] left[i]).reliable
        }),
    decreases pending.len(),
{
    let k = first_unreliable(pending);
    first_unreliable_is_first(pending);
    if !(pending.len() < 4 && held(pending) + length <= limit) && k < pending.len() {
        let rest = pending.remove(k as int);
        room_is_made_by_the_unreliable(rest, length, limit);
        removing_keeps_the_reliable(pending, k as int);
    }
}

/// The first frame that is not reliable.
proof fn first_unreliable_is_first(pending: Seq<Partial>)
    ensures
        first_unreliable(pending) <= pending.len(),
        first_unreliable(pending) < pending.len() ==> !pending[first_unreliable(
            pending,
        ) as int].reliable,
        forall|i: int|
            0 <= i < first_unreliable(pending) ==> (#[trigger] pending[i]).reliable,
    decreases pending.len(),
{
    if pending.len() > 0 && pending[0].reliable {
        let rest = pending.subrange(1, pending.len() as int);
        first_unreliable_is_first(rest);
        assert forall|i: int| 0 <= i < first_unreliable(pending) implies (
        #[trigger] pending[i]).reliable by {
            if i > 0 {
                assert(rest[i - 1] == pending[i]);
            }
        }
    }
}

/// Removing a frame that is not reliable leaves the reliable ones.
proof fn removing_keeps_the_reliable(pending: Seq<Partial>, k: int)
    requires
        0 <= k < pending.len(),
        !pending[k].reliable,
    ensures
        reliable_ones(pending.remove(k)) == reliable_ones(pending),
{
    let keep = |frame: Partial| frame.reliable;
    let head = pending.subrange(0, k);
    let one = seq![pending[k]];
    let tail = pending.subrange(k + 1, pending.len() as int);
    assert(pending =~= head + one + tail);
    assert(pending.remove(k) =~= head + tail);
    Seq::filter_distributes_over_add(head + one, tail, keep);
    Seq::filter_distributes_over_add(head, one, keep);
    Seq::filter_distributes_over_add(head, tail, keep);
    assert(one.filter(keep) =~= Seq::empty()) by {
        reveal(Seq::filter);
        assert(one.drop_last() =~= Seq::empty());
        assert(Seq::<Partial>::empty().filter(keep) =~= Seq::empty());
    }
    assert(head.filter(keep) + Seq::<Partial>::empty() =~= head.filter(keep));
}

/// A piece that came already changes nothing; a new one fills its own thousand
/// bytes and no other.
pub proof fn pieces_fill_their_place(frame: Partial, index: int, part: Seq<u8>, j: int)
    requires
        0 <= index < frame.received.len(),
        0 <= j < frame.bytes.len(),
    ensures
        frame.received[index] ==> frame.with(index, part) == frame,
        !frame.received[index] ==> {
            let after = frame.with(index, part);
            &&& after.received[index]
            &&& after.received.len() == frame.received.len()
            &&& forall|i: int|
                0 <= i < frame.received.len() && i != index ==> #[trigger] after.received[i]
                    == frame.received[i]
            &&& after.bytes.len() == frame.bytes.len()
            &&& 1000 * index <= j < 1000 * index + part.len() ==> after.bytes[j] == part[j - 1000
                * index]
            &&& !(1000 * index <= j < 1000 * index + part.len()) ==> after.bytes[j]
                == frame.bytes[j]
        },
{
}

/// Pieces of one frame have to agree on its length and lane.
pub proof fn pieces_of_a_frame_agree(
    state: ReassemblyModel,
    place: int,
    said: super::packet::Fragment,
    part: Seq<u8>,
)
    requires
        0 <= place < state.pending.len(),
    ensures
        ({
            let frame = state.pending[place];
            let (after, arrival) = state.adding(place, said, part);
            let agree = frame.bytes.len() == said.length && frame.reliable == said.reliable;
            &&& !agree ==> after == state && arrival == Arrival::Refused(
                WireError::InconsistentFragments,
            )
            &&& agree ==> !(arrival is Refused)
            &&& arrival is Complete ==> after.pending.len() == state.pending.len() - 1
            &&& arrival is Waiting ==> after.pending.len() == state.pending.len()
        }),
{
}

/// Answers wait in a queue of sixteen; the oldest gives way to a new one.
pub proof fn answers_wait_in_a_queue(queue: Seq<Feedback>, feedback: Feedback)
    requires
        queue.len() <= 16,
    ensures
        ({
            let after = answering(queue, feedback);
            let n = queue.len() as int;
            let m = after.len() as int;
            &&& m == (if n < 16 {
                n + 1
            } else {
                16
            })
            &&& after[m - 1] == feedback
            &&& forall|i: int| 0 <= i < m - 1 ==> #[trigger] after[i] == queue[n - m + 1 + i]
        }),
{
}

/// Control messages and retirements come by the reliable lane only; snapshots
/// come by either, and only newer ones are handed on. Each is counted.
pub proof fn lanes_carry_their_messages(frames: FramesModel, reliable: bool, id: u64, retire: Retire)
    requires
        frames.stale_updates < u64::MAX,
        frames.complete_snapshots < u64::MAX,
    ensures
        frames.handing(true, Content::Control) == (frames, Delivery::Message(Content::Control)),
        frames.handing(false, Content::Control) == (
            frames,
            Delivery::Refused(WireError::UnreliableControl),
        ),
        frames.opening(false, Wire::Retire(retire)) == (
            frames,
            Err::<Opened, WireError>(WireError::UnreliableRetirement),
        ),
        id > frames.latest_snapshot ==> {
            let (after, given) = frames.handing(reliable, Content::Snapshot(id));
            &&& given == Delivery::Message(Content::Snapshot(id))
            &&& after.latest_snapshot == id
            &&& after.complete_snapshots == frames.complete_snapshots + 1
            &&& after.stale_updates == frames.stale_updates
        },
        id <= frames.latest_snapshot ==> {
            let (after, given) = frames.handing(reliable, Content::Snapshot(id));
            &&& given == Delivery::Nothing
            &&& after.latest_snapshot == frames.latest_snapshot
            &&& after.stale_updates == frames.stale_updates + 1
            &&& after.complete_snapshots == frames.complete_snapshots
        },
{
}

/// A new baseline is proposed when there is none, or after thirty-two
/// checkpoints, and never while another proposal or retirement is open. A state
/// of more than a mebibyte is sent by itself and never proposed.
pub proof fn when_baselines_are_proposed(
    encoder: Encoder,
    state: u64,
    source_len: usize,
    independent_len: u64,
)
    requires
        encoder.next_id < u64::MAX,
    ensures
        ({
            let (after, choice) = encoder.choosing(state, source_len, independent_len);
            let due = encoder.pending is None && encoder.retiring is None && (encoder.active
                is None || encoder.count >= 32);
            &&& choice is Ok
            &&& source_len > 1_048_576 ==> choice == Ok::<Choice, WireError>(Choice::Independent)
                && after.pending == encoder.pending && after.next_id == encoder.next_id
            &&& source_len <= 1_048_576 && due ==> {
                &&& after.pending == Some(
                    Baseline { id: (encoder.next_id + 1) as u64, state },
                )
                &&& after.next_id == encoder.next_id + 1
                &&& after.count == 0
            }
            &&& source_len <= 1_048_576 && !due ==> after.pending == encoder.pending
                && after.next_id == encoder.next_id && after.count == encoder.count
            &&& after.active == encoder.active
            &&& after.retiring == encoder.retiring
        }),
{
}

/// How a checkpoint is packed: in full under the active baseline where the
/// client lost it, in full under the proposed one every eighth time, as a
/// difference from the active one otherwise, and by itself where there is none.
pub proof fn how_checkpoints_are_packed(encoder: Encoder)
    ensures
        ({
            let lost = encoder.recover && encoder.active is Some;
            let propose = encoder.pending is Some && encoder.count % 8 == 0;
            let packed = encoder.packing();
            &&& lost ==> packed == Choice::Full(encoder.active->0)
            &&& !lost && propose ==> packed == Choice::Full(encoder.pending->0)
            &&& !lost && !propose && encoder.active is Some ==> packed == Choice::Delta(
                encoder.active->0,
            )
            &&& !lost && !propose && encoder.active is None ==> packed == Choice::Independent
        }),
{
}

/// A difference is sent only where it is shorter than the state by itself; a
/// full packing always is. What is sent is counted.
pub proof fn the_shorter_packing_is_sent(
    encoder: Encoder,
    choice: Choice,
    independent_len: u64,
    packed_len: u64,
)
    requires
        encoder.sent_bytes + independent_len + packed_len <= u64::MAX,
        encoder.deltas < u64::MAX,
    ensures
        ({
            let (after, packed) = encoder.finished(choice, independent_len, packed_len);
            &&& choice is Independent ==> !packed
            &&& choice is Full ==> packed
            &&& choice is Delta ==> (packed <==> packed_len < independent_len)
            &&& packed ==> after.sent_bytes == encoder.sent_bytes + packed_len
            &&& !packed ==> after.sent_bytes == encoder.sent_bytes + independent_len
            &&& packed && choice is Delta ==> after.deltas == encoder.deltas + 1
            &&& !(packed && choice is Delta) ==> after.deltas == encoder.deltas
            &&& after.active == encoder.active && after.pending == encoder.pending
        }),
{
}

/// A stored proposal becomes the active baseline and the one before it is
/// retired; a retired one is let go; a lost one is sent again in full. What is
/// said of another epoch or another baseline changes nothing.
pub proof fn what_feedback_does(encoder: Encoder, epoch: u64, id: u64)
    requires
        encoder.wf(),
    ensures
        ({
            let here = encoder.epoch == Some(epoch);
            let (stored, retire) = encoder.hearing(Feedback::Stored { epoch, id });
            let (retired, none) = encoder.hearing(Feedback::Retired { epoch, id });
            let (missing, nothing) = encoder.hearing(Feedback::Missing { epoch, id });
            let mine = here && encoder.pending is Some && encoder.pending->0.id == id;
            let gone = here && encoder.retiring is Some && encoder.retiring->0.id == id;
            let lost = here && encoder.active is Some && encoder.active->0.id == id;
            &&& mine ==> {
                &&& stored.active == encoder.pending
                &&& stored.pending is None
                &&& stored.retiring == encoder.active
                &&& stored.count == 0
                &&& encoder.active is Some ==> retire == Some(
                    Retire { epoch, id: encoder.active->0.id },
                )
                &&& encoder.active is None ==> retire is None
            }
            &&& !mine ==> stored == encoder && retire is None
            &&& gone ==> retired.retiring is None && retired.active == encoder.active
            &&& !gone ==> retired == encoder
            &&& lost ==> missing.recover && missing.active == encoder.active
            &&& !lost ==> missing == encoder
            &&& none is None && nothing is None
        }),
{
}

/// A retirement that is not answered is sent again every sixteen checkpoints.
pub proof fn retirements_are_sent_again(encoder: Encoder)
    requires
        encoder.wf(),
    ensures
        ({
            let (after, retire) = encoder.resending();
            &&& retire is Some <==> encoder.retiring is Some && encoder.retire_age >= 16
            &&& retire is Some ==> retire->0.id == encoder.retiring->0.id && Some(retire->0.epoch)
                == encoder.epoch && after.retire_age == 0
            &&& retire is None ==> after == encoder
            &&& after.retiring == encoder.retiring
        }),
{
}

/// A new epoch starts without a baseline and keeps counting their numbers; in
/// the same epoch a checkpoint more is counted.
pub proof fn epochs_start_without_a_baseline(encoder: Encoder, epoch: u64)
    requires
        encoder.count < u64::MAX,
        encoder.retire_age < u64::MAX,
    ensures
        ({
            let after = encoder.begun(epoch);
            &&& after.epoch == Some(epoch)
            &&& after.next_id == encoder.next_id
            &&& encoder.epoch != Some(epoch) ==> after.active is None && after.pending is None
                && after.retiring is None && after.count == 1 && !after.recover
            &&& encoder.epoch == Some(epoch) ==> after.active == encoder.active && after.pending
                == encoder.pending && after.retiring == encoder.retiring && after.count
                == encoder.count + 1
            &&& encoder.epoch == Some(epoch) && encoder.retiring is Some ==> after.retire_age
                == encoder.retire_age + 1
        }),
{
}

/// What a decoder takes: a baseline of up to a mebibyte, with the contents it
/// knows it by, while it has fewer than two others; any other checkpoint within
/// the limit; and only a snapshot of the epoch it was announced for.
pub proof fn what_a_decoder_takes(
    decoder: Decoder,
    header: Header,
    unpacked: Unpacked,
    limit: usize,
)
    requires
        decoder.wf(),
    ensures
        ({
            let (after, r) = decoder.closing(header, unpacked, limit);
            let pins = !header.delta && header.id > 0;
            let held = decoder.pinned_state(header.id);
            let full = decoder.first is Some && decoder.second is Some;
            let mine = unpacked.epoch == Some(header.epoch);
            &&& pins ==> {
                &&& r is Ok <==> {
                    &&& held is Some || !full
                    &&& unpacked.bytes <= 1_048_576
                    &&& held is Some ==> held->0 == unpacked.state
                    &&& mine
                }
                &&& r is Ok ==> r->Ok_0 == Some(
                    Feedback::Stored { epoch: header.epoch, id: header.id },
                ) && after.pinned_state(header.id) == Some(unpacked.state)
                &&& full && held is None ==> r is Err && r->Err_0 == WireError::BaselineOverflow
                &&& r is Err ==> after == decoder
            }
            &&& !pins ==> {
                &&& r is Ok <==> unpacked.bytes <= limit && mine
                &&& r is Ok ==> r->Ok_0 is None
                &&& unpacked.bytes > limit ==> r->Err_0 == WireError::StateSize
                &&& unpacked.bytes <= limit && !mine ==> r->Err_0 == WireError::StateEpoch
                &&& after.first == decoder.first && after.second == decoder.second
            }
        }),
{
}

/// How a decoder opens a checkpoint: one of an epoch before is ignored, one of a
/// later epoch drops what was pinned; headers have to agree; a difference needs
/// its baseline, and its loss is answered and counted.
pub proof fn how_checkpoints_are_opened(decoder: Decoder, announced: Header, actual: Header)
    requires
        decoder.wf(),
        decoder.missing < u64::MAX,
    ensures
        ({
            let (after, r) = decoder.opening(Wire::Packed { announced, actual });
            let old = decoder.epoch is Some && announced.epoch < decoder.epoch->0;
            let fresh = decoder.epoch != Some(announced.epoch);
            let through = if fresh {
                0
            } else {
                decoder.retired_through
            };
            let base = if fresh {
                None
            } else {
                decoder.pinned_state(announced.id)
            };
            &&& old ==> after == decoder && r == Ok::<Opened, WireError>(Opened::Ignored)
            &&& !old && announced != actual ==> r == Err::<Opened, WireError>(
                WireError::HeaderMismatch,
            )
            &&& !old && announced == actual && !announced.delta && 0 < announced.id <= through
                ==> r == Ok::<Opened, WireError>(Opened::Ignored)
            &&& !old && announced == actual && !announced.delta && !(0 < announced.id <= through)
                ==> r == Ok::<Opened, WireError>(Opened::Unpack { base: None })
            &&& !old && announced == actual && announced.delta && base is Some ==> r == Ok::<
                Opened,
                WireError,
            >(Opened::Unpack { base })
            &&& !old && announced == actual && announced.delta && base is None ==> r == Ok::<
                Opened,
                WireError,
            >(
                Opened::Answer(
                    Feedback::Missing { epoch: announced.epoch, id: announced.id },
                ),
            ) && after.missing == decoder.missing + 1
            &&& !old ==> after.epoch == Some(announced.epoch)
            &&& !old && fresh ==> after.first is None && after.second is None
            &&& !old && !fresh ==> after.first == decoder.first && after.second == decoder.second
        }),
{
}

/// A retirement lets go of every baseline up to its number and of no other.
pub proof fn retirements_let_go(decoder: Decoder, retire: Retire, id: u64)
    requires
        decoder.wf(),
        decoder.epoch == Some(retire.epoch),
    ensures
        ({
            let (after, r) = decoder.opening(Wire::Retire(retire));
            &&& r == Ok::<Opened, WireError>(
                Opened::Answer(Feedback::Retired { epoch: retire.epoch, id: retire.id }),
            )
            &&& id <= retire.id ==> after.pinned_state(id) is None
            &&& id > retire.id ==> after.pinned_state(id) == decoder.pinned_state(id)
            &&& after.retired_through >= retire.id
            &&& after.retired_through >= decoder.retired_through
        }),
{
}

/// Feedback is read where it stands behind its letters in at most 256 bytes.
pub proof fn which_feedback_is_read(payload: Seq<u8>)
    ensures
        feedback_body(payload) is Some <==> payload.len() <= 256 && payload.len() >= 4
            && payload.subrange(0, 4) == seq![0x52u8, 0x4du8, 0x41u8, 0x31u8],
        feedback_body(payload) is Some ==> feedback_body(payload)->0 == payload.subrange(
            4,
            payload.len() as int,
        ),
{
}

/// A host sorts what a client sends by its letters: nothing above 64 KiB,
/// feedback and input only once the client has joined, compressed commands of at
/// most 16 KiB, and anything else as a plain message.
pub proof fn hosts_sort_what_clients_send(payload: Seq<u8>, joined: bool)
    ensures
        ({
            let letters = payload.subrange(0, 4);
            let lettered = payload.len() >= 4;
            let feedback = lettered && letters == seq![0x52u8, 0x4du8, 0x41u8, 0x31u8];
            let batch = lettered && letters == seq![0x52u8, 0x4du8, 0x49u8, 0x32u8];
            let command = lettered && letters == seq![0x52u8, 0x4du8, 0x43u8, 0x31u8];
            let body = payload.subrange(4, payload.len() as int);
            let r = read_request(payload, joined);
            &&& payload.len() > 65_536 ==> r == Request::Refused(WireError::TooLarge)
            &&& payload.len() <= 65_536 && (feedback || batch) && !joined ==> r
                == Request::Refused(WireError::ExpectedHello)
            &&& payload.len() <= 256 && feedback && joined ==> r == Request::Feedback(body)
            &&& 256 < payload.len() <= 65_536 && feedback && joined ==> r == Request::Refused(
                WireError::Feedback,
            )
            &&& payload.len() <= 65_536 && batch && joined ==> r == (match read_packet(payload) {
                Ok(inputs) => Request::Inputs(inputs),
                Err(error) => Request::Refused(error),
            })
            &&& payload.len() <= 65_536 && command ==> r == (match inflated(body, 16_384) {
                Some(json) => Request::Message(json),
                None => Request::Refused(WireError::Inflate),
            })
            &&& payload.len() <= 65_536 && !feedback && !batch && !command ==> r
                == Request::Message(payload)
        }),
{
    payloads_start_with_their_letters();
    let a = seq![0x52u8, 0x4du8, 0x41u8, 0x31u8];
    let b = seq![0x52u8, 0x4du8, 0x49u8, 0x32u8];
    let c = seq![0x52u8, 0x4du8, 0x43u8, 0x31u8];
    assert(a[2] != b[2]);
    assert(b[2] != c[2]);
    assert(a[2] != c[2]);
}

/// A periodic update waits where more than 64 KiB are queued; a snapshot among
/// them goes as a difference unless full checkpoints are asked for, and whatever
/// is not periodic goes as it is.
pub proof fn when_updates_are_skipped(peer: PeerCodec, frame: Outbound, pending_bytes: u32)
    ensures
        peer.plan(frame, pending_bytes) == SendPlan::Skip <==> frame.periodic && pending_bytes
            > 65_536,
        peer.plan(frame, pending_bytes) == SendPlan::Delta <==> frame.periodic && pending_bytes
            <= 65_536 && frame.snapshot && !peer.full_checkpoints,
{
}

/// Frames are numbered one by one. Of periodic ones that fit, the bytes on the
/// wire are counted with twenty-one for every fragment.
pub proof fn frames_are_numbered_and_counted(peer: PeerCodec, periodic: bool, length: nat)
    requires
        peer.revision < u64::MAX,
        peer.encoding.world_updates < u64::MAX,
        peer.encoding.framed_world_bytes + 21 * chunk_count(length) + length <= u64::MAX,
    ensures
        ({
            let after = peer.framed(periodic, length);
            let counts = periodic && 1 <= length <= peer.limit;
            &&& after.revision == peer.revision + 1
            &&& counts ==> after.encoding.world_updates == peer.encoding.world_updates + 1
                && after.encoding.framed_world_bytes == peer.encoding.framed_world_bytes + 21
                * chunk_count(length) + length && after.encoding.independent_bytes
                == peer.encoder.full_bytes && after.encoding.selected_bytes
                == peer.encoder.sent_bytes
            &&& !counts ==> after.encoding == peer.encoding
            &&& after.encoder == peer.encoder
        }),
{
}

/// A turn of the pump sends frames to a seated client first, then a report where
/// a second has gone since the last, then packets, and then it is done.
pub proof fn a_pump_keeps_its_order(peer: HostPeerModel, now_ns: u64, pump: Pump)
    ensures
        ({
            let seated = peer.seat is Some;
            let due = seated && now_ns - peer.last_report_ns >= 1_000_000_000;
            let action = peer.pumping(now_ns, pump);
            &&& action == PumpAction::Frame <==> seated && pump.frames > 0
            &&& action == PumpAction::Report <==> due && pump.frames == 0
            &&& action == PumpAction::Packet <==> !(seated && pump.frames > 0) && !due
                && pump.datagrams > 0
            &&& action == PumpAction::Done <==> !(seated && pump.frames > 0) && !due
                && pump.datagrams == 0
        }),
{
}

/// What a pump is told is taken note of: a frame or packet less to go, none more
/// where there are none, a report at its time, and a packet behind those that
/// wait.
pub proof fn a_pump_takes_note(
    peer: HostPeerModel,
    now_ns: u64,
    pump: Pump,
    datagram: super::peer::Datagram,
)
    ensures
        ({
            let (sent, a) = peer.pumped(now_ns, pump, PumpEvent::Sent);
            let (empty, b) = peer.pumped(now_ns, pump, PumpEvent::Empty);
            let (told, c) = peer.pumped(now_ns, pump, PumpEvent::Reported);
            let (more, d) = peer.pumped(now_ns, pump, PumpEvent::Packet(datagram));
            let (dry, e) = peer.pumped(now_ns, pump, PumpEvent::Dry);
            &&& sent == peer && a.datagrams == pump.datagrams && (pump.frames > 0 ==> a.frames
                == pump.frames - 1)
            &&& empty == peer && b.frames == 0 && b.datagrams == pump.datagrams
            &&& told.last_report_ns == now_ns && c == pump && told.outgoing == peer.outgoing
            &&& more.outgoing.len() == peer.outgoing.len() + 1 && more.outgoing.last() == datagram
                && (pump.datagrams > 0 ==> d.datagrams == pump.datagrams - 1) && d.frames
                == pump.frames
            &&& dry == peer && e.datagrams == 0 && e.frames == pump.frames
        }),
{
}

/// A client that has no seat gets one with a hello of the host's version, and
/// anything else is refused; one that has a seat speaks from it.
pub proof fn clients_are_seated_by_their_hello(
    peer: HostPeerModel,
    protocol: u32,
    version: u32,
)
    ensures
        peer.seat is Some ==> {
            &&& peer.submitting(Said::Other, version) == Ok::<Submission, WireError>(
                Submission::Seat(peer.seat->0),
            )
            &&& peer.submitting(Said::Hello { protocol }, version) == Ok::<Submission, WireError>(
                Submission::Seat(peer.seat->0),
            )
        },
        peer.seat is None ==> {
            &&& peer.submitting(Said::Other, version) == Err::<Submission, WireError>(
                WireError::ExpectedHello,
            )
            &&& protocol == version ==> peer.submitting(Said::Hello { protocol }, version) == Ok::<
                Submission,
                WireError,
            >(Submission::Join)
            &&& protocol != version ==> peer.submitting(Said::Hello { protocol }, version)
                == Err::<Submission, WireError>(WireError::Protocol)
        },
{
}

/// A client keeps its newest thirty-two samples.
pub proof fn clients_keep_recent_samples(recent: Seq<Command>, command: Command)
    requires
        recent.len() <= 32,
    ensures
        ({
            let after = remembered(recent, command);
            let n = recent.len() as int;
            let m = after.len() as int;
            &&& m == (if n < 32 {
                n + 1
            } else {
                32
            })
            &&& after[m - 1] == command
            &&& forall|i: int| 0 <= i < m - 1 ==> #[trigger] after[i] == recent[n - m + 1 + i]
        }),
{
}

/// What goes by the control lane goes in order: the command, the time probe, the
/// confirmation, as far as there are any. Samples and shots that nobody waits
/// for go their own way.
pub proof fn controls_go_in_order(queued: QueuedCommand)
    ensures
        ({
            let all = controls(queued);
            let a: int = if queued.command is Some {
                1
            } else {
                0
            };
            let b: int = if queued.time_probe is Some {
                1
            } else {
                0
            };
            let c: int = if queued.confirmation is Some {
                1
            } else {
                0
            };
            &&& all.len() == a + b + c
            &&& queued.command is Some ==> all[0] == Control::Command(queued.command->0)
            &&& queued.time_probe is Some ==> all[a] == Control::TimeProbe(queued.time_probe->0)
            &&& queued.confirmation is Some ==> all[a + b] == Control::Ping(
                queued.confirmation->0,
            )
        }),
        loose_input(queued) <==> queued.confirmation is None && queued.command is Some
            && queued.command->0 is PilotInput,
        loose_shot(queued) <==> queued.confirmation is None && queued.command is Some
            && queued.command->0 is FireAimed,
{
}

/// An anchor is taken from a welcomed client's host, and only a newer one.
pub proof fn anchors_are_newer(client: ClientModel, snapshot_id: u64)
    ensures
        ({
            let (after, taken) = client.anchoring(snapshot_id);
            &&& taken <==> client.welcomed && client.latest_owner < snapshot_id
            &&& taken ==> after.latest_owner == snapshot_id
            &&& !taken ==> after == client
        }),
{
}

/// A projectile travels with its ages: since its launch, from there to its first
/// contact, and from there, or from the launch, to its rest. Its spin does not
/// travel.
pub proof fn projectiles_travel_with_their_ages(ball: Ball, time_ns: u64, rounded: Rounded)
    requires
        ball.in_order(time_ns),
    ensures
        ({
            let wire: ProjectileWire = ball.wire(time_ns, rounded);
            &&& wire.id == ball.id
            &&& wire.shooter == ball.shooter
            &&& wire.large <==> ball.caliber == Caliber::Mm42
            &&& wire.position_m == rounded.position_m && wire.velocity_m_s == rounded.velocity_m_s
            &&& wire.launched_age_ns + ball.launched_ns == time_ns
            &&& ball.first_contact_ns is None <==> wire.first_contact_age_ns is None
            &&& ball.first_contact_ns is Some ==> wire.first_contact_age_ns->0 + ball.launched_ns
                == ball.first_contact_ns->0
            &&& ball.dwell_since_ns is None <==> wire.dwell_age_ns is None
            &&& ball.dwell_since_ns is Some && ball.first_contact_ns is Some
                ==> wire.dwell_age_ns->0 + ball.first_contact_ns->0 == ball.dwell_since_ns->0
            &&& ball.dwell_since_ns is Some && ball.first_contact_ns is None
                ==> wire.dwell_age_ns->0 + ball.launched_ns == ball.dwell_since_ns->0
            &&& wire.ball(time_ns).caliber == ball.caliber
            &&& wire.ball(time_ns).launched_ns == ball.launched_ns
            &&& wire.ball(time_ns).first_contact_ns == ball.first_contact_ns
            &&& wire.ball(time_ns).dwell_since_ns == ball.dwell_since_ns
            &&& wire.ball(time_ns).angular_velocity_rad_s == [0u64, 0u64, 0u64]
        }),
{
}

/// A checkpoint carries detected contacts only, in their order, no wheel
/// contact, and of everything else what the state has.
pub proof fn checkpoints_leave_out_what_players_need_not(
    state: PlayerStateModel,
    rounded: Seq<Rounded>,
    hit: ArmorHit,
    i: int,
)
    ensures
        ({
            let sent = state.checkpoint(rounded);
            &&& sent.time_ns == state.time_ns
            &&& sent.input_epoch == state.input_epoch
            &&& sent.snapshot_id == state.snapshot_id
            &&& sent.rest == state.rest
            &&& sent.projectiles.len() == state.projectiles.len()
            &&& sent.hits.contains(hit) <==> state.hits.contains(hit) && hit.detected
            &&& sent.wheel_contacts.len() == state.wheel_contacts.len()
            &&& 0 <= i < state.wheel_contacts.len() ==> sent.wheel_contacts[i] is None
        }),
{
    registered_are_detected(state.hits, hit);
}

/// Registered contacts are the detected ones.
proof fn registered_are_detected(hits: Seq<ArmorHit>, hit: ArmorHit)
    ensures
        registered(hits).contains(hit) <==> hits.contains(hit) && hit.detected,
    decreases hits.len(),
{
    reveal(Seq::filter);
    if hits.len() > 0 {
        let rest = hits.drop_last();
        let last = hits.last();
        registered_are_detected(rest, hit);
        let kept = registered(rest);
        assert(hits[hits.len() - 1] == last);
        if hits.contains(hit) && hit != last {
            let i = choose|i: int| 0 <= i < hits.len() && hits[i] == hit;
            assert(rest[i] == hit);
        }
        if rest.contains(hit) {
            let i = choose|i: int| 0 <= i < rest.len() && rest[i] == hit;
            assert(hits[i] == hit);
        }
        if last.detected {
            assert(registered(hits) == kept.push(last));
            assert(kept.push(last)[kept.len() as int] == last);
            if kept.contains(hit) {
                let i = choose|i: int| 0 <= i < kept.len() && kept[i] == hit;
                assert(kept.push(last)[i] == hit);
            }
            if kept.push(last).contains(hit) && hit != last {
                let i = choose|i: int| 0 <= i < kept.push(last).len() && kept.push(last)[i] == hit;
                assert(kept[i] == hit);
            }
        } else {
            assert(registered(hits) == kept);
        }
    }
}

/// A client takes one welcome, for its own protocol version.
pub proof fn one_welcome_is_taken(client: ClientModel, protocol: u32, version: u32)
    ensures
        ({
            let (after, r) = client.welcoming(protocol, version);
            &&& r is Ok <==> !client.welcomed && protocol == version
            &&& r is Ok ==> after.welcomed && after.latest_owner == client.latest_owner
                && after.frames == client.frames && after.recent_inputs == client.recent_inputs
            &&& r is Err ==> after == client && r->Err_0 == WireError::Welcome
            &&& after.welcoming(protocol, version).1 is Err
        }),
{
}

/// What a client counts: frames dropped before they were whole, snapshots that
/// came too late, snapshots handed on, differences decoded and baselines missed.
pub proof fn what_a_client_counts(client: ClientModel)
    ensures
        client.delivery().incomplete_frames == client.frames.reassembly.incomplete,
        client.delivery().stale_updates == client.frames.stale_updates,
        client.delivery().complete_snapshots == client.frames.complete_snapshots,
        client.delivery().decoded_deltas == client.frames.decoder.deltas,
        client.delivery().missing_baselines == client.frames.decoder.missing,
{
}

/// A peer's time runs from its admission; its own anchor goes with every
/// periodic snapshot and nothing else, whatever is queued; anchors and skipped
/// updates are counted.
pub proof fn peers_are_anchored_and_counted(
    peer: PeerCodec,
    frame: Outbound,
    pending_bytes: u32,
    bytes: usize,
    now_ns: u64,
)
    requires
        peer.encoding.owner_updates < u64::MAX,
        peer.encoding.owner_bytes + bytes <= u64::MAX,
        peer.encoding.skipped_world_updates < u64::MAX,
    ensures
        peer.admitted_ns <= now_ns ==> peer.elapsed(now_ns) + peer.admitted_ns == now_ns,
        now_ns < peer.admitted_ns ==> peer.elapsed(now_ns) == 0,
        frame.periodic && frame.snapshot ==> peer.anchor_of(frame) == peer.chassis,
        !frame.periodic || !frame.snapshot ==> peer.anchor_of(frame) is None,
        peer.anchor_noted(bytes).encoding.owner_updates == peer.encoding.owner_updates + 1,
        peer.anchor_noted(bytes).encoding.owner_bytes == peer.encoding.owner_bytes + bytes,
        peer.anchor_noted(bytes).revision == peer.revision,
        frame.periodic && pending_bytes > 65_536 ==> peer.planned(
            frame,
            pending_bytes,
        ).encoding.skipped_world_updates == peer.encoding.skipped_world_updates + 1,
        !frame.periodic || pending_bytes <= 65_536 ==> peer.planned(frame, pending_bytes) == peer,
{
}

/// What a decoder answers waits to be sent: a retirement that it carried out, a
/// baseline that it stored, one that it misses. Nothing else does.
pub proof fn answers_wait_to_be_sent(
    frames: FramesModel,
    reliable: bool,
    wire: Wire,
    header: Header,
    unpacked: Unpacked,
)
    ensures
        ({
            let (open, opened) = frames.opening(reliable, wire);
            let (closed, taken) = frames.closing(header, unpacked);
            let (decoder, judged) = frames.decoder.closing(
                header,
                unpacked,
                frames.reassembly.limit,
            );
            &&& opened is Ok && opened->Ok_0 is Answer ==> open.feedback == answering(
                frames.feedback,
                opened->Ok_0->Answer_0,
            )
            &&& !(opened is Ok && opened->Ok_0 is Answer) ==> open.feedback == frames.feedback
            &&& judged is Ok && judged->Ok_0 is Some ==> closed.feedback == answering(
                frames.feedback,
                judged->Ok_0->0,
            )
            &&& !(judged is Ok && judged->Ok_0 is Some) ==> closed.feedback == frames.feedback
            &&& taken is Ok <==> judged is Ok
            &&& closed.decoder == decoder
            &&& open.latest_snapshot == frames.latest_snapshot
        }),
{
}

/// A packed checkpoint is handed on as the snapshot it holds once it was opened,
/// unpacked and taken; one that cannot be read, is refused or is ignored hands
/// nothing on.
pub proof fn checkpoints_are_handed_on(
    frames: FramesModel,
    reliable: bool,
    announced: Header,
    unpacked: Unpacked,
    id: u64,
)
    ensures
        ({
            let body = super::frames::Body::Packed {
                announced,
                actual: announced,
                unpacked: Some((unpacked, id)),
            };
            let unread = super::frames::Body::Packed {
                announced,
                actual: announced,
                unpacked: None,
            };
            let (open, opened) = frames.opening(
                reliable,
                Wire::Packed { announced, actual: announced },
            );
            let (closed, taken) = open.closing(announced, unpacked);
            let given = frames.delivering(reliable, body).1;
            &&& opened is Ok && opened->Ok_0 is Unpack && taken is Ok ==> frames.delivering(
                reliable,
                body,
            ) == closed.handing(reliable, Content::Snapshot(id))
            &&& opened is Ok && opened->Ok_0 is Unpack && taken is Err ==> given
                == Delivery::Refused(taken->Err_0)
            &&& opened is Ok && opened->Ok_0 is Unpack ==> frames.delivering(reliable, unread).1
                == Delivery::Unreadable
            &&& opened is Ok && !(opened->Ok_0 is Unpack) ==> given == Delivery::Nothing
            &&& opened is Err ==> given == Delivery::Refused(opened->Err_0)
            &&& given is Message ==> given == Delivery::Message(Content::Snapshot(id)) && id
                > frames.latest_snapshot
        }),
{
}

/// Frames that are dropped before they are whole are counted, whether they grew
/// old or made room.
pub proof fn dropped_frames_are_counted(state: ReassemblyModel, now_ns: u64, length: nat)
    requires
        state.incomplete + state.pending.len() <= u64::MAX,
    ensures
        state.after(now_ns).incomplete + state.after(now_ns).pending.len() == state.incomplete
            + state.pending.len(),
        state.making_room(length).incomplete + state.making_room(length).pending.len()
            == state.incomplete + state.pending.len(),
{
    super::reassembly::aging_keeps(state.pending, now_ns);
    super::reassembly::room_keeps(state.pending, length, state.limit as nat);
}

/// A new frame for which no room can be made is refused on the reliable lane and
/// passed over in silence on the other.
pub proof fn frames_without_room_are_left_out(
    state: ReassemblyModel,
    packet: Seq<u8>,
    now_ns: u64,
)
    requires
        read_fragment(packet, state.limit) is Ok,
        ({
            let said = read_fragment(packet, state.limit)->Ok_0;
            let young = state.after(now_ns);
            let spare = young.making_room(said.length as nat);
            &&& super::reassembly::place_of(young.pending, said.revision) >= young.pending.len()
            &&& spare.pending.len() >= 4 || held(spare.pending) + said.length > state.limit
        }),
    ensures
        ({
            let said = read_fragment(packet, state.limit)->Ok_0;
            let (after, arrival) = state.receiving(packet, now_ns);
            &&& said.reliable ==> arrival == Arrival::Refused(WireError::ReassemblyOverflow)
            &&& !said.reliable ==> arrival == Arrival::Waiting
            &&& after.pending == state.after(now_ns).making_room(said.length as nat).pending
        }),
{
}

/// What a checkpoint would take by itself is counted, whatever is sent; so are
/// the bytes of the world before packing and the differences decoded.
pub proof fn bytes_are_counted(
    encoder: Encoder,
    state: u64,
    source_len: usize,
    independent_len: u64,
    peer: PeerCodec,
    epoch: u64,
    decoder: Decoder,
    header: Header,
    unpacked: Unpacked,
    limit: usize,
)
    requires
        encoder.full_bytes + independent_len <= u64::MAX,
        peer.encoding.raw_world_bytes + source_len <= u64::MAX,
        decoder.deltas < u64::MAX,
    ensures
        encoder.choosing(state, source_len, independent_len).0.full_bytes == encoder.full_bytes
            + independent_len,
        peer.delta_begun(epoch, source_len).encoding.raw_world_bytes
            == peer.encoding.raw_world_bytes + source_len,
        peer.delta_begun(epoch, source_len).encoder == peer.encoder.begun(epoch),
        peer.delta_begun(epoch, source_len).revision == peer.revision,
        header.delta && unpacked.bytes <= limit ==> decoder.closing(header, unpacked, limit).0.deltas
            == decoder.deltas + 1,
        !header.delta ==> decoder.closing(header, unpacked, limit).0.deltas == decoder.deltas,
{
}

} // verus!
