//! Pilot input batches: `RMI2`, then a deflate stream of one count byte and 80
//! bytes per frame.
use super::bytes::{
    get_u32, get_u64, le_bytes, le_value, put_bytes, put_u32, put_u64, starts_with, tagged,
    u32_read_back, u64_read_back,
};
use super::compress::{deflated, inflated, pack, unpack};
use super::WireError;
use crate::input::{ChassisCommand, InputFrame};
use crate::simulation::command::Command;
use vstd::prelude::*;
use vstd::slice::slice_subrange;

verus! {

/// Frames of a batch at most.
pub const BATCH_FRAMES: usize = 12;

/// Bytes of one frame.
pub const FRAME_BYTES: usize = 80;

/// Bytes of the largest batch, inflated.
pub const BATCH_LIMIT: usize = 961;

/// One chassis' input frame.
#[derive(Clone, Copy, Debug, PartialEq, Eq, Structural)]
pub struct PilotInput {
    /// Chassis id.
    pub chassis: u32,
    /// The frame.
    pub frame: InputFrame,
}

/// The first four bytes of a batch: `RMI2`.
pub open spec fn batch_magic() -> Seq<u8> {
    seq![82, 77, 73, 50]
}

/// One frame on the wire: chassis, epoch, sequence, time, placement, duration
/// and the five numbers of the command.
pub open spec fn frame_bytes(input: PilotInput) -> Seq<u8> {
    let f = input.frame;
    let c = f.command;
    le_bytes(input.chassis as nat, 4) + le_bytes(f.input_epoch as nat, 8) + le_bytes(
        f.sequence as nat,
        8,
    ) + le_bytes(f.sampled_time_ns as nat, 8) + le_bytes(f.placement_revision as nat, 8)
        + le_bytes(f.duration_ticks as nat, 4) + le_bytes(c.forward_m_s as nat, 8) + le_bytes(
        c.left_m_s as nat,
        8,
    ) + le_bytes(c.yaw_rate_rad_s as nat, 8) + le_bytes(c.aim_yaw_rad as nat, 8) + le_bytes(
        c.aim_pitch_rad as nat,
        8,
    )
}

/// Frames one after the other.
pub open spec fn frames_bytes(inputs: Seq<PilotInput>) -> Seq<u8>
    decreases inputs.len(),
{
    if inputs.len() == 0 {
        Seq::empty()
    } else {
        frames_bytes(inputs.drop_last()) + frame_bytes(inputs.last())
    }
}

/// A batch before it is deflated: its count, then its frames.
pub open spec fn batch_bytes(inputs: Seq<PilotInput>) -> Seq<u8> {
    seq![inputs.len() as u8] + frames_bytes(inputs)
}

/// The frame that 80 bytes hold.
pub open spec fn read_frame(s: Seq<u8>) -> PilotInput {
    PilotInput {
        chassis: le_value(s.subrange(0, 4)) as u32,
        frame: InputFrame {
            input_epoch: le_value(s.subrange(4, 12)) as u64,
            sequence: le_value(s.subrange(12, 20)) as u64,
            sampled_time_ns: le_value(s.subrange(20, 28)) as u64,
            placement_revision: le_value(s.subrange(28, 36)) as u64,
            duration_ticks: le_value(s.subrange(36, 40)) as u32,
            command: ChassisCommand {
                forward_m_s: le_value(s.subrange(40, 48)) as u64,
                left_m_s: le_value(s.subrange(48, 56)) as u64,
                yaw_rate_rad_s: le_value(s.subrange(56, 64)) as u64,
                aim_yaw_rad: le_value(s.subrange(64, 72)) as u64,
                aim_pitch_rad: le_value(s.subrange(72, 80)) as u64,
            },
        },
    }
}

/// The frame at a place of an inflated batch.
pub open spec fn frame_at(bytes: Seq<u8>, i: int) -> PilotInput {
    read_frame(bytes.subrange(1 + i * 80, 1 + i * 80 + 80))
}

/// The count byte of an inflated batch.
pub open spec fn batch_count(bytes: Seq<u8>) -> nat {
    if bytes.len() == 0 {
        0
    } else {
        bytes[0] as nat
    }
}

/// What an inflated batch holds: a count of 1 to 12 that matches its length,
/// and finite commands.
pub open spec fn read_batch(bytes: Seq<u8>) -> Result<Seq<PilotInput>, WireError> {
    let n = batch_count(bytes);
    if !(1 <= n <= BATCH_FRAMES) || bytes.len() != 1 + n * 80 {
        Err(WireError::InputLength)
    } else {
        let frames = Seq::new(n, |i: int| frame_at(bytes, i));
        if exists|i: int| 0 <= i < n && !(#[trigger] frame_at(bytes, i)).frame.command.finite() {
            Err(WireError::NonFiniteInput)
        } else {
            Ok(frames)
        }
    }
}

/// A frame is read back from its bytes.
pub proof fn frame_read_back(input: PilotInput)
    ensures
        frame_bytes(input).len() == 80,
        read_frame(frame_bytes(input)) == input,
{
    let f = input.frame;
    let c = f.command;
    let s = frame_bytes(input);
    u32_read_back(input.chassis);
    u64_read_back(f.input_epoch);
    u64_read_back(f.sequence);
    u64_read_back(f.sampled_time_ns);
    u64_read_back(f.placement_revision);
    u32_read_back(f.duration_ticks);
    u64_read_back(c.forward_m_s);
    u64_read_back(c.left_m_s);
    u64_read_back(c.yaw_rate_rad_s);
    u64_read_back(c.aim_yaw_rad);
    u64_read_back(c.aim_pitch_rad);
    assert(s.subrange(0, 4) =~= le_bytes(input.chassis as nat, 4));
    assert(s.subrange(4, 12) =~= le_bytes(f.input_epoch as nat, 8));
    assert(s.subrange(12, 20) =~= le_bytes(f.sequence as nat, 8));
    assert(s.subrange(20, 28) =~= le_bytes(f.sampled_time_ns as nat, 8));
    assert(s.subrange(28, 36) =~= le_bytes(f.placement_revision as nat, 8));
    assert(s.subrange(36, 40) =~= le_bytes(f.duration_ticks as nat, 4));
    assert(s.subrange(40, 48) =~= le_bytes(c.forward_m_s as nat, 8));
    assert(s.subrange(48, 56) =~= le_bytes(c.left_m_s as nat, 8));
    assert(s.subrange(56, 64) =~= le_bytes(c.yaw_rate_rad_s as nat, 8));
    assert(s.subrange(64, 72) =~= le_bytes(c.aim_yaw_rad as nat, 8));
    assert(s.subrange(72, 80) =~= le_bytes(c.aim_pitch_rad as nat, 8));
}

/// Frames lie one after the other, 80 bytes each.
proof fn frames_lie_in_a_row(inputs: Seq<PilotInput>, i: int)
    ensures
        frames_bytes(inputs).len() == 80 * inputs.len(),
        0 <= i < inputs.len() ==> frames_bytes(inputs).subrange(80 * i, 80 * i + 80)
            == frame_bytes(inputs[i]),
    decreases inputs.len(),
{
    if inputs.len() > 0 {
        let head = frames_bytes(inputs.drop_last());
        frames_lie_in_a_row(inputs.drop_last(), i);
        frame_read_back(inputs.last());
        if 0 <= i < inputs.len() - 1 {
            assert(frames_bytes(inputs).subrange(80 * i, 80 * i + 80) =~= head.subrange(
                80 * i,
                80 * i + 80,
            ));
        } else if i == inputs.len() - 1 {
            assert(frames_bytes(inputs).subrange(80 * i, 80 * i + 80) =~= frame_bytes(
                inputs.last(),
            ));
        }
    }
}

/// A batch of 1 to 12 frames with finite commands is read back as it was
/// written, in its order.
pub proof fn batch_read_back(inputs: Seq<PilotInput>)
    requires
        1 <= inputs.len() <= BATCH_FRAMES,
        all_finite(inputs),
    ensures
        read_batch(batch_bytes(inputs)) == Ok::<Seq<PilotInput>, WireError>(inputs),
        batch_bytes(inputs).len() <= BATCH_LIMIT,
{
    let bytes = batch_bytes(inputs);
    frames_lie_in_a_row(inputs, 0);
    assert forall|i: int| 0 <= i < inputs.len() implies #[trigger] frame_at(bytes, i)
        == inputs[i] by {
        frames_lie_in_a_row(inputs, i);
        assert(bytes.subrange(1 + i * 80, 1 + i * 80 + 80) =~= frames_bytes(inputs).subrange(
            80 * i,
            80 * i + 80,
        ));
        frame_read_back(inputs[i]);
    }
    assert(Seq::new(inputs.len(), |i: int| frame_at(bytes, i)) =~= inputs);
}

/// Append one frame.
fn put_frame(out: &mut Vec<u8>, input: &PilotInput)
    ensures
        final(out)@ == old(out)@ + frame_bytes(*input),
{
    let frame = &input.frame;
    let command = &frame.command;
    put_u32(out, input.chassis);
    put_u64(out, frame.input_epoch);
    put_u64(out, frame.sequence);
    put_u64(out, frame.sampled_time_ns);
    put_u64(out, frame.placement_revision);
    put_u32(out, frame.duration_ticks);
    put_u64(out, command.forward_m_s);
    put_u64(out, command.left_m_s);
    put_u64(out, command.yaw_rate_rad_s);
    put_u64(out, command.aim_yaw_rad);
    put_u64(out, command.aim_pitch_rad);
    proof {
        assert(out@ =~= old(out)@ + frame_bytes(*input));
    }
}

/// The pilot input of a command, if it is one.
pub open spec fn pilot_input(command: Command) -> Option<PilotInput> {
    match command {
        Command::PilotInput { chassis, frame } => Some(PilotInput { chassis, frame }),
        _ => None,
    }
}

/// Every command is pilot input.
pub open spec fn all_inputs(commands: Seq<Command>) -> bool {
    forall|i: int| 0 <= i < commands.len() ==> pilot_input(#[trigger] commands[i]) is Some
}

/// The pilot inputs of commands that all are.
pub open spec fn inputs_of(commands: Seq<Command>) -> Seq<PilotInput> {
    commands.map_values(|command: Command| pilot_input(command)->0)
}

/// Every command is finite.
pub open spec fn all_finite(inputs: Seq<PilotInput>) -> bool {
    forall|i: int| 0 <= i < inputs.len() ==> (#[trigger] inputs[i]).frame.command.finite()
}

/// Encode an input batch, which [`decode_inputs`] gives back as long as every
/// command is finite. An empty batch, more than 12 frames and any command
/// that is not pilot input are refused.
pub fn input_batch(commands: &Vec<Command>) -> (r: Result<Vec<u8>, WireError>)
    ensures
        match r {
            Ok(packet) => {
                &&& 1 <= commands@.len() <= BATCH_FRAMES
                &&& all_inputs(commands@)
                &&& packet@ == batch_magic() + deflated(
                    batch_bytes(inputs_of(commands@)),
                    1,
                )
                &&& forall|limit: usize|
                    batch_bytes(inputs_of(commands@)).len() <= limit ==> #[trigger] inflated(
                        packet@.subrange(4, packet@.len() as int),
                        limit,
                    ) == Some(batch_bytes(inputs_of(commands@)))
                &&& all_finite(inputs_of(commands@)) ==> read_packet(packet@) == Ok::<
                    Seq<PilotInput>,
                    WireError,
                >(inputs_of(commands@))
            },
            Err(error) => if commands@.len() == 0 || commands@.len() > BATCH_FRAMES {
                error == WireError::InputCount
            } else {
                !all_inputs(commands@) && error == WireError::NotPilotInput
            },
        },
{
    let n: usize = commands.len();
    if n == 0 || n > BATCH_FRAMES {
        return Err(WireError::InputCount);
    }
    let mut bytes: Vec<u8> = Vec::new();
    bytes.push(n as u8);
    let ghost all = inputs_of(commands@);
    let mut i: usize = 0;
    proof {
        assert(bytes@ =~= seq![n as u8] + frames_bytes(all.subrange(0, 0)));
    }
    while i < n
        invariant
            i <= n <= BATCH_FRAMES,
            n == commands@.len(),
            all == inputs_of(commands@),
            forall|k: int| 0 <= k < i ==> pilot_input(#[trigger] commands@[k]) is Some,
            bytes@ == seq![n as u8] + frames_bytes(all.subrange(0, i as int)),
        decreases n - i,
    {
        match commands[i] {
            Command::PilotInput { chassis, frame } => {
                put_frame(&mut bytes, &PilotInput { chassis, frame });
                proof {
                    let seen = all.subrange(0, i + 1);
                    assert(seen.drop_last() =~= all.subrange(0, i as int));
                    assert(seen.last() == PilotInput { chassis, frame });
                    assert(bytes@ =~= seq![n as u8] + frames_bytes(seen));
                }
            },
            _ => {
                proof {
                    assert(pilot_input(commands@[i as int]) is None);
                }
                return Err(WireError::NotPilotInput);
            },
        }
        i += 1;
    }
    proof {
        assert(all.subrange(0, n as int) =~= all);
        assert(bytes@ =~= batch_bytes(all));
    }
    let stream = pack(&bytes);
    let mut packet: Vec<u8> = Vec::new();
    packet.push(82);
    packet.push(77);
    packet.push(73);
    packet.push(50);
    put_bytes(&mut packet, &stream);
    proof {
        assert(packet@ =~= batch_magic() + stream@);
        assert(packet@.subrange(4, packet@.len() as int) =~= stream@);
        assert(packet@.subrange(0, 4) =~= batch_magic());
        if all_finite(all) {
            batch_read_back(all);
        }
    }
    Ok(packet)
}

/// Read one frame.
fn get_frame(bytes: &[u8], at: usize) -> (r: PilotInput)
    requires
        at + 80 <= bytes@.len(),
    ensures
        r == read_frame(bytes@.subrange(at as int, at + 80)),
{
    proof {
        assert(bytes.len() == bytes@.len());
    }
    let frame = slice_subrange(bytes, at, at + 80);
    PilotInput {
        chassis: get_u32(frame, 0),
        frame: InputFrame {
            input_epoch: get_u64(frame, 4),
            sequence: get_u64(frame, 12),
            sampled_time_ns: get_u64(frame, 20),
            placement_revision: get_u64(frame, 28),
            duration_ticks: get_u32(frame, 36),
            command: ChassisCommand {
                forward_m_s: get_u64(frame, 40),
                left_m_s: get_u64(frame, 48),
                yaw_rate_rad_s: get_u64(frame, 56),
                aim_yaw_rad: get_u64(frame, 64),
                aim_pitch_rad: get_u64(frame, 72),
            },
        },
    }
}

/// Read an inflated batch.
pub fn decode_batch(bytes: &[u8]) -> (r: Result<Vec<PilotInput>, WireError>)
    ensures
        match r {
            Ok(inputs) => read_batch(bytes@) == Ok::<Seq<PilotInput>, WireError>(inputs@),
            Err(error) => read_batch(bytes@) == Err::<Seq<PilotInput>, WireError>(error),
        },
{
    let n: usize = if bytes.len() == 0 {
        0
    } else {
        bytes[0] as usize
    };
    if n < 1 || n > BATCH_FRAMES || bytes.len() != 1 + n * FRAME_BYTES {
        return Err(WireError::InputLength);
    }
    let mut inputs: Vec<PilotInput> = Vec::new();
    let mut i: usize = 0;
    while i < n
        invariant
            i <= n <= BATCH_FRAMES,
            n == batch_count(bytes@),
            bytes@.len() == 1 + n * 80,
            inputs@.len() == i,
            forall|k: int|
                0 <= k < i ==> (#[trigger] inputs@[k]) == frame_at(bytes@, k) && frame_at(
                    bytes@,
                    k,
                ).frame.command.finite(),
        decreases n - i,
    {
        let input = get_frame(bytes, 1 + i * FRAME_BYTES);
        proof {
            assert(input == frame_at(bytes@, i as int));
        }
        if !input.frame.command.is_finite() {
            return Err(WireError::NonFiniteInput);
        }
        inputs.push(input);
        i += 1;
    }
    proof {
        assert forall|k: int| 0 <= k < n implies (#[trigger] frame_at(
            bytes@,
            k,
        )).frame.command.finite() by {
            assert(inputs@[k] == frame_at(bytes@, k));
        }
        assert(inputs@ =~= Seq::new(n as nat, |k: int| frame_at(bytes@, k)));
    }
    Ok(inputs)
}

/// What a batch packet holds: its magic, then a deflate stream of at most
/// [`BATCH_LIMIT`] bytes that holds a batch.
pub open spec fn read_packet(packet: Seq<u8>) -> Result<Seq<PilotInput>, WireError> {
    if !tagged(packet, batch_magic()) {
        Err(WireError::InputMagic)
    } else {
        match inflated(packet.subrange(4, packet.len() as int), BATCH_LIMIT) {
            None => Err(WireError::Inflate),
            Some(bytes) => read_batch(bytes),
        }
    }
}

/// Decode an input batch in encoded order, oldest first. A missing magic, an
/// inflated size that does not match the count, a count outside 1 to 12 and
/// any non-finite command are refused.
pub fn decode_inputs(packet: &[u8]) -> (r: Result<Vec<PilotInput>, WireError>)
    ensures
        match r {
            Ok(inputs) => read_packet(packet@) == Ok::<Seq<PilotInput>, WireError>(inputs@),
            Err(error) => read_packet(packet@) == Err::<Seq<PilotInput>, WireError>(error),
        },
{
    let magic: [u8; 4] = [82, 77, 73, 50];
    proof {
        assert(magic@ =~= batch_magic());
    }
    if !starts_with(packet, &magic) {
        return Err(WireError::InputMagic);
    }
    let stream = slice_subrange(packet, 4, packet.len());
    match unpack(stream, BATCH_LIMIT) {
        Err(error) => Err(error),
        Ok(bytes) => decode_batch(&bytes),
    }
}

} // verus!
