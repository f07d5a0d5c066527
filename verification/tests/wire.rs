use rm_simulator::input::{ChassisCommand, InputFrame};
use rm_simulator::simulation::command::Command;
use rm_simulator::simulation::shots::AimedShot;
use rm_simulator::target::Team;
use rm_simulator::wire::baseline::{Feedback, Header, Opened, Retire, Unpacked, Wire};
use rm_simulator::wire::client::{ClientCodec, Control, Incoming, QueuedCommand, Upstream};
use rm_simulator::wire::compress::{pack, unpack};
use rm_simulator::wire::frames::{Body, Content, Delivery, Frames};
use rm_simulator::wire::history::select_inputs;
use rm_simulator::wire::inputs::{decode_batch, decode_inputs, input_batch, PilotInput};
use rm_simulator::wire::message::{
    decode_client_message, decode_player_message, encode_client_message, encode_player_message,
};
use rm_simulator::wire::packet::{packets, CHUNK, HEADER};
use rm_simulator::wire::peer::{
    command_payload, Datagram, HostPeer, Outbound, PeerCodec, PeerRequest, Pump, PumpAction,
    PumpEvent, Said, SendPlan, Submission, Welcome, COMMAND_LIMIT,
};
use rm_simulator::wire::WireError;
use serde_json::Value;

const MAX_WIRE: usize = 4 * 1024 * 1024;

fn bits(x: f64) -> u64 {
    x.to_bits()
}

fn sample(chassis: u32, sequence: u64, forward: f64, aim_yaw: f64) -> InputFrame {
    let _ = chassis;
    InputFrame {
        input_epoch: 0,
        sequence,
        sampled_time_ns: sequence * 16_000_000,
        duration_ticks: 16,
        placement_revision: 0,
        command: ChassisCommand {
            forward_m_s: bits(forward),
            aim_yaw_rad: bits(aim_yaw),
            ..ChassisCommand::default()
        },
    }
}

fn sequence_of(command: &Command) -> u64 {
    match command {
        Command::PilotInput { frame, .. } => frame.sequence,
        _ => panic!("not pilot input"),
    }
}

fn history() -> Vec<Command> {
    (1..=20)
        .map(|sequence| Command::PilotInput {
            chassis: 1,
            frame: sample(
                1,
                sequence,
                if sequence < 8 { 2. } else { 0. },
                sequence as f64 * 0.0123456789123456,
            ),
        })
        .collect()
}

#[test]
fn redundant_history_retains_release_and_stays_below_one_datagram() {
    let mut history = history();
    let selected = select_inputs(&history, 12);
    assert!(selected.iter().any(|c| sequence_of(c) == 8));
    assert_eq!(select_inputs(&history, 4).len(), 4);
    let decoded = decode_inputs(&input_batch(&selected).unwrap()).unwrap();
    let latest = decoded.iter().max_by_key(|i| i.frame.sequence).unwrap();
    assert_eq!(latest.frame.sequence, 20);
    assert_eq!(f64::from_bits(latest.frame.command.forward_m_s), 0.);
    let maximal: Vec<Command> = history.iter().rev().take(12).copied().collect();
    assert!(input_batch(&maximal).unwrap().len() <= 1_000);
    let last = history.len() - 1;
    let Command::PilotInput { frame, .. } = &mut history[last] else {
        unreachable!()
    };
    frame.input_epoch = 1;
    assert_eq!(select_inputs(&history, 12).len(), 1);
}

#[test]
fn selection_keeps_the_newest_four_and_the_newest_transitions() {
    let history = history();
    let chosen: Vec<u64> = select_inputs(&history, 12).iter().map(sequence_of).collect();
    // 250 ms hold samples 5 to 20; only 8 changes direction among the older.
    assert_eq!(chosen, [8, 17, 18, 19, 20]);
    assert!(select_inputs(&Vec::new(), 12).is_empty());
    assert!(select_inputs(&vec![Command::ClearBots], 12).is_empty());
    // A sample of another chassis or placement is not useful.
    let mut mixed = history.clone();
    mixed.insert(19, Command::PilotInput { chassis: 2, frame: sample(2, 19, 0., 0.) });
    let chosen: Vec<u64> = select_inputs(&mixed, 4).iter().map(sequence_of).collect();
    assert_eq!(chosen, [17, 18, 19, 20]);
    // Many transitions: the newest ones ride, as many as there is room for.
    let zigzag: Vec<Command> = (1..=12)
        .map(|sequence| Command::PilotInput {
            chassis: 1,
            frame: sample(1, sequence, if sequence % 2 == 0 { 1. } else { -1. }, 0.),
        })
        .collect();
    let chosen: Vec<u64> = select_inputs(&zigzag, 6).iter().map(sequence_of).collect();
    assert_eq!(chosen, [7, 8, 9, 10, 11, 12]);
    // Less than 0.1 is no movement, and not a number counts as backwards.
    let edge = |value: f64| Command::PilotInput { chassis: 1, frame: sample(1, 2, value, 0.) };
    let rest: Vec<Command> = (3..=6)
        .map(|s| Command::PilotInput { chassis: 1, frame: sample(1, s, 0., 0.) })
        .collect();
    for (value, length) in [(0.0999, 4), (0.1, 5), (-0.1, 5), (f64::NAN, 5)] {
        let mut samples =
            vec![Command::PilotInput { chassis: 1, frame: sample(1, 1, 0., 0.) }, edge(value)];
        samples.extend(rest.iter().copied());
        assert_eq!(select_inputs(&samples, 12).len(), length, "{value}");
    }
}

fn object(fields: Vec<(&str, Value)>) -> Value {
    let mut map = serde_json::Map::new();
    for (name, value) in fields {
        map.insert(name.to_string(), value);
    }
    Value::Object(map)
}

fn json_of(input: &PilotInput) -> Vec<u8> {
    let command = input.frame.command;
    let number = |x: u64| Value::from(f64::from_bits(x));
    let frame = object(vec![
        ("input_epoch", Value::from(input.frame.input_epoch)),
        ("sequence", Value::from(input.frame.sequence)),
        ("sampled_time_ns", Value::from(input.frame.sampled_time_ns)),
        ("duration_ticks", Value::from(input.frame.duration_ticks)),
        ("placement_revision", Value::from(input.frame.placement_revision)),
        (
            "command",
            object(vec![
                ("forward_m_s", number(command.forward_m_s)),
                ("left_m_s", number(command.left_m_s)),
                ("yaw_rate_rad_s", number(command.yaw_rate_rad_s)),
                ("aim_yaw_rad", number(command.aim_yaw_rad)),
                ("aim_pitch_rad", number(command.aim_pitch_rad)),
            ]),
        ),
    ]);
    let pilot = object(vec![("chassis", Value::from(input.chassis)), ("frame", frame)]);
    serde_json::to_vec(&object(vec![("Command", object(vec![("PilotInput", pilot)]))])).unwrap()
}

#[test]
fn compressed_input_history_preserves_samples_and_bounds_decoding() {
    let mut inputs: Vec<Command> = Vec::new();
    for sequence in 1..=4 {
        inputs.push(Command::PilotInput {
            chassis: 7,
            frame: InputFrame {
                input_epoch: 2,
                sequence,
                sampled_time_ns: sequence * 16_000_000,
                duration_ticks: 16,
                placement_revision: 3,
                command: ChassisCommand {
                    forward_m_s: bits(1.5),
                    aim_yaw_rad: bits(0.7),
                    ..ChassisCommand::default()
                },
            },
        });
    }
    let packet = input_batch(&inputs).unwrap();
    let decoded = decode_inputs(&packet).unwrap();
    let again: Vec<Command> = decoded
        .iter()
        .map(|i| Command::PilotInput { chassis: i.chassis, frame: i.frame })
        .collect();
    assert_eq!(again, inputs);
    let previous_bytes: usize = decoded.iter().map(|input| json_of(input).len()).sum();
    assert!(packet.len() * 2 < previous_bytes);
    assert!(packet.len() < CHUNK);
    while inputs.len() <= 12 {
        inputs.push(*inputs.last().unwrap());
    }
    assert!(input_batch(&inputs).is_err());
    inputs.clear();
    inputs.push(Command::Pause { paused: true });
    assert!(input_batch(&inputs).is_err());
    let mut bomb = b"RMI2".to_vec();
    bomb.extend(pack(&vec![b' '; 16 * 1024 + 1]));
    assert!(decode_inputs(&bomb).is_err());
}

#[test]
fn input_batches_have_a_fixed_layout_and_name_their_errors() {
    let input = Command::PilotInput { chassis: 0x0403_0201, frame: sample(0, 5, 1.0, 0.) };
    let packet = input_batch(&vec![input]).unwrap();
    assert_eq!(&packet[..4], b"RMI2");
    let bytes = unpack(&packet[4..], 961).unwrap();
    assert_eq!(bytes.len(), 81);
    assert_eq!(bytes[..5], [1, 1, 2, 3, 4]);
    assert_eq!(bytes[13..21], [5, 0, 0, 0, 0, 0, 0, 0]);
    assert_eq!(bytes[37..41], [16, 0, 0, 0]);
    assert_eq!(bytes[41..49], 1.0f64.to_le_bytes());
    assert_eq!(input_batch(&Vec::new()), Err(WireError::InputCount));
    assert_eq!(input_batch(&vec![input; 13]), Err(WireError::InputCount));
    assert_eq!(input_batch(&vec![input, Command::ClearBots]), Err(WireError::NotPilotInput));
    assert_eq!(decode_inputs(b"RMI1"), Err(WireError::InputMagic));
    assert_eq!(decode_inputs(b"RM"), Err(WireError::InputMagic));
    assert_eq!(decode_inputs(b"RMI2\xff\xff"), Err(WireError::Inflate));
    assert_eq!(decode_batch(&[]), Err(WireError::InputLength));
    assert_eq!(decode_batch(&[0]), Err(WireError::InputLength));
    assert_eq!(decode_batch(&bytes[..80]), Err(WireError::InputLength));
    let mut thirteen = vec![13u8];
    thirteen.extend(vec![0; 13 * 80]);
    assert_eq!(decode_batch(&thirteen), Err(WireError::InputLength));
    let mut infinite = bytes.clone();
    infinite[41..49].copy_from_slice(&f64::INFINITY.to_le_bytes());
    assert_eq!(decode_batch(&infinite), Err(WireError::NonFiniteInput));
    assert_eq!(WireError::NonFiniteInput.message(), "non-finite input");
    assert_eq!(WireError::InputCount.message(), "invalid input count");
    assert_eq!(WireError::NotPilotInput.message(), "non-pilot input");
}

/// A snapshot message: its number, then filler that does not compress.
fn snapshot(id: u64) -> Vec<u8> {
    let mut body = id.to_le_bytes().to_vec();
    let mut state = id + 1;
    for _ in 0..6000 {
        state = state.wrapping_mul(6364136223846793005).wrapping_add(1442695040888963407);
        body.push((state >> 33) as u8);
    }
    encode_player_message(&body)
}

fn encoded(revision: u64, reliable: bool, message: &[u8]) -> Vec<Vec<u8>> {
    packets(revision, reliable, &pack(message), MAX_WIRE).unwrap()
}

/// Receive a packet that carries snapshots; the delivered snapshot's number.
fn receive(frames: &mut Frames, packet: &[u8], now_ns: u64) -> Result<Option<u64>, WireError> {
    let Some(frame) = frames.receive(packet, now_ns)? else {
        return Ok(None);
    };
    let body = decode_player_message(&frame.bytes)?;
    let id = u64::from_le_bytes(body[..8].try_into().unwrap());
    Ok(frames.accept(frame.reliable, Content::Snapshot(id))?.then_some(id))
}

#[test]
fn loss_reordering_and_duplicates_do_not_break_next_snapshot() {
    let mut frames = Frames::new(MAX_WIRE);
    let first = encoded(1, false, &snapshot(2));
    assert!(first.len() > 1);
    // Lose the end of one frame; receive the next in reverse order.
    for packet in first.iter().take(first.len() - 1) {
        assert!(receive(&mut frames, packet, 0).unwrap().is_none());
    }
    let next = encoded(2, false, &snapshot(3));
    let mut result = None;
    for packet in next.iter().rev() {
        result = receive(&mut frames, packet, 0).unwrap().or(result);
        assert!(receive(&mut frames, packet, 0).unwrap().is_none());
    }
    assert_eq!(result, Some(3));
    for packet in first {
        assert!(receive(&mut frames, &packet, 0).unwrap().is_none());
    }
    // A delayed reliable confirmation must not regress newer periodic state.
    for packet in encoded(1, true, &snapshot(2)) {
        assert!(receive(&mut frames, &packet, 0).unwrap().is_none());
    }
    let mut pong = None;
    for packet in encoded(3, true, &encode_player_message(b"pong 7")) {
        pong = frames.receive(&packet, 0).unwrap().or(pong);
    }
    let pong = pong.unwrap();
    assert_eq!(decode_player_message(&pong.bytes).unwrap(), b"pong 7");
    assert_eq!(frames.accept(pong.reliable, Content::Control), Ok(true));
}

#[test]
fn repeated_old_baseline_cannot_hide_a_newer_confirmation() {
    let mut frames = Frames::new(MAX_WIRE);
    // A retried bootstrap baseline has a newer transport ordinal but old host state.
    for packet in encoded(100, false, &snapshot(1)) {
        receive(&mut frames, &packet, 0).unwrap();
    }
    let mut confirmed = None;
    for packet in encoded(50, true, &snapshot(5)) {
        confirmed = receive(&mut frames, &packet, 0).unwrap().or(confirmed);
    }
    assert_eq!(confirmed, Some(5));
}

#[test]
fn malformed_and_oversized_frames_are_rejected() {
    let mut frames = Frames::new(MAX_WIRE);
    assert!(frames.receive(b"bad", 0).is_err());
    let bomb = pack(&vec![0; MAX_WIRE + 1]);
    let mut failed = false;
    for packet in packets(1, true, &bomb, MAX_WIRE).unwrap() {
        failed |= frames.receive(&packet, 0).is_err();
    }
    assert!(failed);
    let notice = encoded(2, false, &encode_player_message(b"bad lane"));
    let frame = frames.receive(&notice[0], 0).unwrap().unwrap();
    assert_eq!(frames.accept(frame.reliable, Content::Control), Err(WireError::UnreliableControl));
}

#[test]
fn fragments_have_a_fixed_header() {
    let bytes: Vec<u8> = (0..2500u32).map(|i| i as u8).collect();
    let out = packets(0x0807_0605_0403_0201, true, &bytes, MAX_WIRE).unwrap();
    assert_eq!(out.len(), 3);
    assert_eq!(out[1].len(), HEADER + 1000);
    assert_eq!(out[2].len(), HEADER + 500);
    assert_eq!(&out[2][..4], b"RMG1");
    assert_eq!(out[2][4..21], [1, 1, 2, 3, 4, 5, 6, 7, 8, 0xc4, 9, 0, 0, 2, 0, 0, 0]);
    assert_eq!(out[2][21..], bytes[2000..]);
    assert_eq!(packets(1, false, &[], 10), Err(WireError::FrameSize));
    assert_eq!(packets(1, false, &[0; 11], 10), Err(WireError::FrameSize));
    assert_eq!(packets(1, false, &[0; 10], 10).unwrap().len(), 1);
}

#[test]
fn broken_fragments_are_refused() {
    let mut frames = Frames::new(5000);
    let whole = packets(7, false, &[9; 2500], 5000).unwrap();
    let mut lane = whole[0].clone();
    lane[4] = 2;
    assert_eq!(frames.receive(&lane, 0).unwrap_err(), WireError::FragmentHeader);
    let mut magic = whole[0].clone();
    magic[3] = b'2';
    assert_eq!(frames.receive(&magic, 0).unwrap_err(), WireError::FragmentHeader);
    assert_eq!(frames.receive(&whole[0][..20], 0).unwrap_err(), WireError::FragmentHeader);
    assert_eq!(frames.receive(&whole[0][..1020], 0).unwrap_err(), WireError::FragmentSize);
    let mut index = whole[0].clone();
    index[17] = 3;
    assert_eq!(frames.receive(&index, 0).unwrap_err(), WireError::FragmentSize);
    let unnumbered = packets(0, false, &[9; 10], 5000).unwrap();
    assert_eq!(frames.receive(&unnumbered[0], 0).unwrap_err(), WireError::FragmentSize);
    let long = packets(7, false, &[9; 5001], 6000).unwrap();
    assert_eq!(frames.receive(&long[0], 0).unwrap_err(), WireError::FragmentSize);
    // Fragments of one revision with another length or lane.
    assert!(frames.receive(&whole[0], 0).unwrap().is_none());
    let other = packets(7, false, &[9; 2400], 5000).unwrap();
    assert_eq!(frames.receive(&other[1], 0).unwrap_err(), WireError::InconsistentFragments);
    let reliable = packets(7, true, &[9; 2500], 5000).unwrap();
    assert_eq!(frames.receive(&reliable[1], 0).unwrap_err(), WireError::InconsistentFragments);
    // Bytes that do not inflate.
    assert!(frames.receive(&whole[2], 0).unwrap().is_none());
    assert_eq!(frames.receive(&whole[1], 0).unwrap_err(), WireError::Inflate);
}

#[test]
fn partial_frames_age_and_make_room() {
    let mut frames = Frames::new(10_000);
    let split = |revision: u64, reliable: bool| packets(revision, reliable, &[1; 2000], 10_000);
    for revision in 1..=4 {
        let packet = &split(revision, revision == 1).unwrap()[0];
        assert!(frames.receive(packet, revision).unwrap().is_none());
    }
    assert_eq!(frames.reassembly.pending.len(), 4);
    // A fifth frame drops the first unreliable one.
    frames.receive(&split(5, false).unwrap()[0], 10).unwrap();
    let left: Vec<u64> = frames.reassembly.pending.iter().map(|f| f.revision).collect();
    assert_eq!(left, [1, 3, 4, 5]);
    assert_eq!(frames.reassembly.incomplete, 1);
    // Unreliable frames are given up after their lifetime, reliable ones wait.
    frames.receive(&split(6, false).unwrap()[0], 250_000_005).unwrap();
    let left: Vec<u64> = frames.reassembly.pending.iter().map(|f| f.revision).collect();
    assert_eq!(left, [1, 5, 6]);
    assert_eq!(frames.reassembly.incomplete, 3);
    // Reliable frames hold their bytes: an unreliable one finds no room and is
    // dropped, a reliable one is an error.
    let mut full = Frames::new(4000);
    for revision in 1..=2 {
        full.receive(&packets(revision, true, &[1; 2000], 4000).unwrap()[0], 0).unwrap();
    }
    assert!(full.receive(&packets(3, false, &[1; 10], 4000).unwrap()[0], 0).unwrap().is_none());
    assert_eq!(
        full.receive(&packets(3, true, &[1; 10], 4000).unwrap()[0], 0).unwrap_err(),
        WireError::ReassemblyOverflow
    );
}

#[test]
fn fragments_in_any_order_give_the_frame_back() {
    let body: Vec<u8> = snapshot(4);
    let stream = pack(&body);
    let parts = packets(9, true, &stream, MAX_WIRE).unwrap();
    let n = parts.len();
    assert!(n >= 6);
    for step in [1, 5, 7] {
        let mut frames = Frames::new(MAX_WIRE);
        let mut got = None;
        for k in 0..2 * n {
            let packet = &parts[(k * step) % n];
            if got.is_none() {
                got = frames.receive(packet, 0).unwrap();
            }
        }
        if n % step != 0 || step == 1 {
            assert_eq!(got.unwrap().bytes, body);
        }
    }
}

#[test]
fn messages_stand_behind_their_magic() {
    assert_eq!(encode_player_message(b"x"), b"RMM1x");
    assert_eq!(encode_client_message(b"y"), b"RMQ1y");
    assert_eq!(decode_player_message(b"RMM1x").unwrap(), b"x");
    assert_eq!(decode_client_message(b"RMQ1").unwrap(), b"");
    assert_eq!(decode_player_message(b"RMQ1x"), Err(WireError::ServerMagic));
    assert_eq!(decode_client_message(b"RMM1x"), Err(WireError::ClientMagic));
    assert_eq!(decode_client_message(b"RM"), Err(WireError::ClientMagic));
    assert_eq!(WireError::ServerMagic.message(), "not a server message");
    assert_eq!(WireError::ClientMagic.message(), "not a client message");
}

#[test]
fn compression_has_a_limit() {
    let text = vec![7u8; 5000];
    let stream = pack(&text);
    assert!(stream.len() < 100);
    assert_eq!(unpack(&stream, 5000).unwrap(), text);
    assert_eq!(unpack(&stream, 4999), Err(WireError::Inflate));
    assert_eq!(unpack(&[0xff], 10), Err(WireError::Inflate));
    // A limit of exactly the contents is enough, whatever they are.
    for length in (0..300usize).chain([961, 4096, 40_000, 70_000]) {
        let even = vec![length as u8; length];
        let mut state = length as u64 + 1;
        let mixed: Vec<u8> = (0..length)
            .map(|_| {
                state = state.wrapping_mul(6364136223846793005).wrapping_add(1442695040888963407);
                (state >> 33) as u8
            })
            .collect();
        for bytes in [even, mixed] {
            assert_eq!(unpack(&pack(&bytes), length).unwrap(), bytes);
            if length > 0 {
                assert_eq!(unpack(&pack(&bytes), length - 1), Err(WireError::Inflate));
            }
        }
    }
}

fn peer() -> HostPeer {
    HostPeer::new(100, false, MAX_WIRE)
}

fn welcome() -> Welcome {
    Welcome { client_id: 9, chassis: Some(3), protocol: 20 }
}

fn refused(request: Result<PeerRequest, WireError>) -> WireError {
    match request {
        Err(error) => error,
        Ok(_) => panic!("accepted"),
    }
}

#[test]
fn datagrams_are_sorted_by_their_magic() {
    let mut peer = peer();
    assert_eq!(refused(peer.deliver(&[0; 64 * 1024 + 1])), WireError::TooLarge);
    let stored = Feedback::encode(br#"{"Stored":{"epoch":4,"id":2}}"#);
    let batch =
        input_batch(&vec![Command::PilotInput { chassis: 3, frame: sample(3, 1, 1., 0.) }]).unwrap();
    assert_eq!(refused(peer.deliver(&stored)), WireError::ExpectedHello);
    assert_eq!(refused(peer.deliver(&batch)), WireError::ExpectedHello);
    peer.join(welcome());
    assert!(matches!(peer.deliver(&stored), Ok(PeerRequest::Feedback(json))
        if json == br#"{"Stored":{"epoch":4,"id":2}}"#));
    assert!(matches!(peer.deliver(&batch), Ok(PeerRequest::Inputs(inputs))
        if inputs.len() == 1 && inputs[0].chassis == 3));
    let mut long = b"RMA1".to_vec();
    long.extend(vec![b' '; 253]);
    assert_eq!(refused(peer.deliver(&long)), WireError::Feedback);
    assert!(matches!(peer.deliver(b"{\"Ping\":1}"), Ok(PeerRequest::Message(json))
        if json == b"{\"Ping\":1}"));
    let shot = command_payload(b"{\"Command\":2}");
    assert!(shot.starts_with(b"RMC1"));
    assert!(matches!(peer.deliver(&shot), Ok(PeerRequest::Message(json))
        if json == b"{\"Command\":2}"));
    let bomb = command_payload(&vec![b' '; COMMAND_LIMIT + 1]);
    assert_eq!(refused(peer.deliver(&bomb)), WireError::Inflate);
}

#[test]
fn feedback_is_framed_and_bounded() {
    let bytes = Feedback::encode(b"{}");
    assert_eq!(bytes, b"RMA1{}");
    assert_eq!(Feedback::decode(&bytes).unwrap(), b"{}");
    assert_eq!(Feedback::decode(b"RMG1nonsense"), Err(WireError::Feedback));
    assert_eq!(Feedback::decode(&[b'R'; 257]), Err(WireError::Feedback));
}

#[test]
fn a_peer_is_seated_by_its_hello() {
    let mut peer = peer();
    assert_eq!(peer.admitted(), 100);
    assert_eq!(peer.client_id(), None);
    assert_eq!(peer.welcome(), None);
    assert_eq!(peer.submit(Said::Other, 20), Err(WireError::ExpectedHello));
    assert_eq!(peer.submit(Said::Hello { protocol: 19 }, 20), Err(WireError::Protocol));
    assert_eq!(peer.submit(Said::Hello { protocol: 20 }, 20), Ok(Submission::Join));
    peer.join(welcome());
    assert_eq!(peer.client_id(), Some(9));
    assert_eq!(peer.welcome(), Some(welcome()));
    assert_eq!(peer.submit(Said::Other, 20), Ok(Submission::Seat(9)));
    assert!(!peer.closed());
    peer.close();
    assert!(peer.closed());
}

#[test]
fn pumping_moves_frames_then_a_report_then_packets() {
    let mut peer = peer();
    let turn = Pump { frames: 2, datagrams: 2 };
    // Without a seat only packets move.
    assert_eq!(peer.pump(2_000_000_000, turn, PumpEvent::Start), (turn, PumpAction::Packet));
    peer.join(welcome());
    let now = 1_000_000_100;
    let (turn, action) = peer.pump(now, turn, PumpEvent::Start);
    assert_eq!(action, PumpAction::Frame);
    let (turn, action) = peer.pump(now, turn, PumpEvent::Sent);
    assert_eq!(action, PumpAction::Frame);
    let (turn, action) = peer.pump(now, turn, PumpEvent::Empty);
    assert_eq!(action, PumpAction::Report);
    let (turn, action) = peer.pump(now, turn, PumpEvent::Reported);
    assert_eq!(action, PumpAction::Packet);
    let packet = Datagram { reliable: true, bytes: vec![1, 2] };
    let (turn, action) = peer.pump(now, turn, PumpEvent::Packet(packet.clone()));
    assert_eq!(action, PumpAction::Packet);
    let (turn, action) = peer.pump(now, turn, PumpEvent::Dry);
    assert_eq!(action, PumpAction::Done);
    assert_eq!(turn, Pump { frames: 0, datagrams: 0 });
    assert_eq!(peer.take_outgoing(), [packet]);
    assert!(peer.take_outgoing().is_empty());
    // The next report waits a second.
    let none = Pump { frames: 0, datagrams: 0 };
    assert_eq!(peer.pump(now + 999_999_999, none, PumpEvent::Start).1, PumpAction::Done);
    assert_eq!(peer.pump(now + 1_000_000_000, none, PumpEvent::Start).1, PumpAction::Report);
}

#[test]
fn frames_are_numbered_counted_and_skipped_under_congestion() {
    let mut codec = PeerCodec::new(100, false, MAX_WIRE);
    let world = Outbound { periodic: true, snapshot: true };
    let control = Outbound { periodic: false, snapshot: true };
    assert_eq!(codec.elapsed_ns(350), 250);
    assert_eq!(codec.elapsed_ns(50), 0);
    assert_eq!(codec.anchored(world), None);
    codec.seated(Some(3));
    assert_eq!(codec.anchored(world), Some(3));
    assert_eq!(codec.anchored(control), None);
    codec.note_anchor(40);
    assert_eq!((codec.encoding.owner_updates, codec.encoding.owner_bytes), (1, 40));
    assert_eq!(codec.plan_send(world, 64 * 1024 + 1), SendPlan::Skip);
    assert_eq!(codec.encoding.skipped_world_updates, 1);
    assert_eq!(codec.plan_send(world, 64 * 1024), SendPlan::Delta);
    assert_eq!(codec.plan_send(control, 64 * 1024 + 1), SendPlan::Plain);
    let mut plain = PeerCodec::new(0, true, MAX_WIRE);
    assert_eq!(plain.plan_send(world, 0), SendPlan::Plain);
    let out = codec.frame(true, &[5; 1500]).unwrap();
    assert_eq!(out, packets(1, false, &[5; 1500], MAX_WIRE).unwrap());
    assert_eq!(codec.encoding.world_updates, 1);
    assert_eq!(codec.encoding.framed_world_bytes, 1542);
    let out = codec.frame(false, &[5; 10]).unwrap();
    assert_eq!(out, packets(2, true, &[5; 10], MAX_WIRE).unwrap());
    assert_eq!(codec.encoding.world_updates, 1);
    assert_eq!(codec.frame(false, &[]), Err(WireError::FrameSize));
    assert_eq!(codec.revision, 3);
    codec.revision = u64::MAX;
    assert_eq!(codec.frame(false, &[1]), Err(WireError::RevisionOverflow));
}

#[test]
fn a_client_takes_one_welcome_and_newer_anchors_only() {
    let mut client = ClientCodec::new(12, MAX_WIRE);
    assert!(matches!(client.receive(b"RMO3whatever", 0), Ok(Incoming::Anchor)));
    assert!(!client.anchor(5));
    assert_eq!(client.welcome(19, 20), Err(WireError::Welcome));
    assert_eq!(client.welcome(20, 20), Ok(()));
    assert_eq!(client.welcome(20, 20), Err(WireError::Welcome));
    assert!(client.anchor(5));
    assert!(!client.anchor(5));
    assert!(!client.anchor(4));
    assert!(client.anchor(6));
    let parts = encoded(1, true, b"hello");
    assert!(matches!(client.receive(&parts[0], 0), Ok(Incoming::Frame(f)) if f.bytes == b"hello"));
    let stats = client.stats();
    assert_eq!((stats.incomplete_frames, stats.complete_snapshots), (0, 0));
    assert_eq!(client.pinned_baselines(), 0);
    assert!(matches!(client.receive(b"nonsense", 0), Err(WireError::FragmentHeader)));
}

#[test]
fn samples_travel_as_they_are_even_where_no_host_will_take_them() {
    let mut client = ClientCodec::new(12, MAX_WIRE);
    let command = Command::PilotInput { chassis: 1, frame: sample(1, 1, f64::NAN, 0.) };
    let queued = QueuedCommand { command: Some(command), time_probe: None, confirmation: None };
    let Ok(Upstream::Inputs(batch)) = client.submit(queued) else { panic!("not a batch") };
    assert_eq!(batch, input_batch(&vec![command]).unwrap());
    assert_eq!(decode_inputs(&batch).unwrap_err(), WireError::NonFiniteInput);
}

#[test]
fn commands_travel_by_kind() {
    let mut client = ClientCodec::new(12, MAX_WIRE);
    let queued = |command: Option<Command>| QueuedCommand {
        command,
        time_probe: None,
        confirmation: None,
    };
    for sequence in 1..=40 {
        let command = Command::PilotInput { chassis: 1, frame: sample(1, sequence, 1., 0.) };
        let Ok(Upstream::Inputs(batch)) = client.submit(queued(Some(command))) else {
            panic!("not a batch")
        };
        let inputs = decode_inputs(&batch).unwrap();
        assert_eq!(inputs.last().unwrap().frame.sequence, sequence);
    }
    assert_eq!(client.recent_inputs.len(), 32);
    let input = Command::PilotInput { chassis: 1, frame: sample(1, 41, 1., 0.) };
    let confirmed = QueuedCommand {
        command: Some(input),
        time_probe: Some(4),
        confirmation: Some(5),
    };
    let Ok(Upstream::Controls(messages)) = client.submit(confirmed) else {
        panic!("not control")
    };
    assert_eq!(messages, [Control::Command(input), Control::TimeProbe(4), Control::Ping(5)]);
    assert_eq!(client.recent_inputs.len(), 32);
    let shot = AimedShot {
        shooter: 1,
        shot_id: 2,
        input: sample(1, 3, 0., 0.),
        timing: None,
    };
    assert!(matches!(
        client.submit(queued(Some(Command::FireAimed(shot)))),
        Ok(Upstream::Shot(sent)) if sent == shot
    ));
    let bot = Command::SpawnBot { team: Team::Red, spin_rad_s: 0 };
    assert!(matches!(
        client.submit(queued(Some(bot))),
        Ok(Upstream::Controls(messages)) if messages == [Control::Command(bot)]
    ));
    assert!(matches!(
        client.submit(queued(None)),
        Ok(Upstream::Controls(messages)) if messages.is_empty()
    ));
    // A limit above a batch's frames can choose too many.
    let mut eager = ClientCodec::new(20, MAX_WIRE);
    let mut last = Ok(());
    for sequence in 1..=14 {
        let forward = if sequence % 2 == 0 { 1. } else { -1. };
        let command = Command::PilotInput { chassis: 1, frame: sample(1, sequence, forward, 0.) };
        last = eager.submit(queued(Some(command))).map(|_| ());
    }
    assert_eq!(last, Err(WireError::InputCount));
}

#[test]
fn what_a_host_frames_a_client_reads() {
    let body: Vec<u8> = snapshot(11);
    let mut host = PeerCodec::new(0, true, MAX_WIRE);
    let mut client = ClientCodec::new(12, MAX_WIRE);
    let first = host.frame(true, &pack(&body)).unwrap();
    let second = host.frame(false, &pack(b"control")).unwrap();
    // Fragments of both frames, mixed and repeated.
    let mut got = Vec::new();
    for packet in first.iter().rev().chain(&second).chain(&first[1..]) {
        if let Incoming::Frame(frame) = client.receive(packet, 5).unwrap() {
            got.push((frame.reliable, frame.bytes));
        }
    }
    assert_eq!(got, [(false, body), (true, b"control".to_vec())]);
}

/// Receive a packet of control messages.
fn take_control(frames: &mut Frames, packet: &[u8]) -> Delivery {
    match frames.receive(packet, 0) {
        Err(error) => Delivery::Refused(error),
        Ok(None) => Delivery::Nothing,
        Ok(Some(frame)) => {
            decode_player_message(&frame.bytes).unwrap();
            frames.deliver(frame.reliable, Body::Message(Content::Control))
        }
    }
}

#[test]
fn the_last_missing_fragment_delivers_a_message() {
    let message = snapshot(9);
    for reliable in [true, false] {
        let parts = encoded(4, reliable, &message);
        let n = parts.len();
        assert!(n >= 3);
        let mut frames = Frames::new(MAX_WIRE);
        for k in (1..n).rev().chain(1..n) {
            assert_eq!(take_control(&mut frames, &parts[k]), Delivery::Nothing);
        }
        let last = take_control(&mut frames, &parts[0]);
        if reliable {
            assert_eq!(last, Delivery::Message(Content::Control));
        } else {
            assert_eq!(last, Delivery::Refused(WireError::UnreliableControl));
        }
    }
}

#[test]
fn a_complete_frame_is_opened_unpacked_and_judged() {
    let mut frames = Frames::new(MAX_WIRE);
    let header = Header { delta: false, epoch: 0, id: 1 };
    let wire = Wire::Packed { announced: header, actual: header };
    assert_eq!(frames.asks(false, wire), Ok(Opened::Unpack { base: None }));
    let unpacked = Unpacked { state: 8, bytes: 10, epoch: Some(0) };
    let full = |unpacked| Body::Packed { announced: header, actual: header, unpacked };
    assert_eq!(frames.deliver(false, full(None)), Delivery::Unreadable);
    let taken = frames.deliver(false, full(Some((unpacked, 6))));
    assert_eq!(taken, Delivery::Message(Content::Snapshot(6)));
    assert_eq!(frames.next_feedback(), Some(Feedback::Stored { epoch: 0, id: 1 }));
    assert_eq!(frames.deliver(false, full(Some((unpacked, 6)))), Delivery::Nothing);
    assert_eq!(frames.stale_updates, 1);
    let delta = Header { delta: true, epoch: 0, id: 1 };
    let wire = Wire::Packed { announced: delta, actual: delta };
    assert_eq!(frames.asks(false, wire), Ok(Opened::Unpack { base: Some(8) }));
    let retire = Body::Retire(Retire { epoch: 0, id: 1 });
    let refused = Delivery::Refused(WireError::UnreliableRetirement);
    assert_eq!(frames.deliver(false, retire), refused);
    assert_eq!(frames.deliver(true, retire), Delivery::Nothing);
    assert_eq!(frames.deliver(true, Body::Unreadable), Delivery::Unreadable);
}
