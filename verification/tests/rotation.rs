use rm_simulator::wire::baseline::{
    is_packed, Baseline, Choice, Decoder, Encoder, Feedback, Header, LaneFrame, Opened, Retire, Unpacked,
    Wire, BASE_LIMIT, RETIRE_RESEND_FRAMES,
};
use rm_simulator::wire::frames::Frames;
use rm_simulator::wire::WireError;

const LIMIT: usize = 4 * 1024 * 1024;

/// A packed checkpoint: its header, and the state that unpacking it gives. A
/// state is the tick it shows.
#[derive(Clone, Copy)]
struct Packed {
    header: Header,
    state: u64,
    base: Option<u64>,
}

fn snapshot(encoder: &mut Encoder, epoch: u64, tick: u64) -> Packed {
    encoder.begin(epoch);
    let choice = encoder.snapshot(tick, 1_000, 500).unwrap();
    let packed = match choice {
        Choice::Independent => Packed {
            header: Header { delta: false, epoch, id: 0 },
            state: tick,
            base: None,
        },
        Choice::Full(Baseline { id, state }) => Packed {
            header: Header { delta: false, epoch, id },
            state,
            base: None,
        },
        Choice::Delta(Baseline { id, state }) => Packed {
            header: Header { delta: true, epoch, id },
            state: tick,
            base: Some(state),
        },
    };
    encoder.finish(choice, 500, if packed.header.delta { 100 } else { 510 });
    packed
}

/// What a checkpoint delivers and answers.
fn receive(
    decoder: &mut Decoder,
    packed: Packed,
) -> Result<(Option<u64>, Option<Feedback>), WireError> {
    let wire = Wire::Packed { announced: packed.header, actual: packed.header };
    match decoder.open(wire)? {
        Opened::Ignored => Ok((None, None)),
        Opened::Answer(feedback) => Ok((None, Some(feedback))),
        Opened::Unpack { base } => {
            assert_eq!(base, packed.base, "unpacked against the encoder's own baseline");
            let unpacked = Unpacked {
                state: packed.state,
                bytes: 1_000,
                epoch: Some(packed.header.epoch),
            };
            let feedback = decoder.close(packed.header, unpacked, LIMIT)?;
            Ok((Some(packed.state), feedback))
        }
    }
}

fn retire(decoder: &mut Decoder, retire: Retire) -> Feedback {
    match decoder.open(Wire::Retire(retire)) {
        Ok(Opened::Answer(feedback)) => feedback,
        other => panic!("{other:?}"),
    }
}

#[test]
fn missing_ack_still_delivers_current_independent_state() {
    let mut encoder = Encoder::new();
    let mut decoder = Decoder::new();
    let mut newest = 0;
    for tick in 0..30 {
        let packed = snapshot(&mut encoder, 0, tick);
        // Drop every application answer.
        let (message, _) = receive(&mut decoder, packed).unwrap();
        newest = newest.max(message.unwrap());
    }
    assert_eq!(newest, 29);
    assert_eq!(decoder.pinned(), 1);
    assert_eq!(encoder.deltas, 0);
}

#[test]
fn deltas_survive_loss_reordering_and_duplicates_without_chaining() {
    let mut encoder = Encoder::new();
    let mut decoder = Decoder::new();
    let (_, ack) = receive(&mut decoder, snapshot(&mut encoder, 0, 0)).unwrap();
    encoder.feedback(ack.unwrap());
    let lost = snapshot(&mut encoder, 0, 1);
    let next = snapshot(&mut encoder, 0, 2);
    for (packed, tick) in [(next, 2), (next, 2), (lost, 1)] {
        assert_eq!(receive(&mut decoder, packed).unwrap().0, Some(tick));
    }
    assert_eq!(decoder.pinned(), 1);
    assert!(encoder.deltas > 0);
}

/// Run until the stored baseline replaces an older one.
fn rotate(encoder: &mut Encoder, decoder: &mut Decoder) -> Retire {
    for tick in 1..40 {
        let (_, ack) = receive(decoder, snapshot(encoder, 0, tick)).unwrap();
        if let Some(ack) = ack {
            if let Some(retire) = encoder.feedback(ack) {
                return retire;
            }
        }
    }
    panic!("no rotation")
}

#[test]
fn retirement_pins_two_baselines_until_ack_and_old_full_cannot_resurrect() {
    let mut encoder = Encoder::new();
    let mut decoder = Decoder::new();
    let old = snapshot(&mut encoder, 0, 0);
    let (_, ack) = receive(&mut decoder, old).unwrap();
    encoder.feedback(ack.unwrap());
    let retirement = rotate(&mut encoder, &mut decoder);
    assert_eq!(decoder.pinned(), 2);
    for tick in 50..100 {
        receive(&mut decoder, snapshot(&mut encoder, 0, tick)).unwrap();
        assert!(encoder.pending.is_none());
    }
    let ack = retire(&mut decoder, retirement);
    assert_eq!(decoder.pinned(), 1);
    assert!(receive(&mut decoder, old).unwrap().0.is_none());
    encoder.feedback(ack);
    assert!(encoder.retiring.is_none());
    receive(&mut decoder, snapshot(&mut encoder, 0, 101)).unwrap();
    assert!(encoder.pending.is_some());
}

#[test]
fn a_lost_retired_answer_is_resent_and_rotation_resumes() {
    let mut encoder = Encoder::new();
    let mut decoder = Decoder::new();
    let (_, ack) = receive(&mut decoder, snapshot(&mut encoder, 0, 0)).unwrap();
    encoder.feedback(ack.unwrap());
    let retirement = rotate(&mut encoder, &mut decoder);
    // The decoder retires the old baseline but its answer never arrives.
    let retired = retire(&mut decoder, retirement);
    assert!(matches!(retired, Feedback::Retired { .. }));
    assert_eq!(decoder.pinned(), 1);
    // Without a retry the encoder would stay pinned for the connection's life.
    let mut resent = None;
    for tick in 100..100 + RETIRE_RESEND_FRAMES + 1 {
        receive(&mut decoder, snapshot(&mut encoder, 0, tick)).unwrap();
        assert!(encoder.pending.is_none(), "rotation is blocked until retired");
        if let Some(retire) = encoder.resend_retire() {
            resent = Some(retire);
            break;
        }
    }
    let retired = retire(&mut decoder, resent.expect("retire resent"));
    encoder.feedback(retired);
    assert!(encoder.retiring.is_none());
    // A fresh baseline can be proposed and stored again.
    let mut rotated = false;
    for tick in 200..260 {
        let (_, ack) = receive(&mut decoder, snapshot(&mut encoder, 0, tick)).unwrap();
        if let Some(ack) = ack {
            encoder.feedback(ack);
            rotated = true;
            break;
        }
    }
    assert!(rotated, "a new baseline must be storable after retirement");
    assert!(decoder.pinned() <= 2);
}

#[test]
fn missing_baseline_recovers_and_epoch_change_rejects_old_traffic() {
    let mut encoder = Encoder::new();
    let mut decoder = Decoder::new();
    let first = snapshot(&mut encoder, 1, 0);
    let (_, ack) = receive(&mut decoder, first).unwrap();
    encoder.feedback(ack.unwrap());
    decoder.first = None;
    let delta = snapshot(&mut encoder, 1, 2);
    let (message, missing) = receive(&mut decoder, delta).unwrap();
    assert!(message.is_none());
    encoder.feedback(missing.unwrap());
    let (_, ack) = receive(&mut decoder, snapshot(&mut encoder, 1, 3)).unwrap();
    assert!(ack.is_some());
    let new_epoch = snapshot(&mut encoder, 2, 4);
    receive(&mut decoder, new_epoch).unwrap();
    assert!(receive(&mut decoder, delta).unwrap().0.is_none());
    assert!(receive(&mut decoder, first).unwrap().0.is_none());
    assert_eq!(decoder.pinned(), 1);
}

#[test]
fn sustained_updates_save_encoded_bytes_and_caches_stay_bounded() {
    let mut encoder = Encoder::new();
    let mut decoder = Decoder::new();
    for tick in 0..160 {
        let (_, ack) = receive(&mut decoder, snapshot(&mut encoder, 0, tick)).unwrap();
        if let Some(ack) = ack {
            if let Some(retirement) = encoder.feedback(ack) {
                let ack = retire(&mut decoder, retirement);
                encoder.feedback(ack);
            }
        }
        assert!(decoder.pinned() <= 2);
    }
    assert!(encoder.sent_bytes < encoder.full_bytes);
    assert!(encoder.deltas > 100);
}

#[test]
fn a_frame_that_was_only_begun_counts_nothing() {
    let mut encoder = Encoder::new();
    encoder.begin(0);
    assert_eq!(encoder.sent_bytes, 0);
    assert!(encoder.pending.is_none());
    encoder.begin(0);
    assert!(encoder.snapshot(0, 1_000, 500).is_ok());
}

#[test]
fn malformed_binary_rotations_are_rejected_before_pinning_a_baseline() {
    let mut decoder = Decoder::new();
    let header = Header { delta: false, epoch: 0, id: 1 };
    let opened = decoder.open(Wire::Packed { announced: header, actual: header });
    assert_eq!(opened, Ok(Opened::Unpack { base: None }));
    let broken = Unpacked { state: 1, bytes: 1_000, epoch: None };
    assert_eq!(decoder.close(header, broken, LIMIT), Err(WireError::StateEpoch));
    assert_eq!(decoder.pinned(), 0);
}

#[test]
fn the_decoder_names_what_it_refuses() {
    let mut decoder = Decoder::new();
    let full = |id: u64| Header { delta: false, epoch: 3, id };
    let wire = |header: Header| Wire::Packed { announced: header, actual: header };
    let state = |state: u64| Unpacked { state, bytes: 10, epoch: Some(3) };
    let mismatch = Wire::Packed { announced: full(1), actual: full(2) };
    assert_eq!(decoder.open(mismatch), Err(WireError::HeaderMismatch));
    for id in 1..=2 {
        decoder.open(wire(full(id))).unwrap();
        assert_eq!(
            decoder.close(full(id), state(id), LIMIT),
            Ok(Some(Feedback::Stored { epoch: 3, id }))
        );
    }
    decoder.open(wire(full(3))).unwrap();
    assert_eq!(decoder.close(full(3), state(3), LIMIT), Err(WireError::BaselineOverflow));
    decoder.open(wire(full(2))).unwrap();
    assert_eq!(decoder.close(full(2), state(9), LIMIT), Err(WireError::BaselineChanged));
    let large = Unpacked { bytes: BASE_LIMIT + 1, ..state(2) };
    assert_eq!(decoder.close(full(2), large, LIMIT), Err(WireError::BaselineSize));
    let independent = full(0);
    decoder.open(wire(independent)).unwrap();
    assert_eq!(decoder.close(independent, state(5), 10), Ok(None));
    assert_eq!(decoder.close(independent, state(5), 9), Err(WireError::StateSize));
    let other = Unpacked { epoch: Some(4), ..state(5) };
    assert_eq!(decoder.close(independent, other, 10), Err(WireError::StateEpoch));
    let delta = Header { delta: true, epoch: 3, id: 7 };
    assert_eq!(
        decoder.open(wire(delta)),
        Ok(Opened::Answer(Feedback::Missing { epoch: 3, id: 7 }))
    );
    assert_eq!(decoder.missing, 1);
    // An older epoch changes nothing.
    let before = decoder;
    let old = Header { delta: false, epoch: 2, id: 9 };
    assert_eq!(decoder.open(wire(old)), Ok(Opened::Ignored));
    assert_eq!(decoder.open(Wire::Retire(Retire { epoch: 2, id: 9 })), Ok(Opened::Ignored));
    assert_eq!(decoder, before);
    // Retired baselines stay gone.
    decoder.open(Wire::Retire(Retire { epoch: 3, id: 2 })).unwrap();
    assert_eq!(decoder.pinned(), 0);
    assert_eq!(decoder.open(wire(full(2))), Ok(Opened::Ignored));
}

#[test]
fn the_encoder_proposes_repeats_and_falls_back() {
    let mut encoder = Encoder::new();
    // A state too large for a baseline goes out alone.
    encoder.begin(0);
    assert_eq!(encoder.snapshot(1, BASE_LIMIT + 1, 500), Ok(Choice::Independent));
    assert!(!encoder.finish(Choice::Independent, 500, 0));
    assert_eq!((encoder.full_bytes, encoder.sent_bytes), (500, 500));
    // A proposal is repeated every eighth frame until it is answered.
    let mut kinds = Vec::new();
    for tick in 0..17 {
        encoder.begin(0);
        kinds.push(matches!(encoder.snapshot(tick, 10, 500), Ok(Choice::Full(_))));
    }
    let repeated: Vec<usize> = (0..17).filter(|i| kinds[*i]).collect();
    assert_eq!(repeated, [0, 8, 16]);
    assert_eq!(encoder.pending, Some(Baseline { id: 1, state: 0 }));
    // Answers for other epochs or baselines are ignored.
    let before = encoder;
    assert_eq!(encoder.feedback(Feedback::Stored { epoch: 1, id: 1 }), None);
    assert_eq!(encoder.feedback(Feedback::Stored { epoch: 0, id: 2 }), None);
    assert_eq!(encoder.feedback(Feedback::Retired { epoch: 0, id: 1 }), None);
    assert_eq!(encoder.feedback(Feedback::Missing { epoch: 0, id: 1 }), None);
    assert_eq!(encoder.feedback(Feedback::ConfigStored { revision: 1 }), None);
    assert_eq!(encoder.feedback(Feedback::ConfigMissing { revision: 1 }), None);
    assert_eq!(encoder, before);
    encoder.feedback(Feedback::Stored { epoch: 0, id: 1 });
    encoder.begin(0);
    let delta = encoder.snapshot(18, 10, 500).unwrap();
    assert_eq!(delta, Choice::Delta(Baseline { id: 1, state: 0 }));
    // A delta no smaller than the independent packing is not sent.
    assert!(!encoder.finish(delta, 500, 500));
    assert!(encoder.finish(delta, 500, 499));
    assert_eq!(encoder.deltas, 1);
    // Numbers run out.
    let mut last = Encoder::new();
    last.next_id = u64::MAX;
    last.begin(0);
    assert_eq!(last.snapshot(1, 10, 500), Err(WireError::BaselineIds));
}

#[test]
fn answers_wait_in_a_bounded_queue_and_retirements_are_reliable() {
    let mut frames = Frames::new(1000);
    let retire = |id: u64| Wire::Retire(Retire { epoch: 0, id });
    assert_eq!(frames.open_wire(false, retire(1)), Err(WireError::UnreliableRetirement));
    for id in 1..=18 {
        frames.open_wire(true, retire(id)).unwrap();
    }
    assert_eq!(frames.next_feedback(), Some(Feedback::Retired { epoch: 0, id: 3 }));
    for _ in 0..15 {
        assert!(frames.next_feedback().is_some());
    }
    assert_eq!(frames.next_feedback(), None);
    let header = Header { delta: false, epoch: 0, id: 20 };
    frames.open_wire(false, Wire::Packed { announced: header, actual: header }).unwrap();
    let unpacked = Unpacked { state: 1, bytes: 10, epoch: Some(0) };
    assert_eq!(frames.close_wire(header, unpacked), Ok(()));
    assert_eq!(frames.next_feedback(), Some(Feedback::Stored { epoch: 0, id: 20 }));
}

#[test]
fn packed_frames_are_told_from_json() {
    assert!(is_packed(b"RMB0anything"));
    assert!(!is_packed(br#"{"UdpSnapshot":{"Retire":{"epoch":7,"id":2}}}"#));
    assert!(!is_packed(b"RMB"));
}

#[test]
fn a_decoder_keeps_two_pins_whatever_comes() {
    let mut decoder = Decoder::new();
    let full = |id: u64, state: u64| {
        let header = Header { delta: false, epoch: 4, id };
        LaneFrame {
            wire: Wire::Packed { announced: header, actual: header },
            unpacked: Some(Unpacked { state, bytes: 10, epoch: Some(4) }),
        }
    };
    let stored = |id: u64| Some(Feedback::Stored { epoch: 4, id });
    assert_eq!(decoder.receive(full(1, 7), LIMIT), Ok((Some(7), stored(1))));
    assert_eq!(decoder.receive(full(2, 8), LIMIT), Ok((Some(8), stored(2))));
    assert_eq!(decoder.receive(full(3, 9), LIMIT), Err(WireError::BaselineOverflow));
    assert_eq!(decoder.receive(full(1, 9), LIMIT), Err(WireError::BaselineChanged));
    let broken = LaneFrame { unpacked: None, ..full(2, 8) };
    assert_eq!(decoder.receive(broken, LIMIT), Err(WireError::Unreadable));
    let delta = Header { delta: true, epoch: 4, id: 3 };
    let missing = LaneFrame {
        wire: Wire::Packed { announced: delta, actual: delta },
        unpacked: None,
    };
    let answer = Some(Feedback::Missing { epoch: 4, id: 3 });
    assert_eq!(decoder.receive(missing, LIMIT), Ok((None, answer)));
    assert_eq!(decoder.pinned(), 2);
    let retire = LaneFrame { wire: Wire::Retire(Retire { epoch: 4, id: 1 }), unpacked: None };
    let retired = Some(Feedback::Retired { epoch: 4, id: 1 });
    assert_eq!(decoder.receive(retire, LIMIT), Ok((None, retired)));
    assert_eq!(decoder.receive(full(1, 7), LIMIT), Ok((None, None)));
    let mut older = full(5, 5);
    let header = Header { delta: false, epoch: 3, id: 5 };
    older.wire = Wire::Packed { announced: header, actual: header };
    assert_eq!(decoder.receive(older, LIMIT), Ok((None, None)));
    assert_eq!(decoder.pinned(), 1);
}
