//! What the two ends of a delta lane keep between them, whatever the link
//! loses, repeats or reorders.
use super::baseline::{
    Baseline, Choice, Decoder, Encoder, Feedback, Header, Opened, Retire, Unpacked, Wire,
    BASE_LIMIT,
};
use super::WireError;
use vstd::prelude::*;

verus! {

/// A baseline as it travels: its header and the state it holds.
pub struct Proposal {
    /// Input epoch.
    pub epoch: u64,
    /// The baseline.
    pub baseline: Baseline,
}

impl Proposal {
    /// The header of the frame that carries it.
    pub open spec fn header(self) -> Header {
        Header { delta: false, epoch: self.epoch, id: self.baseline.id }
    }

    /// The frame that carries it.
    pub open spec fn wire(self) -> Wire {
        Wire::Packed { announced: self.header(), actual: self.header() }
    }
}

/// Both ends, with everything that either ever sent: the link may deliver any
/// of it at any time, or never.
pub struct Link {
    /// The server's end.
    pub encoder: Encoder,
    /// How the server's end was left in each epoch before.
    pub past: Map<u64, Encoder>,
    /// The client's end.
    pub decoder: Decoder,
    /// Baselines sent.
    pub proposed: Set<Proposal>,
    /// Retirements sent.
    pub asked: Set<Retire>,
    /// Answers sent.
    pub answered: Set<Feedback>,
}

/// The earliest baseline still in play.
pub open spec fn earliest(e: Encoder) -> int {
    if e.retiring is Some {
        e.retiring->0.id as int
    } else if e.active is Some {
        e.active->0.id as int
    } else if e.pending is Some {
        e.pending->0.id as int
    } else {
        e.next_id + 1
    }
}

/// A baseline agrees with what the encoder holds under its number.
pub open spec fn agrees(e: Encoder, baseline: Baseline) -> bool {
    &&& e.active is Some && e.active->0.id == baseline.id ==> e.active->0 == baseline
    &&& e.pending is Some && e.pending->0.id == baseline.id ==> e.pending->0 == baseline
    &&& e.retiring is Some && e.retiring->0.id == baseline.id ==> e.retiring->0 == baseline
}

impl Link {
    /// A new connection.
    pub open spec fn initial() -> Link {
        Link {
            encoder: Encoder::initial(),
            past: Map::empty(),
            decoder: Decoder::initial(),
            proposed: Set::empty(),
            asked: Set::empty(),
            answered: Set::empty(),
        }
    }

    /// An epoch has begun.
    pub open spec fn known(self, epoch: u64) -> bool {
        self.encoder.epoch == Some(epoch) || self.past.contains_key(epoch)
    }

    /// The server's end as it is in an epoch, or was left in it.
    pub open spec fn at(self, epoch: u64) -> Encoder {
        if self.encoder.epoch == Some(epoch) {
            self.encoder
        } else {
            self.past[epoch]
        }
    }

    /// A proposal is of a baseline in play in its epoch, unless the decoder
    /// will never look at it again.
    pub open spec fn placed(self, p: Proposal) -> bool {
        let e = self.at(p.epoch);
        &&& self.known(p.epoch)
        &&& 1 <= p.baseline.id <= e.next_id
        &&& agrees(e, p.baseline)
        &&& p.baseline.id >= earliest(e) || self.decoder.epoch is Some && (self.decoder.epoch->0
            > p.epoch || (self.decoder.epoch->0 == p.epoch && p.baseline.id
            <= self.decoder.retired_through))
    }

    /// A pinned baseline is one in play in the decoder's epoch.
    pub open spec fn pin_in_play(self, pin: Option<Baseline>) -> bool {
        pin is Some ==> {
            let e = self.at(self.decoder.epoch->0);
            &&& self.decoder.epoch is Some
            &&& earliest(e) <= pin->0.id <= e.next_id
            &&& agrees(e, pin->0)
        }
    }

    /// A retirement is of a baseline that was replaced.
    pub open spec fn fair(self, r: Retire) -> bool {
        let e = self.at(r.epoch);
        &&& self.known(r.epoch)
        &&& e.active is Some && r.id < e.active->0.id
    }

    /// An answer says what the decoder did.
    pub open spec fn truthful(self, feedback: Feedback) -> bool {
        let d = self.decoder;
        match feedback {
            Feedback::Stored { epoch, id } => {
                &&& d.epoch is Some && d.epoch->0 >= epoch
                &&& d.epoch->0 == epoch ==> d.pinned_state(id) is Some || id <= d.retired_through
            },
            Feedback::Retired { epoch, id } => {
                &&& d.epoch is Some && d.epoch->0 >= epoch
                &&& d.epoch->0 == epoch ==> id <= d.retired_through
            },
            _ => true,
        }
    }

    /// The active baseline of an epoch was stored.
    pub open spec fn backed(self, epoch: u64) -> bool {
        let e = self.at(epoch);
        e.active is Some ==> self.answered.contains(
            Feedback::Stored { epoch, id: e.active->0.id },
        )
    }

    /// What holds at all times.
    pub open spec fn sound(self) -> bool {
        &&& self.encoder.wf()
        &&& self.decoder.wf()
        &&& forall|e: u64| #[trigger]
            self.past.contains_key(e) ==> {
                &&& self.past[e].wf() && self.past[e].epoch == Some(e)
                &&& self.encoder.epoch is Some && e < self.encoder.epoch->0
            }
        &&& self.decoder.epoch is Some ==> self.known(self.decoder.epoch->0)
        &&& forall|p: Proposal| self.proposed.contains(p) ==> #[trigger] self.placed(p)
        &&& forall|r: Retire| self.asked.contains(r) ==> #[trigger] self.fair(r)
        &&& forall|f: Feedback| self.answered.contains(f) ==> #[trigger] self.truthful(f)
        &&& forall|e: u64| self.known(e) ==> #[trigger] self.backed(e)
        &&& self.pin_in_play(self.decoder.first)
        &&& self.pin_in_play(self.decoder.second)
        &&& self.decoder.epoch is Some ==> {
            let e = self.at(self.decoder.epoch->0);
            self.decoder.retired_through < if e.active is Some {
                e.active->0.id as int
            } else {
                1
            }
        }
    }

    /// With a frame begun.
    pub open spec fn beginning(self, epoch: u64) -> Link {
        Link {
            encoder: self.encoder.begun(epoch),
            past: match self.encoder.epoch {
                Some(before) => if before == epoch {
                    self.past
                } else {
                    self.past.insert(before, self.encoder)
                },
                None => self.past,
            },
            ..self
        }
    }

    /// With a frame packed; a baseline goes out.
    pub open spec fn packing(self, state: u64, source_len: usize, independent_len: u64) -> Link {
        let (encoder, choice) = self.encoder.choosing(state, source_len, independent_len);
        Link {
            encoder,
            proposed: match choice {
                Ok(Choice::Full(baseline)) => self.proposed.insert(
                    Proposal { epoch: self.encoder.epoch->0, baseline },
                ),
                _ => self.proposed,
            },
            ..self
        }
    }

    /// With an answer come in; a retirement may go out.
    pub open spec fn hearing(self, feedback: Feedback) -> Link {
        let (encoder, retire) = self.encoder.hearing(feedback);
        Link {
            encoder,
            asked: match retire {
                Some(retire) => self.asked.insert(retire),
                None => self.asked,
            },
            ..self
        }
    }

    /// With an unanswered retirement sent again, if it is time.
    pub open spec fn resending(self) -> Link {
        let (encoder, retire) = self.encoder.resending();
        Link {
            encoder,
            asked: match retire {
                Some(retire) => self.asked.insert(retire),
                None => self.asked,
            },
            ..self
        }
    }

    /// With a frame's header looked at; an answer may go out.
    pub open spec fn opening(self, wire: Wire) -> Link {
        let (decoder, opened) = self.decoder.opening(wire);
        Link {
            decoder,
            answered: match opened {
                Ok(Opened::Answer(feedback)) => self.answered.insert(feedback),
                _ => self.answered,
            },
            ..self
        }
    }

    /// With an unpacked checkpoint taken; an answer may go out.
    pub open spec fn closing(self, header: Header, unpacked: Unpacked, limit: usize) -> Link {
        let (decoder, taken) = self.decoder.closing(header, unpacked, limit);
        Link {
            decoder,
            answered: match taken {
                Ok(Some(feedback)) => self.answered.insert(feedback),
                _ => self.answered,
            },
            ..self
        }
    }

    /// A new connection is sound.
    pub proof fn a_new_link_is_sound()
        ensures
            Link::initial().sound(),
    {
    }

    /// A link stays sound when a frame begins, as long as epochs do not go
    /// back.
    pub proof fn beginning_is_sound(self, epoch: u64)
        requires
            self.sound(),
            self.encoder.epoch is Some ==> self.encoder.epoch->0 <= epoch,
        ensures
            self.beginning(epoch).sound(),
    {
        let next = self.beginning(epoch);
        assert forall|p: Proposal| next.proposed.contains(p) implies #[trigger] next.placed(p) by {
            if self.proposed.contains(p) {
                assert(self.placed(p));
            }
        }
        assert forall|r: Retire| next.asked.contains(r) implies #[trigger] next.fair(r) by {
            if self.asked.contains(r) {
                assert(self.fair(r));
            }
        }
        assert forall|f: Feedback| next.answered.contains(f) implies #[trigger] next.truthful(
            f,
        ) by {
            if self.answered.contains(f) {
                assert(self.truthful(f));
            }
        }
        assert forall|e: u64| next.known(e) implies #[trigger] next.backed(e) by {
            if self.known(e) {
                assert(self.backed(e));
            }
        }
    }

    /// A link stays sound when a frame is packed.
    pub proof fn packing_is_sound(self, state: u64, source_len: usize, independent_len: u64)
        requires
            self.sound(),
            self.encoder.epoch is Some,
        ensures
            self.packing(state, source_len, independent_len).sound(),
    {
        let next = self.packing(state, source_len, independent_len);
        assert forall|p: Proposal| next.proposed.contains(p) implies #[trigger] next.placed(p) by {
            if self.proposed.contains(p) {
                assert(self.placed(p));
            }
        }
        assert forall|r: Retire| next.asked.contains(r) implies #[trigger] next.fair(r) by {
            if self.asked.contains(r) {
                assert(self.fair(r));
            }
        }
        assert forall|f: Feedback| next.answered.contains(f) implies #[trigger] next.truthful(
            f,
        ) by {
            if self.answered.contains(f) {
                assert(self.truthful(f));
            }
        }
        assert forall|e: u64| next.known(e) implies #[trigger] next.backed(e) by {
            if self.known(e) {
                assert(self.backed(e));
            }
        }
    }

    /// A link stays sound when an answer comes in, however late.
    pub proof fn hearing_is_sound(self, feedback: Feedback)
        requires
            self.sound(),
            self.answered.contains(feedback),
        ensures
            self.hearing(feedback).sound(),
    {
        let next = self.hearing(feedback);
        assert(self.truthful(feedback));
        assert forall|p: Proposal| next.proposed.contains(p) implies #[trigger] next.placed(p) by {
            if self.proposed.contains(p) {
                assert(self.placed(p));
            }
        }
        assert forall|r: Retire| next.asked.contains(r) implies #[trigger] next.fair(r) by {
            if self.asked.contains(r) {
                assert(self.fair(r));
            }
        }
        assert forall|f: Feedback| next.answered.contains(f) implies #[trigger] next.truthful(
            f,
        ) by {
            if self.answered.contains(f) {
                assert(self.truthful(f));
            }
        }
        assert forall|e: u64| next.known(e) implies #[trigger] next.backed(e) by {
            if self.known(e) {
                assert(self.backed(e));
            }
        }
    }

    /// A link stays sound when a retirement is sent again.
    pub proof fn resending_is_sound(self)
        requires
            self.sound(),
        ensures
            self.resending().sound(),
    {
        let next = self.resending();
        assert forall|p: Proposal| next.proposed.contains(p) implies #[trigger] next.placed(p) by {
            if self.proposed.contains(p) {
                assert(self.placed(p));
            }
        }
        assert forall|r: Retire| next.asked.contains(r) implies #[trigger] next.fair(r) by {
            if self.asked.contains(r) {
                assert(self.fair(r));
            }
        }
        assert forall|f: Feedback| next.answered.contains(f) implies #[trigger] next.truthful(
            f,
        ) by {
            if self.answered.contains(f) {
                assert(self.truthful(f));
            }
        }
        assert forall|e: u64| next.known(e) implies #[trigger] next.backed(e) by {
            if self.known(e) {
                assert(self.backed(e));
            }
        }
    }

    /// A link stays sound when a retirement arrives, however often and late.
    pub proof fn retiring_is_sound(self, retire: Retire)
        requires
            self.sound(),
            self.asked.contains(retire),
        ensures
            self.opening(Wire::Retire(retire)).sound(),
    {
        let next = self.opening(Wire::Retire(retire));
        assert(self.fair(retire));
        assert forall|p: Proposal| next.proposed.contains(p) implies #[trigger] next.placed(p) by {
            if self.proposed.contains(p) {
                assert(self.placed(p));
            }
        }
        assert forall|r: Retire| next.asked.contains(r) implies #[trigger] next.fair(r) by {
            if self.asked.contains(r) {
                assert(self.fair(r));
            }
        }
        assert forall|f: Feedback| next.answered.contains(f) implies #[trigger] next.truthful(
            f,
        ) by {
            if self.answered.contains(f) {
                assert(self.truthful(f));
            }
        }
        assert forall|e: u64| next.known(e) implies #[trigger] next.backed(e) by {
            if self.known(e) {
                assert(self.backed(e));
            }
        }
    }

    /// A link stays sound when a checkpoint of an epoch that has begun arrives,
    /// whether full, independent or a delta.
    pub proof fn looking_is_sound(self, header: Header)
        requires
            self.sound(),
            self.known(header.epoch),
        ensures
            self.opening(Wire::Packed { announced: header, actual: header }).sound(),
    {
        let next = self.opening(Wire::Packed { announced: header, actual: header });
        assert forall|p: Proposal| next.proposed.contains(p) implies #[trigger] next.placed(p) by {
            if self.proposed.contains(p) {
                assert(self.placed(p));
            }
        }
        assert forall|r: Retire| next.asked.contains(r) implies #[trigger] next.fair(r) by {
            if self.asked.contains(r) {
                assert(self.fair(r));
            }
        }
        assert forall|f: Feedback| next.answered.contains(f) implies #[trigger] next.truthful(
            f,
        ) by {
            if self.answered.contains(f) {
                assert(self.truthful(f));
            }
        }
        assert forall|e: u64| next.known(e) implies #[trigger] next.backed(e) by {
            if self.known(e) {
                assert(self.backed(e));
            }
        }
    }

    /// No baseline that the encoder sent is ever refused for want of room or
    /// for other contents: the decoder never has to pin a third. It is out of
    /// date, or it is pinned and answered, and the link stays sound.
    pub proof fn proposals_are_never_refused(
        self,
        proposal: Proposal,
        bytes: usize,
        limit: usize,
    )
        requires
            self.sound(),
            self.proposed.contains(proposal),
            bytes <= BASE_LIMIT,
        ensures
            ({
                let header = proposal.header();
                let unpacked = Unpacked {
                    state: proposal.baseline.state,
                    bytes,
                    epoch: Some(proposal.epoch),
                };
                let opened = self.opening(proposal.wire());
                &&& opened.sound()
                &&& match self.decoder.opening(proposal.wire()).1 {
                    Ok(Opened::Ignored) => true,
                    Ok(Opened::Unpack { base }) => {
                        let closed = opened.closing(header, unpacked, limit);
                        &&& base is None
                        &&& opened.decoder.closing(header, unpacked, limit).1 == Ok::<
                            Option<Feedback>,
                            WireError,
                        >(Some(Feedback::Stored { epoch: proposal.epoch, id: header.id }))
                        &&& closed.decoder.pinned_state(header.id) == Some(
                            proposal.baseline.state,
                        )
                        &&& closed.decoder.pins() <= 2
                        &&& closed.sound()
                    },
                    _ => false,
                }
            }),
    {
        let header = proposal.header();
        let unpacked = Unpacked {
            state: proposal.baseline.state,
            bytes,
            epoch: Some(proposal.epoch),
        };
        assert(self.placed(proposal));
        self.looking_is_sound(header);
        let opened = self.opening(proposal.wire());
        assert(opened.placed(proposal));
        if self.decoder.opening(proposal.wire()).1 is Ok
            && self.decoder.opening(proposal.wire()).1->Ok_0 is Unpack {
            assert(opened.decoder.epoch == Some(proposal.epoch));
            let closed = opened.closing(header, unpacked, limit);
            let next = closed;
            assert forall|p: Proposal| next.proposed.contains(p) implies #[trigger] next.placed(
                p,
            ) by {
                assert(opened.placed(p));
            }
            assert forall|r: Retire| next.asked.contains(r) implies #[trigger] next.fair(r) by {
                assert(opened.fair(r));
            }
            assert forall|f: Feedback| next.answered.contains(f) implies #[trigger] next.truthful(
                f,
            ) by {
                if opened.answered.contains(f) {
                    assert(opened.truthful(f));
                }
            }
            assert forall|e: u64| next.known(e) implies #[trigger] next.backed(e) by {
                assert(opened.backed(e));
            }
        }
    }

    /// A link stays sound when an unpacked delta or independent checkpoint is
    /// taken: neither pins anything.
    pub proof fn taking_is_sound(self, header: Header, unpacked: Unpacked, limit: usize)
        requires
            self.sound(),
            header.delta || header.id == 0,
        ensures
            self.closing(header, unpacked, limit).sound(),
    {
        let next = self.closing(header, unpacked, limit);
        assert forall|p: Proposal| next.proposed.contains(p) implies #[trigger] next.placed(p) by {
            assert(self.placed(p));
        }
        assert forall|r: Retire| next.asked.contains(r) implies #[trigger] next.fair(r) by {
            assert(self.fair(r));
        }
        assert forall|f: Feedback| next.answered.contains(f) implies #[trigger] next.truthful(
            f,
        ) by {
            assert(self.truthful(f));
        }
        assert forall|e: u64| next.known(e) implies #[trigger] next.backed(e) by {
            assert(self.backed(e));
        }
    }

    /// Deltas against the active baseline find exactly the state that the
    /// encoder packed them against, as soon as the decoder is in the same
    /// epoch.
    pub proof fn deltas_find_their_baseline(self)
        requires
            self.sound(),
            self.decoder.epoch is Some && self.decoder.epoch == self.encoder.epoch,
            self.encoder.active is Some,
        ensures
            ({
                let header = Header {
                    delta: true,
                    epoch: self.encoder.epoch->0,
                    id: self.encoder.active->0.id,
                };
                self.decoder.opening(Wire::Packed { announced: header, actual: header }) == (
                    self.decoder,
                    Ok::<Opened, WireError>(
                        Opened::Unpack { base: Some(self.encoder.active->0.state) },
                    ),
                )
            }),
    {
        let stored = Feedback::Stored {
            epoch: self.encoder.epoch->0,
            id: self.encoder.active->0.id,
        };
        assert(self.backed(self.encoder.epoch->0));
        assert(self.truthful(stored));
    }

    /// Traffic of an older epoch changes nothing and delivers nothing.
    pub proof fn old_epochs_are_ignored(decoder: Decoder, wire: Wire)
        requires
            decoder.epoch is Some,
            wire.epoch() < decoder.epoch->0,
        ensures
            decoder.opening(wire) == (decoder, Ok::<Opened, WireError>(Opened::Ignored)),
    {
    }

    /// A retired baseline stays gone: its frame delivers nothing and pins
    /// nothing, until a newer epoch begins.
    pub proof fn retired_baselines_stay_gone(decoder: Decoder, retire: Retire, id: u64)
        requires
            decoder.wf(),
            decoder.epoch is Some ==> decoder.epoch->0 <= retire.epoch,
            1 <= id <= retire.id,
        ensures
            ({
                let after = decoder.opening(Wire::Retire(retire)).0;
                let header = Header { delta: false, epoch: retire.epoch, id };
                &&& after.pinned_state(id) is None
                &&& after.opening(Wire::Packed { announced: header, actual: header }) == (
                    after,
                    Ok::<Opened, WireError>(Opened::Ignored),
                )
            }),
    {
    }

    /// An unanswered retirement is due again after enough frames of its epoch,
    /// and until it is answered no baseline is proposed.
    pub proof fn retirements_are_resent(encoder: Encoder, epoch: u64, state: u64)
        requires
            encoder.wf(),
            encoder.epoch == Some(epoch),
            encoder.retiring is Some,
            encoder.retire_age + 1 >= super::baseline::RETIRE_RESEND_FRAMES,
        ensures
            encoder.begun(epoch).resending().1 == Some(
                Retire { epoch, id: encoder.retiring->0.id },
            ),
            encoder.begun(epoch).proposing(state) == encoder.begun(epoch),
    {
    }
}

} // verus!
