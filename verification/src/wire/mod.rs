//! The wire between a host and its peers, with no socket in it.
//!
//! Every deadline is an explicit time, so neither side reads the host clock on
//! its own.

pub mod baseline;
pub mod bytes;
pub mod client;
pub mod compress;
pub mod frames;
pub mod history;
pub mod inputs;
pub mod laws;
pub mod message;
pub mod packet;
pub mod peer;
pub mod reassembly;
pub mod rotation;

use vstd::prelude::*;

verus! {

/// What is wrong with a datagram or frame.
#[derive(Clone, Copy, Debug, PartialEq, Eq, Structural)]
pub enum WireError {
    /// An input batch holds no frame or too many.
    InputCount,
    /// A command in an input batch is not pilot input.
    NotPilotInput,
    /// An input batch does not start with its magic.
    InputMagic,
    /// Compressed bytes do not inflate within their limit.
    Inflate,
    /// An inflated input batch does not match its count.
    InputLength,
    /// A command in an input batch is not finite.
    NonFiniteInput,
    /// A frame is empty or exceeds the limit.
    FrameSize,
    /// A fragment's header is malformed.
    FragmentHeader,
    /// A fragment's sizes contradict each other.
    FragmentSize,
    /// Reliable frames exceed the reassembly budget.
    ReassemblyOverflow,
    /// Fragments of one frame contradict each other.
    InconsistentFragments,
    /// A retirement travelled on the unreliable lane.
    UnreliableRetirement,
    /// A control message travelled on the unreliable lane.
    UnreliableControl,
    /// A client datagram is too large.
    TooLarge,
    /// Something came before the hello.
    ExpectedHello,
    /// The peer speaks another protocol version.
    Protocol,
    /// A welcome came twice or for another protocol version.
    Welcome,
    /// The frame counter is exhausted.
    RevisionOverflow,
    /// Baseline feedback is malformed.
    Feedback,
    /// The baseline counter is exhausted.
    BaselineIds,
    /// A checkpoint's header is not the one announced.
    HeaderMismatch,
    /// A third baseline would have to be pinned.
    BaselineOverflow,
    /// A baseline exceeds its byte limit.
    BaselineSize,
    /// A pinned baseline came again with other contents.
    BaselineChanged,
    /// A decoded state exceeds its byte limit.
    StateSize,
    /// A checkpoint is not a snapshot of its epoch.
    StateEpoch,
    /// A checkpoint's bytes cannot be read.
    Unreadable,
    /// Bytes are not a server message.
    ServerMagic,
    /// Bytes are not a client message.
    ClientMagic,
}

impl WireError {
    /// The words for an error.
    pub fn message(self) -> (r: &'static str)
        ensures
            r == self.words(),
    {
        match self {
            WireError::InputCount => "invalid input count",
            WireError::NotPilotInput => "non-pilot input",
            WireError::InputMagic => "invalid input batch",
            WireError::Inflate => "invalid compressed data",
            WireError::InputLength => "invalid input batch length",
            WireError::NonFiniteInput => "non-finite input",
            WireError::FrameSize => "frame size exceeds limit",
            WireError::FragmentHeader => "invalid GNS frame header",
            WireError::FragmentSize => "invalid GNS frame size",
            WireError::ReassemblyOverflow => "reliable reassembly overflow",
            WireError::InconsistentFragments => "inconsistent GNS fragments",
            WireError::UnreliableRetirement => "unreliable baseline retirement",
            WireError::UnreliableControl => "unreliable control message",
            WireError::TooLarge => "client message too large",
            WireError::ExpectedHello => "expected hello",
            WireError::Protocol => "protocol version mismatch",
            WireError::Welcome => "invalid welcome",
            WireError::RevisionOverflow => "revision overflow",
            WireError::Feedback => "invalid baseline feedback",
            WireError::BaselineIds => "baseline id exhausted",
            WireError::HeaderMismatch => "binary snapshot header mismatch",
            WireError::BaselineOverflow => "baseline cache overflow",
            WireError::BaselineSize => "baseline exceeds byte cap",
            WireError::BaselineChanged => "baseline identity changed",
            WireError::StateSize => "decoded state exceeds cap",
            WireError::Unreadable => "unreadable checkpoint",
            WireError::StateEpoch => "invalid baseline state/epoch",
            WireError::ServerMagic => "not a server message",
            WireError::ClientMagic => "not a client message",
        }
    }

    /// The words for an error.
    pub open spec fn words(self) -> &'static str {
        match self {
            WireError::InputCount => "invalid input count",
            WireError::NotPilotInput => "non-pilot input",
            WireError::InputMagic => "invalid input batch",
            WireError::Inflate => "invalid compressed data",
            WireError::InputLength => "invalid input batch length",
            WireError::NonFiniteInput => "non-finite input",
            WireError::FrameSize => "frame size exceeds limit",
            WireError::FragmentHeader => "invalid GNS frame header",
            WireError::FragmentSize => "invalid GNS frame size",
            WireError::ReassemblyOverflow => "reliable reassembly overflow",
            WireError::InconsistentFragments => "inconsistent GNS fragments",
            WireError::UnreliableRetirement => "unreliable baseline retirement",
            WireError::UnreliableControl => "unreliable control message",
            WireError::TooLarge => "client message too large",
            WireError::ExpectedHello => "expected hello",
            WireError::Protocol => "protocol version mismatch",
            WireError::Welcome => "invalid welcome",
            WireError::RevisionOverflow => "revision overflow",
            WireError::Feedback => "invalid baseline feedback",
            WireError::BaselineIds => "baseline id exhausted",
            WireError::HeaderMismatch => "binary snapshot header mismatch",
            WireError::BaselineOverflow => "baseline cache overflow",
            WireError::BaselineSize => "baseline exceeds byte cap",
            WireError::BaselineChanged => "baseline identity changed",
            WireError::StateSize => "decoded state exceeds cap",
            WireError::Unreadable => "unreadable checkpoint",
            WireError::StateEpoch => "invalid baseline state/epoch",
            WireError::ServerMagic => "not a server message",
            WireError::ClientMagic => "not a client message",
        }
    }
}

} // verus!
