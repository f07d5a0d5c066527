//! Fragments: `RMG1`, a lane byte, the frame's revision, its length, the
//! fragment's index, then up to 1,000 bytes of the frame. Every packet fits
//! below the path MTU.
use super::bytes::{
    get_u32, get_u64, le_bytes, le_value, put_bytes, put_u32, put_u64, starts_with, tagged,
    u32_read_back, u64_read_back,
};
use super::WireError;
use vstd::prelude::*;
use vstd::slice::slice_subrange;

verus! {

/// Application bytes of one fragment.
pub const CHUNK: usize = 1000;

/// Bytes before them.
pub const HEADER: usize = 21;

/// The first four bytes of a fragment: `RMG1`.
pub open spec fn fragment_magic() -> Seq<u8> {
    seq![82, 77, 71, 49]
}

/// Fragments of a frame of some length.
pub open spec fn chunk_count(length: nat) -> nat {
    ((length + 999) / 1000) as nat
}

/// Where a fragment's bytes end in its frame.
pub open spec fn chunk_end(length: nat, index: int) -> int {
    if 1000 * index + 1000 < length {
        1000 * index + 1000
    } else {
        length as int
    }
}

/// The bytes of a frame that a fragment carries.
pub open spec fn chunk(bytes: Seq<u8>, index: int) -> Seq<u8> {
    bytes.subrange(1000 * index, chunk_end(bytes.len(), index))
}

/// One fragment of a frame on the wire.
pub open spec fn fragment(revision: u64, reliable: bool, bytes: Seq<u8>, index: int) -> Seq<u8> {
    fragment_magic() + seq![if reliable {
        1u8
    } else {
        0u8
    }] + le_bytes(revision as nat, 8) + le_bytes(bytes.len(), 4) + le_bytes(index as nat, 4)
        + chunk(bytes, index)
}

/// What a fragment says.
#[derive(Clone, Copy, Debug, PartialEq, Eq, Structural)]
pub struct Fragment {
    /// It travels on the reliable lane.
    pub reliable: bool,
    /// Its frame's number on this connection.
    pub revision: u64,
    /// Its frame's length.
    pub length: usize,
    /// Its place in the frame.
    pub index: usize,
}

/// What a packet says as a fragment, under a limit on a frame's length.
pub open spec fn read_fragment(packet: Seq<u8>, limit: usize) -> Result<Fragment, WireError> {
    if packet.len() < HEADER || !tagged(packet, fragment_magic()) || packet[4] > 1 {
        Err(WireError::FragmentHeader)
    } else {
        let revision = le_value(packet.subrange(5, 13));
        let length = le_value(packet.subrange(13, 17));
        let index = le_value(packet.subrange(17, 21));
        if revision == 0 || length == 0 || length > limit || index >= chunk_count(length)
            || packet.len() - HEADER != chunk_end(length, index as int) - 1000 * index {
            Err(WireError::FragmentSize)
        } else {
            Ok(
                Fragment {
                    reliable: packet[4] == 1,
                    revision: revision as u64,
                    length: length as usize,
                    index: index as usize,
                },
            )
        }
    }
}

/// The frame bytes that a packet carries.
pub open spec fn payload(packet: Seq<u8>) -> Seq<u8> {
    packet.subrange(HEADER as int, packet.len() as int)
}

/// A frame's fragments say what they were made of.
pub proof fn fragment_read_back(
    revision: u64,
    reliable: bool,
    bytes: Seq<u8>,
    index: int,
    limit: usize,
)
    requires
        revision != 0,
        1 <= bytes.len() <= limit <= u32::MAX,
        0 <= index < chunk_count(bytes.len()),
    ensures
        read_fragment(fragment(revision, reliable, bytes, index), limit) == Ok::<
            Fragment,
            WireError,
        >(
            Fragment {
                reliable,
                revision,
                length: bytes.len() as usize,
                index: index as usize,
            },
        ),
        payload(fragment(revision, reliable, bytes, index)) == chunk(bytes, index),
{
    let packet = fragment(revision, reliable, bytes, index);
    u64_read_back(revision);
    u32_read_back(bytes.len() as u32);
    u32_read_back(index as u32);
    assert(packet.subrange(0, 4) =~= fragment_magic());
    assert(packet.subrange(5, 13) =~= le_bytes(revision as nat, 8));
    assert(packet.subrange(13, 17) =~= le_bytes(bytes.len(), 4));
    assert(packet.subrange(17, 21) =~= le_bytes(index as nat, 4));
    assert(payload(packet) =~= chunk(bytes, index));
    assert(packet.len() == 21 + chunk(bytes, index).len());
}

/// A chunk is not empty and no longer than its limit.
pub proof fn chunk_fits(length: nat, index: int)
    requires
        0 <= index < chunk_count(length),
    ensures
        1000 * index < chunk_end(length, index) <= length,
        chunk_end(length, index) - 1000 * index <= 1000,
{
}

/// Split a frame into fragments. An empty frame and one longer than the limit
/// are refused.
pub fn packets(revision: u64, reliable: bool, bytes: &[u8], limit: usize) -> (r: Result<
    Vec<Vec<u8>>,
    WireError,
>)
    requires
        limit <= u32::MAX,
    ensures
        match r {
            Ok(out) => {
                &&& 1 <= bytes@.len() <= limit
                &&& out@.len() == chunk_count(bytes@.len())
                &&& forall|i: int|
                    0 <= i < out@.len() ==> (#[trigger] out@[i])@ == fragment(
                        revision,
                        reliable,
                        bytes@,
                        i,
                    )
            },
            Err(error) => {
                &&& bytes@.len() == 0 || bytes@.len() > limit
                &&& error == WireError::FrameSize
            },
        },
{
    let n: usize = bytes.len();
    if n == 0 || n > limit {
        return Err(WireError::FrameSize);
    }
    let lane: u8 = if reliable {
        1
    } else {
        0
    };
    let mut out: Vec<Vec<u8>> = Vec::new();
    let mut at: usize = 0;
    let mut index: u32 = 0;
    while at < n
        invariant
            n == bytes@.len(),
            1 <= n <= limit <= u32::MAX,
            lane == if reliable {
                1u8
            } else {
                0u8
            },
            out@.len() == index,
            at == if 1000 * index < n {
                1000 * index
            } else {
                n as int
            },
            index <= chunk_count(n as nat),
            forall|i: int|
                0 <= i < out@.len() ==> (#[trigger] out@[i])@ == fragment(
                    revision,
                    reliable,
                    bytes@,
                    i,
                ),
        decreases n - at,
    {
        let end: usize = if n - at > CHUNK {
            at + CHUNK
        } else {
            n
        };
        let mut packet: Vec<u8> = Vec::new();
        packet.push(82);
        packet.push(77);
        packet.push(71);
        packet.push(49);
        packet.push(lane);
        proof {
            assert(packet@ =~= fragment_magic() + seq![lane]);
        }
        put_u64(&mut packet, revision);
        put_u32(&mut packet, n as u32);
        put_u32(&mut packet, index);
        put_bytes(&mut packet, slice_subrange(bytes, at, end));
        proof {
            assert(bytes@.subrange(at as int, end as int) == chunk(bytes@, index as int));
            assert(packet@ == fragment(revision, reliable, bytes@, index as int));
            assert(index < u32::MAX);
        }
        let ghost before = out@;
        out.push(packet);
        proof {
            assert forall|i: int| 0 <= i < out@.len() implies (#[trigger] out@[i])@ == fragment(
                revision,
                reliable,
                bytes@,
                i,
            ) by {
                if i < before.len() {
                    assert(out@[i] == before[i]);
                }
            }
        }
        at = end;
        index += 1;
    }
    Ok(out)
}

/// Read a packet as a fragment.
pub fn parse_fragment(packet: &[u8], limit: usize) -> (r: Result<Fragment, WireError>)
    requires
        limit <= u32::MAX,
    ensures
        r == read_fragment(packet@, limit),
{
    let magic: [u8; 4] = [82, 77, 71, 49];
    proof {
        assert(magic@ =~= fragment_magic());
    }
    if packet.len() < HEADER || !starts_with(packet, &magic) || packet[4] > 1 {
        return Err(WireError::FragmentHeader);
    }
    let revision: u64 = get_u64(packet, 5);
    let length: u64 = get_u32(packet, 13) as u64;
    let index: u64 = get_u32(packet, 17) as u64;
    let count: u64 = (length + 999) / 1000;
    if revision == 0 || length == 0 || length > limit as u64 || index >= count {
        return Err(WireError::FragmentSize);
    }
    let rest: u64 = length - index * 1000;
    let body: u64 = if rest < 1000 {
        rest
    } else {
        1000
    };
    if (packet.len() - HEADER) as u64 != body {
        return Err(WireError::FragmentSize);
    }
    Ok(
        Fragment {
            reliable: packet[4] == 1,
            revision,
            length: length as usize,
            index: index as usize,
        },
    )
}

} // verus!
