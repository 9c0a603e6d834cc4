//! Wire vocabulary exchanged between the two machines.
//!
//! Coordinates travel normalized to `[0, 1]`; their numeric type is left to
//! the caller (`F`), since the logic here only carries them from one side to
//! the other and never computes with them.
use vstd::prelude::*;
use crate::screen_layout::ScreenDimensions;

verus! {

/// Wire format for all messages exchanged between machines.
#[allow(inconsistent_fields)]
#[derive(Debug, Clone)]
pub enum Message<F> {
    /// `button`: None = pure move, Some(0) = left drag, Some(1) = right drag.
    MouseMove { x_norm: F, y_norm: F, button: Option<u8> },
    MouseButton { button: u8, pressed: bool },
    Scroll { dx: F, dy: F },
    TransitionIn { y_norm: F },
    TransitionOut,
    /// Acknowledges receipt of TransitionIn.
    Ack,
    ScreenInfo(ScreenDimensions),
    /// Sent by both sides as soon as TCP is up: the sender's per-connection
    /// nonce, its human-readable name and its operating system.
    PairRequest { nonce: [u8; 16], device_name: String, os: String },
    PairAccept,
    PairDecline,
}

/// Messages that move or hand over the cursor, as opposed to the pairing
/// handshake. These are refused while a pair is still awaiting approval.
pub open spec fn spec_is_coordinate_message<F>(msg: Message<F>) -> bool {
    match msg {
        Message::PairRequest { .. } | Message::PairAccept | Message::PairDecline => false,
        _ => true,
    }
}

/// Whether `msg` belongs to coordinate traffic rather than to pairing.
pub fn is_coordinate_message<F>(msg: &Message<F>) -> (b: bool)
    ensures
        b == spec_is_coordinate_message(*msg),
{
    match msg {
        Message::PairRequest { .. } | Message::PairAccept | Message::PairDecline => false,
        _ => true,
    }
}


/// The four big-endian bytes of `n` modulo 2^32, as `u32::to_be_bytes` lays
/// them out.
pub open spec fn be_bytes(n: nat) -> Seq<u8> {
    let m = n % 0x1_0000_0000;
    seq![
        (m / 0x100_0000) as u8,
        ((m / 0x1_0000) % 0x100) as u8,
        ((m / 0x100) % 0x100) as u8,
        (m % 0x100) as u8,
    ]
}

fn be_header(n: usize) -> (header: Vec<u8>)
    ensures
        header@ == be_bytes(n as nat),
{
    let len: u64 = (n as u64) % 0x1_0000_0000u64;
    assert(len < 0x1_0000_0000);
    assert(len / 0x100_0000 < 0x100) by (nonlinear_arith)
        requires
            len < 0x1_0000_0000,
    ;
    let mut header: Vec<u8> = Vec::new();
    header.push((len / 0x100_0000) as u8);
    header.push(((len / 0x1_0000) % 0x100) as u8);
    header.push(((len / 0x100) % 0x100) as u8);
    header.push((len % 0x100) as u8);
    assert(header@ =~= be_bytes(n as nat));
    header
}

/// The number that four big-endian bytes encode (`u32::from_be_bytes`).
pub open spec fn be_value(b: Seq<u8>) -> nat {
    (b[0] * 0x100_0000 + b[1] * 0x1_0000 + b[2] * 0x100 + b[3]) as nat
}

/// A frame on the TCP stream: the payload length as a 4-byte big-endian
/// prefix (truncated to 32 bits, as the length is cast to `u32`), then the
/// payload itself.
pub open spec fn spec_frame(payload: Seq<u8>) -> Seq<u8> {
    be_bytes(payload.len()) + payload
}

/// What the reader takes from the front of `buf`: nothing until the 4-byte
/// prefix and the whole payload it announces have arrived; then the payload
/// and the number of bytes consumed.
pub open spec fn spec_decode_frame(buf: Seq<u8>) -> Option<(Seq<u8>, nat)> {
    if buf.len() < 4 {
        None
    } else {
        let len = be_value(buf.take(4));
        if buf.len() < 4 + len {
            None
        } else {
            Some((buf.subrange(4, 4 + len as int), (4 + len) as nat))
        }
    }
}

/// Frames a serialized message for the wire.
pub fn encode_frame(payload: &[u8]) -> (frame: Vec<u8>)
    ensures
        frame@ == spec_frame(payload@),
{
    let n: usize = payload.len();
    let mut frame = be_header(n);
    let ghost header = frame@;
    let mut i: usize = 0;
    while i < n
        invariant
            n == payload@.len(),
            i <= n,
            frame@ == header + payload@.take(i as int),
        decreases n - i,
    {
        frame.push(payload[i]);
        i = i + 1;
        assert(payload@.take(i as int) =~= payload@.take(i - 1) + seq![payload@[i - 1]]);
    }
    assert(payload@.take(n as int) =~= payload@);
    frame
}

/// The payload length announced by a frame's 4-byte prefix.
pub fn frame_payload_len(header: [u8; 4]) -> (len: u32)
    ensures
        len == be_value(header@),
{
    (header[0] as u32) * 0x100_0000 + (header[1] as u32) * 0x1_0000 + (header[2] as u32) * 0x100
        + header[3] as u32
}

/// Takes one frame from the front of `buf`, if it has fully arrived.
pub fn decode_frame(buf: &[u8]) -> (res: Option<(Vec<u8>, usize)>)
    ensures
        match res {
            Some((payload, used)) => spec_decode_frame(buf@) == Some((payload@, used as nat)),
            None => spec_decode_frame(buf@) is None,
        },
{
    if buf.len() < 4 {
        return None;
    }
    let len = frame_payload_len([buf[0], buf[1], buf[2], buf[3]]);
    assert(seq![buf@[0], buf@[1], buf@[2], buf@[3]] =~= buf@.take(4));
    if buf.len() - 4 < len as usize {
        return None;
    }
    let end: usize = 4 + len as usize;
    let mut payload: Vec<u8> = Vec::new();
    let mut i: usize = 4;
    while i < end
        invariant
            4 <= i <= end <= buf@.len(),
            payload@ == buf@.subrange(4, i as int),
        decreases end - i,
    {
        payload.push(buf[i]);
        i = i + 1;
        assert(buf@.subrange(4, i as int) =~= buf@.subrange(4, i - 1) + seq![buf@[i - 1]]);
    }
    Some((payload, end))
}

/// What the writer frames, the reader takes back: for any payload shorter
/// than 2^32 bytes, followed by whatever comes next on the stream, the reader
/// yields exactly that payload and consumes exactly that frame.
pub proof fn lemma_frame_round_trip(payload: Seq<u8>, rest: Seq<u8>)
    requires
        payload.len() < 0x1_0000_0000,
    ensures
        spec_decode_frame(spec_frame(payload) + rest) == Some((payload, (4 + payload.len()) as nat)),
{
    let buf = spec_frame(payload) + rest;
    let n = payload.len();
    assert(buf.take(4) =~= be_bytes(n));
    assert(be_value(be_bytes(n)) == n) by (nonlinear_arith)
        requires
            n < 0x1_0000_0000,
            be_bytes(n)[0] == (n / 0x100_0000) as u8,
            be_bytes(n)[1] == ((n / 0x1_0000) % 0x100) as u8,
            be_bytes(n)[2] == ((n / 0x100) % 0x100) as u8,
            be_bytes(n)[3] == (n % 0x100) as u8,
            be_value(be_bytes(n)) == be_bytes(n)[0] * 0x100_0000 + be_bytes(n)[1] * 0x1_0000 + be_bytes(n)[2] * 0x100 + be_bytes(n)[3],
    ;
    assert(buf.subrange(4, 4 + n as int) =~= payload);
}

} // verus!
