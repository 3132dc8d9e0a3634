//! The UART link of the ultrasonic tracker: echo time to distance, and the
//! length-prefixed framing of the messages exchanged over the serial line.
//!
//! A message is one length byte followed by that many payload bytes. Frames
//! are built in postcard's fixed-capacity `HVec<8>` output buffer.
use vstd::prelude::*;
use postcard::ser_flavors::Flavor;

verus! {

#[verifier::external_type_specification]
#[verifier::external_body]
pub struct ExHVec<const B: usize>(postcard::ser_flavors::HVec<B>);

#[verifier::external_type_specification]
#[verifier::external_body]
pub struct ExPostcardError(postcard::Error);

/// Capacity of the frame buffer, in bytes.
pub const FRAME_CAPACITY: usize = 8;

/// The bytes held by an `HVec<8>`, in order.
pub uninterp spec fn hvec_contents(v: postcard::ser_flavors::HVec<8>) -> Seq<u8>;

/// `HVec::<8>::new`: an empty buffer.
#[verifier::external_body]
fn hvec_new() -> (v: postcard::ser_flavors::HVec<8>)
    ensures
        hvec_contents(v) == Seq::<u8>::empty(),
{
    postcard::ser_flavors::HVec::<8>::new()
}

/// `<HVec<8> as Flavor>::try_push`: appends the byte and returns `Ok` while
/// fewer than 8 bytes are held; otherwise leaves the buffer as it was and
/// returns `Err` (`heapless::Vec::push` refuses when full).
#[verifier::external_body]
fn hvec_try_push(v: &mut postcard::ser_flavors::HVec<8>, byte: u8) -> (r: Result<
    (),
    postcard::Error,
>)
    ensures
        hvec_contents(*old(v)).len() < 8 ==> r.is_ok() && hvec_contents(*final(v)) == hvec_contents(
            *old(v),
        ).push(byte),
        hvec_contents(*old(v)).len() >= 8 ==> r.is_err() && hvec_contents(*final(v))
            == hvec_contents(*old(v)),
{
    v.try_push(byte)
}

/// `<HVec<8> as Flavor>::try_extend`: appends all of `data` and returns `Ok`
/// when it fits in the remaining capacity; otherwise leaves the buffer as it
/// was and returns `Err` (`heapless::Vec::extend_from_slice` checks the room
/// first).
#[verifier::external_body]
fn hvec_try_extend(v: &mut postcard::ser_flavors::HVec<8>, data: &[u8]) -> (r: Result<
    (),
    postcard::Error,
>)
    ensures
        hvec_contents(*old(v)).len() + data@.len() <= 8 ==> r.is_ok() && hvec_contents(*final(v))
            == hvec_contents(*old(v)) + data@,
        hvec_contents(*old(v)).len() + data@.len() > 8 ==> r.is_err() && hvec_contents(*final(v))
            == hvec_contents(*old(v)),
{
    v.try_extend(data)
}

/// `<HVec<8> as Flavor>::finalize`: always `Ok` with the bytes held, here
/// copied out of the `heapless::Vec` into a `Vec`.
#[verifier::external_body]
fn hvec_finalize(v: postcard::ser_flavors::HVec<8>) -> (r: Result<Vec<u8>, postcard::Error>)
    ensures
        r.is_ok(),
        r.unwrap()@ == hvec_contents(v),
{
    match v.finalize() {
        Ok(bytes) => Ok(bytes.to_vec()),
        Err(e) => Err(e),
    }
}

/// The frame of a payload: its length byte (the length taken modulo 256),
/// then the payload itself when both fit in `FRAME_CAPACITY` bytes; the
/// length byte alone otherwise.
pub open spec fn framed(payload: Seq<u8>) -> Seq<u8> {
    let header = seq![(payload.len() % 0x100) as u8];
    if 1 + payload.len() <= FRAME_CAPACITY {
        header + payload
    } else {
        header
    }
}

/// Frames a payload for the serial line.
pub fn frame_message(payload: &[u8]) -> (message: Vec<u8>)
    ensures
        message@ == framed(payload@),
{
    let n = payload.len();
    let length_byte = n as u8;
    assert(length_byte == n % 0x100) by (bit_vector)
        requires
            length_byte == n as u8,
    ;
    let mut message_vec = hvec_new();
    let _ = hvec_try_push(&mut message_vec, length_byte);
    let _ = hvec_try_extend(&mut message_vec, payload);
    let message = hvec_finalize(message_vec).unwrap();
    assert(seq![(payload@.len() % 0x100) as u8] =~= Seq::<u8>::empty().push(length_byte));
    message
}

/// Size of the receive buffer: that of the message record (one `u32`).
pub const MESSAGE_BUFFER_LEN: usize = 4;

/// The buffer after receiving `message`: the payload announced by the length
/// byte in front, the remaining bytes of the buffer unchanged.
pub open spec fn received(message: Seq<u8>, buffer: Seq<u8>) -> Seq<u8> {
    let n = message[0] as int;
    message.subrange(1, 1 + n) + buffer.subrange(n, buffer.len() as int)
}

/// Receives one message from the bytes read off the serial line: the first
/// byte gives the payload length `n`, the next `n` bytes are copied to the
/// front of `buffer`. Returns `n`.
pub fn receive_message(message: &[u8], buffer: &mut [u8; 4]) -> (n: usize)
    requires
        message@.len() >= 1,
        message[0] <= MESSAGE_BUFFER_LEN,
        message@.len() >= 1 + message[0],
    ensures
        n == message[0],
        final(buffer)@ == received(message@, old(buffer)@),
{
    let n = message[0] as usize;
    let mut i: usize = 0;
    while i < n
        invariant
            i <= n,
            n == message[0],
            n <= MESSAGE_BUFFER_LEN,
            message@.len() >= 1 + n,
            buffer@ == message@.subrange(1, 1 + i as int) + old(buffer)@.subrange(i as int, 4),
        decreases n - i,
    {
        buffer[i] = message[i + 1];
        i = i + 1;
        assert(buffer@ =~= message@.subrange(1, 1 + i as int) + old(buffer)@.subrange(i as int, 4));
    }
    n
}

/// Distance in centimetres for an echo time in microseconds: half the round
/// trip, at 29 microseconds per centimetre.
pub fn echo_distance_cm(echo_us: u32) -> (cm: u32)
    ensures
        cm == echo_us / 2 / 29,
        cm == echo_us / 58,
{
    echo_us / 2 / 29
}

/// A message framed from a payload that fits the receive buffer is received
/// back as that payload, in front of the buffer.
pub proof fn lemma_frame_then_receive(payload: Seq<u8>, buffer: Seq<u8>)
    requires
        payload.len() <= MESSAGE_BUFFER_LEN,
        buffer.len() == MESSAGE_BUFFER_LEN,
    ensures
        framed(payload).len() == 1 + payload.len(),
        framed(payload)[0] == payload.len(),
        received(framed(payload), buffer).subrange(0, payload.len() as int) == payload,
        received(framed(payload), buffer).len() == MESSAGE_BUFFER_LEN,
{
    let m = framed(payload);
    assert(m.subrange(1, 1 + payload.len() as int) =~= payload);
    assert(received(m, buffer).subrange(0, payload.len() as int) =~= payload);
}

} // verus!
