//! CAN bus test traffic: a data frame with a fixed standard identifier whose
//! first byte carries a rolling counter.
use vstd::prelude::*;

verus! {

#[verifier::external_type_specification]
#[verifier::external_body]
pub struct ExStandardId(bxcan::StandardId);

/// The raw 11-bit value a `bxcan::StandardId` holds (what its `as_raw`
/// returns).
pub uninterp spec fn standard_id_raw(id: bxcan::StandardId) -> u16;

/// `bxcan::StandardId::new`: returns `Some` exactly when `raw` fits in the 11
/// bits of a standard identifier (`raw <= 0x7FF`), and then the identifier
/// holds `raw`.
#[verifier::external_body]
fn standard_id_new(raw: u16) -> (id: Option<bxcan::StandardId>)
    ensures
        id.is_some() <==> raw <= 0x7FF,
        id.is_some() ==> standard_id_raw(id.unwrap()) == raw,
{
    bxcan::StandardId::new(raw)
}

/// Standard identifier of the test frames.
pub const CAN_TEST_ID: u16 = 0x500;

/// A test frame: its identifier and its eight data bytes.
pub struct CanTestFrame {
    pub id: bxcan::StandardId,
    pub data: [u8; 8],
}

/// The data bytes of the test frame carrying `count`.
pub open spec fn test_payload(count: u8) -> Seq<u8> {
    seq![count, 1u8, 2u8, 3u8, 4u8, 5u8, 6u8, 7u8]
}

/// The test frame carrying `count`: identifier `CAN_TEST_ID`, data
/// `count, 1, 2, ..., 7`.
pub fn test_frame(count: u8) -> (frame: CanTestFrame)
    ensures
        standard_id_raw(frame.id) == CAN_TEST_ID,
        frame.data@ == test_payload(count),
        frame.data@ == seq![count, 1u8, 2u8, 3u8, 4u8, 5u8, 6u8, 7u8],
        frame.data[0] == count,
{
    let id = standard_id_new(CAN_TEST_ID).unwrap();
    let data: [u8; 8] = [count, 1, 2, 3, 4, 5, 6, 7];
    assert(data@ =~= test_payload(count));
    CanTestFrame { id, data }
}

/// The test frame carries the counter unchanged in its first byte and the
/// bytes 1 to 7 after it, whatever the counter.
pub proof fn lemma_test_payload_carries_count(count: u8)
    ensures
        test_payload(count).len() == 8,
        test_payload(count)[0] == count,
        forall|i: int| 1 <= i < 8 ==> test_payload(count)[i] == i,
{
}

/// The counter of the next frame (wrapping from 255 to 0).
pub fn next_count(count: u8) -> (next: u8)
    ensures
        next == (count + 1) % 0x100,
{
    count.wrapping_add(1)
}

} // verus!
