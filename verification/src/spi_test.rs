//! SPI exercises: the 16-bit test pattern the master sends, and the byte the
//! receiving side answers with.
use vstd::prelude::*;

verus! {

/// The four 16-bit words sent on every transfer.
pub fn spi_test_pattern() -> (words: [u16; 4])
    ensures
        words@ == seq![0x1A2Bu16, 0x3C4Du16, 0xFF11u16, 0x1001u16],
{
    let words: [u16; 4] = [0x1A2B, 0x3C4D, 0xFF11, 0x1001];
    assert(words@ =~= seq![0x1A2Bu16, 0x3C4Du16, 0xFF11u16, 0x1001u16]);
    words
}

/// The answer to a received byte: the byte plus one (255 has no answer: the
/// addition would overflow).
pub fn spi_reply(received: u8) -> (reply: u8)
    requires
        received < 255,
    ensures
        reply == received + 1,
{
    received + 1
}

} // verus!
