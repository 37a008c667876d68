//! Short channel messages as packed into one 32-bit word for an output
//! device: status in the low byte, then the first and second data bytes.

use vstd::prelude::*;

use crate::status::StatusType;

verus! {

/// Packs a status category, channel and two data bytes into a short message.
pub fn short_message(status: StatusType, channel: u32, low: u32, high: u32) -> (r: u32)
    ensures
        r == (status.code_spec() as u32) | channel | (high << 16u32) | (low << 8u32),
        channel < 16 && low < 0x80 && high < 0x80 ==> r == status.code_spec() as int + channel
            + low * 0x100 + high * 0x1_0000,
{
    let code = status.code() as u32;
    let r = code | channel | (high << 16u32) | (low << 8u32);
    proof {
        if channel < 16 && low < 0x80 && high < 0x80 {
            assert(code == 0x80 || code == 0x90 || code == 0xA0 || code == 0xB0 || code == 0xC0
                || code == 0xD0 || code == 0xE0 || code == 0xF0);
            assert(code & 0x0F == 0) by (bit_vector)
                requires
                    code == 0x80 || code == 0x90 || code == 0xA0 || code == 0xB0 || code == 0xC0
                        || code == 0xD0 || code == 0xE0 || code == 0xF0,
            ;
            assert(r == code + channel + low * 0x100 + high * 0x1_0000) by (bit_vector)
                requires
                    r == code | channel | (high << 16u32) | (low << 8u32),
                    code < 0x100,
                    code & 0x0F == 0,
                    channel < 16,
                    low < 0x80,
                    high < 0x80,
            ;
        }
    }
    r
}

/// Splits a received short message into its status and two data bytes.
pub fn split_short_message(p: u32) -> (r: (u8, u8, u8))
    ensures
        r.0 == p % 0x100,
        r.1 == (p / 0x100) % 0x100,
        r.2 == (p / 0x1_0000) % 0x100,
{
    let status = p & 0xff;
    let first = (p >> 8u32) & 0xff;
    let second = (p >> 16u32) & 0xff;
    assert(status == p % 0x100 && first == (p / 0x100) % 0x100 && second == (p / 0x1_0000) % 0x100)
        by (bit_vector)
        requires
            status == p & 0xff,
            first == (p >> 8u32) & 0xff,
            second == (p >> 16u32) & 0xff,
    ;
    (status as u8, first as u8, second as u8)
}

} // verus!
