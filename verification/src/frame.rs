//! Transport framer: command bytes and bus frames.
//!
//! Every register access is exactly one bus transaction of `1 + width`
//! bytes: a command byte, then the payload. The command byte carries the
//! register address in its low six bits and the direction in bit 6 (set
//! for a read, clear for a write); bit 7 is always zero. A read transmits
//! the command byte followed by `width` don't-care bytes and captures the
//! response in place, so the register payload is the trailing `width`
//! bytes of the exchanged frame. A write transmits the command byte
//! followed by the `width` encoded payload bytes and captures nothing.
//!
//! The byte exchange itself is the caller's synchronous, exclusive bus
//! primitive; this module only decides, and proves, what the frames hold.
//! No retry is attempted anywhere: a failed exchange is reported unchanged
//! and the register's state must be treated as stale.

use vstd::prelude::*;
use crate::catalog::{Access, RegisterDescriptor};

verus! {

/// The command byte of a read: the address with the read flag set.
pub fn read_command(address: u8) -> (r: u8)
    requires
        address <= 0x3f,
    ensures
        r == address | 0x40,
        r == address + 0x40,
{
    proof {
        lemma_command_byte(address);
    }
    address | 0x40
}

/// The command byte of a write: the address with the direction flag clear,
/// which leaves the address itself.
pub fn write_command(address: u8) -> (r: u8)
    requires
        address <= 0x3f,
    ensures
        r == address | 0x00,
        r == address,
{
    proof {
        lemma_command_byte(address);
    }
    address | 0x00
}

/// Command byte construction, for every six-bit register address: a read
/// command is the address with only bit 6 set on top, a write command is
/// the address unchanged, the address is recoverable from either, and
/// bit 7 stays zero.
pub proof fn lemma_command_byte(address: u8)
    requires
        address <= 0x3f,
    ensures
        address | 0x40 == address + 0x40,
        address | 0x00 == address,
        (address | 0x40) & 0x3f == address,
        (address | 0x40) >> 6 == 1,
        (address | 0x00) >> 6 == 0,
{
    assert(address <= 0x3f ==> {
        &&& address | 0x40 == address + 0x40
        &&& address | 0x00 == address
        &&& (address | 0x40) & 0x3f == address
        &&& (address | 0x40) >> 6 == 1
        &&& (address | 0x00) >> 6 == 0
    }) by (bit_vector);
}

/// Builds the frame a read transaction transmits: the read command byte,
/// then one don't-care zero byte for each payload byte the device will
/// shift out in its place.
pub fn build_read_frame(d: &RegisterDescriptor) -> (r: Vec<u8>)
    requires
        d.wf(),
    ensures
        r@.len() == d.width + 1,
        r@[0] == d.address | 0x40,
        forall|i: int| 1 <= i < r@.len() ==> r@[i] == 0,
{
    let mut v: Vec<u8> = Vec::new();
    v.push(read_command(d.address));
    let mut i: u8 = 0;
    while i < d.width
        invariant
            i <= d.width,
            d.wf(),
            v@.len() == i + 1,
            v@[0] == d.address | 0x40,
            forall|j: int| 1 <= j < v@.len() ==> v@[j] == 0,
        decreases d.width - i,
    {
        v.push(0);
        i += 1;
    }
    v
}

/// Builds the frame a write transaction transmits: the write command byte,
/// then the encoded payload. Only registers with read/write capability
/// may be framed for writing.
pub fn build_write_frame(d: &RegisterDescriptor, payload: &[u8]) -> (r: Vec<u8>)
    requires
        d.wf(),
        d.access == Access::ReadWrite,
        payload@.len() == d.width,
    ensures
        r@.len() == d.width + 1,
        r@[0] == d.address,
        r@.subrange(1, r@.len() as int) == payload@,
{
    let mut v: Vec<u8> = Vec::new();
    v.push(write_command(d.address));
    let mut i: usize = 0;
    while i < payload.len()
        invariant
            i <= payload@.len(),
            payload@.len() == d.width,
            d.wf(),
            v@.len() == i + 1,
            v@[0] == d.address,
            forall|j: int| 1 <= j < v@.len() ==> v@[j] == payload@[j - 1],
        decreases payload@.len() - i,
    {
        v.push(payload[i]);
        i += 1;
    }
    proof {
        assert(v@.subrange(1, v@.len() as int) =~= payload@);
    }
    v
}

/// The payload of a completed read: the trailing `width` bytes of the
/// exchanged frame, after the byte clocked out during the command slot.
pub fn read_payload(response: &[u8], width: u8) -> (r: Vec<u8>)
    requires
        1 <= width <= 4,
        response@.len() == width + 1,
    ensures
        r@.len() == width,
        r@ == response@.subrange(1, response@.len() as int),
{
    let mut v: Vec<u8> = Vec::new();
    let mut i: usize = 1;
    while i < response.len()
        invariant
            1 <= i <= response@.len(),
            response@.len() == width + 1,
            v@.len() == i - 1,
            forall|j: int| 0 <= j < v@.len() ==> v@[j] == response@[j + 1],
        decreases response@.len() - i,
    {
        v.push(response[i]);
        i += 1;
    }
    proof {
        assert(v@ =~= response@.subrange(1, response@.len() as int));
    }
    v
}

} // verus!
