//! The echo buffer.
//!
//! A worker receives into a fixed-capacity scratch buffer; only a prefix of it
//! holds the bytes of the current read or datagram. The reply is exactly that
//! prefix, copied out byte for byte.

use vstd::prelude::*;

verus! {

/// Copies the first `amt` bytes of the receive buffer into a fresh reply
/// buffer. The reply holds exactly the received bytes, in order.
pub fn copy_prefix(buf: &Vec<u8>, amt: usize) -> (reply: Vec<u8>)
    requires
        amt <= buf.len(),
    ensures
        reply@ == buf@.subrange(0, amt as int),
{
    let mut reply: Vec<u8> = Vec::new();
    let mut i: usize = 0;
    while i < amt
        invariant
            i <= amt,
            amt <= buf.len(),
            reply@ == buf@.subrange(0, i as int),
        decreases amt - i,
    {
        reply.push(buf[i]);
        assert(reply@ =~= buf@.subrange(0, (i + 1) as int));
        i = i + 1;
    }
    reply
}

} // verus!
