//! What a connection to a destination is opened with, and what it returns.

use vstd::prelude::*;
use vstd::std_specs::convert::FromSpecImpl;

verus! {

/// Connection flags for cupsConnectDest
#[derive(Debug, Clone, Copy, PartialEq, Eq, Structural)]
pub enum ConnectionFlags {
    /// Connect to CUPS scheduler
    Scheduler,
    /// Connect directly to device/printer
    Device,
}

pub open spec fn connection_flag_bits(flags: ConnectionFlags) -> u32 {
    match flags {
        ConnectionFlags::Scheduler => 0,
        ConnectionFlags::Device => 1,
    }
}

impl From<ConnectionFlags> for u32 {
    fn from(flags: ConnectionFlags) -> (r: u32)
        ensures
            r == connection_flag_bits(flags),
    {
        match flags {
            ConnectionFlags::Scheduler => 0,
            ConnectionFlags::Device => 1,
        }
    }
}

impl FromSpecImpl<ConnectionFlags> for u32 {
    open spec fn obeys_from_spec() -> bool {
        true
    }

    open spec fn from_spec(v: ConnectionFlags) -> Self {
        connection_flag_bits(v)
    }
}

/// The length of the resource path that CUPS wrote into `buf`: the bytes
/// before the first NUL, or none when there is no NUL.
pub fn resource_len(buf: &[u8]) -> (r: usize)
    ensures
        r <= buf@.len(),
        (exists|i: int| 0 <= i < buf@.len() && buf@[i] == 0) ==> buf@[r as int] == 0 && forall|i: int|
            0 <= i < r ==> buf@[i] != 0,
        (forall|i: int| 0 <= i < buf@.len() ==> buf@[i] != 0) ==> r == 0,
{
    let mut i: usize = 0;
    while i < buf.len()
        invariant
            i <= buf@.len(),
            forall|k: int| 0 <= k < i ==> buf@[k] != 0,
        decreases buf@.len() - i,
    {
        if buf[i] == 0 {
            return i;
        }
        i = i + 1;
    }
    0
}

} // verus!
