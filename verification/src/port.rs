//! Accesses to byte-wide I/O ports, as values.

use vstd::prelude::*;

verus! {

/// One byte to be written to an I/O port.
#[derive(Clone, Copy, Debug, PartialEq, Eq)]
pub struct PortWrite {
    /// Address of the port.
    pub port: u16,
    /// Byte to write.
    pub value: u8,
}

impl PortWrite {
    /// The write of `value` to `port`.
    pub open spec fn to(port: u16, value: u8) -> PortWrite {
        PortWrite { port, value }
    }

    /// Makes the write of `value` to `port`.
    pub fn new(port: u16, value: u8) -> (write: PortWrite)
        ensures
            write == PortWrite::to(port, value),
    {
        PortWrite { port, value }
    }
}

} // verus!
