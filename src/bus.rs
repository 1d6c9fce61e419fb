use vstd::prelude::*;

verus! {

/// Which side of the system issues a bus access.
#[derive(Clone, Copy, Debug, PartialEq, Eq, Structural)]
pub enum Device {
    CPU,
    PPU,
}

/// Byte-wide memory shared by the processor and the picture unit.
///
/// The picture unit assumes nothing about what a read returns: its
/// contracts hold for every value the bus may hand back.
pub trait Bus {
    fn read(&self, address: u16, device: Device) -> u8;

    fn write(&mut self, address: u16, data: u8, device: Device);
}

} // verus!
