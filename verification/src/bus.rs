use vstd::prelude::*;

verus! {

/// The memory bus: a flat 64 KiB store, readable and writable at every address.
pub struct Bus {
    pub ram: [u8; 65536],
}

impl View for Bus {
    type V = Seq<u8>;

    open spec fn view(&self) -> Seq<u8> {
        self.ram@
    }
}

impl Bus {
    /// A bus whose memory is all zero.
    pub fn new() -> (bus: Self)
        ensures
            bus@.len() == 65536,
            forall|i: int| 0 <= i < 65536 ==> bus@[i] == 0u8,
    {
        Self { ram: [0u8; 65536] }
    }

    /// Stores `data` at `addr`; every other byte keeps its value.
    pub fn write(&mut self, addr: u16, data: u8)
        ensures
            final(self)@ == old(self)@.update(addr as int, data),
    {
        self.ram[addr as usize] = data;
    }

    /// The byte at `addr`. `read_only` tells that the caller only inspects
    /// memory, which matters to devices that react to being read; plain
    /// memory answers the same either way.
    #[allow(unused_variables)]
    pub fn read(&self, addr: u16, read_only: bool) -> (data: u8)
        ensures
            data == self@[addr as int],
    {
        self.ram[addr as usize]
    }
}

} // verus!
