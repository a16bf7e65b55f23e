use vstd::prelude::*;

verus! {

/// A program image: the bytes to place in memory from the program start on.
pub struct Cartridge {
    memory: Vec<u8>,
}

impl View for Cartridge {
    type V = Seq<u8>;

    closed spec fn view(&self) -> Seq<u8> {
        self.memory@
    }
}

impl Cartridge {
    /// A cartridge holding a copy of `data`.
    pub fn new(data: &[u8]) -> (r: Cartridge)
        ensures
            r@ == data@,
    {
        Cartridge { memory: vstd::slice::slice_to_vec(data) }
    }

    /// A copy of the program bytes.
    pub fn get_memory(&self) -> (r: Vec<u8>)
        ensures
            r@ == self@,
    {
        let r = self.memory.clone();
        assert(r@ =~= self@);
        r
    }
}

} // verus!
