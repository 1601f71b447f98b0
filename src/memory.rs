use vstd::prelude::*;

verus! {

/// Number of addressable bytes: the whole 16-bit address space.
pub const MEM_SIZE: usize = 65536;

/// The clocked memory unit: a flat byte store covering every 16-bit address.
/// Reads are total; their cycle cost is accounted for by the engine.
pub struct Memory {
    bytes: Vec<u8>,
}

impl View for Memory {
    type V = Seq<u8>;

    closed spec fn view(&self) -> Seq<u8> {
        self.bytes@
    }
}

impl Memory {
    #[verifier::type_invariant]
    spec fn covers_address_space(&self) -> bool {
        self.bytes@.len() == MEM_SIZE
    }

    /// Every address holds `byte`.
    pub fn filled(byte: u8) -> (r: Memory)
        ensures
            r@.len() == MEM_SIZE,
            forall|i: int| 0 <= i < MEM_SIZE ==> #[trigger] r@[i] == byte,
    {
        let mut bytes: Vec<u8> = Vec::new();
        let mut i: usize = 0;
        while i < MEM_SIZE
            invariant
                i <= MEM_SIZE,
                bytes@.len() == i,
                forall|j: int| 0 <= j < i ==> #[trigger] bytes@[j] == byte,
            decreases MEM_SIZE - i,
        {
            bytes.push(byte);
            i = i + 1;
        }
        Memory { bytes }
    }

    /// Installs `bytes` as the memory contents; byte `i` is held at address `i`.
    pub fn from_bytes(bytes: Vec<u8>) -> (r: Memory)
        requires
            bytes@.len() == MEM_SIZE,
        ensures
            r@ == bytes@,
    {
        Memory { bytes }
    }

    /// The byte held at `address`.
    pub fn read(&self, address: u16) -> (r: u8)
        ensures
            r == self@[address as int],
    {
        proof {
            use_type_invariant(self);
        }
        self.bytes[address as usize]
    }
}

} // verus!
