//! Numeric record keys and their byte form.
use vstd::prelude::*;

verus! {

/// A numeric record key, stored as four little-endian bytes.
pub struct Key(u32);

/// The little-endian integer of four bytes.
pub open spec fn le_value(b: Seq<u8>) -> int {
    b[0] as int + b[1] as int * 0x100 + b[2] as int * 0x1_0000 + b[3] as int * 0x100_0000
}

impl View for Key {
    type V = u32;

    closed spec fn view(&self) -> u32 {
        self.0
    }
}

impl Key {
    /// The key that follows this one.
    pub fn next(&self) -> (r: Key)
        requires
            self@ < u32::MAX,
        ensures
            r@ == self@ + 1,
    {
        Key(self.0 + 1)
    }

    /// The four little-endian bytes of the key.
    pub fn as_bytes(&self) -> (r: [u8; 4])
        ensures
            le_value(r@) == self@,
    {
        let v = self.0;
        assert((v & 0xff) <= 0xff && ((v >> 8) & 0xff) <= 0xff && ((v >> 16) & 0xff) <= 0xff && ((v
            >> 24) & 0xff) <= 0xff) by (bit_vector);
        let b0 = (v & 0xff) as u8;
        let b1 = ((v >> 8) & 0xff) as u8;
        let b2 = ((v >> 16) & 0xff) as u8;
        let b3 = ((v >> 24) & 0xff) as u8;
        assert(v == (v & 0xff) + ((v >> 8) & 0xff) * 0x100 + ((v >> 16) & 0xff) * 0x1_0000 + ((v
            >> 24) & 0xff) * 0x100_0000) by (bit_vector);
        let r = [b0, b1, b2, b3];
        assert(r@ =~= seq![b0, b1, b2, b3]);
        r
    }

    /// The key of four little-endian bytes.
    pub fn from_bytes(b: [u8; 4]) -> (r: Key)
        ensures
            r@ == le_value(b@),
    {
        let v: u32 = b[0] as u32 | (b[1] as u32) << 8 | (b[2] as u32) << 16 | (b[3] as u32) << 24;
        let (b0, b1, b2, b3) = (b[0], b[1], b[2], b[3]);
        assert((b0 as u32 | (b1 as u32) << 8 | (b2 as u32) << 16 | (b3 as u32) << 24) == b0 as u32
            + b1 as u32 * 0x100 + b2 as u32 * 0x1_0000 + b3 as u32 * 0x100_0000) by (bit_vector);
        Key(v)
    }
}

impl From<[u8; 4]> for Key {
    fn from(value: [u8; 4]) -> (r: Key) {
        Key::from_bytes(value)
    }
}

impl vstd::std_specs::convert::FromSpecImpl<[u8; 4]> for Key {
    open spec fn obeys_from_spec() -> bool {
        true
    }

    closed spec fn from_spec(v: [u8; 4]) -> Key {
        Key(le_value(v@) as u32)
    }
}

} // verus!
