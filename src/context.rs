use vstd::prelude::*;

verus! {

/// Number of bytes carried by every event payload.
pub const CONTEXT_BYTES: usize = 16;

/// The unsigned 16-bit value stored little-endian at `slot` (bytes `2 * slot` and
/// `2 * slot + 1`).
pub open spec fn u16_slot(bytes: Seq<u8>, slot: int) -> int {
    bytes[2 * slot] + 256 * bytes[2 * slot + 1]
}

/// The signed reading of a 16-bit pattern (two's complement).
pub open spec fn signed16(u: int) -> int {
    if u >= 32768 {
        u - 65536
    } else {
        u
    }
}

/// The 16-bit pattern that stores a signed value (two's complement).
pub open spec fn unsigned16(v: int) -> int {
    if v < 0 {
        v + 65536
    } else {
        v
    }
}

/// A fixed 16-byte payload carried by an event. It has no type tag: producer and
/// consumer agree on its layout by the event code. Typed accessors read and write
/// it as unsigned 8-bit slots, or as unsigned or signed 16-bit little-endian slots.
#[derive(Clone, Copy, Debug)]
pub struct EventContext {
    pub data: [u8; 16],
}

impl EventContext {
    pub open spec fn view_bytes(self) -> Seq<u8> {
        self.data@
    }

    /// The payload whose bytes are all zero.
    pub open spec fn spec_zeroed() -> EventContext {
        EventContext { data: vstd::array::spec_array_fill_for_copy_type::<u8, 16>(0u8) }
    }

    /// A payload whose bytes are all zero.
    pub fn zeroed() -> (r: EventContext)
        ensures
            r == EventContext::spec_zeroed(),
            r.data@.len() == CONTEXT_BYTES,
            forall|i: int| 0 <= i < CONTEXT_BYTES ==> r.data@[i] == 0,
    {
        EventContext { data: [0u8; 16] }
    }

    /// The byte at `slot`.
    pub fn get_u8(&self, slot: usize) -> (r: u8)
        requires
            slot < CONTEXT_BYTES,
        ensures
            r == self.data@[slot as int],
    {
        self.data[slot]
    }

    /// Stores `value` at byte `slot`; the other bytes stay.
    pub fn set_u8(&mut self, slot: usize, value: u8)
        requires
            slot < CONTEXT_BYTES,
        ensures
            final(self).data@ == old(self).data@.update(slot as int, value),
    {
        self.data[slot] = value;
    }

    /// The unsigned 16-bit value at 16-bit `slot`.
    pub fn get_u16(&self, slot: usize) -> (r: u16)
        requires
            slot < CONTEXT_BYTES / 2,
        ensures
            r as int == u16_slot(self.data@, slot as int),
    {
        let lo = self.data[2 * slot] as u16;
        let hi = self.data[2 * slot + 1] as u16;
        lo + 256 * hi
    }

    /// Stores `value` at 16-bit `slot`; the bytes of the other slots stay.
    pub fn set_u16(&mut self, slot: usize, value: u16)
        requires
            slot < CONTEXT_BYTES / 2,
        ensures
            u16_slot(final(self).data@, slot as int) == value as int,
            forall|i: int|
                0 <= i < CONTEXT_BYTES && i != 2 * slot && i != 2 * slot + 1 ==> final(self).data@[i] == old(self).data@[i],
    {
        let lo = (value % 256) as u8;
        let hi = (value / 256) as u8;
        self.data[2 * slot] = lo;
        self.data[2 * slot + 1] = hi;
    }

    /// The signed 16-bit value at 16-bit `slot`.
    pub fn get_i16(&self, slot: usize) -> (r: i16)
        requires
            slot < CONTEXT_BYTES / 2,
        ensures
            r as int == signed16(u16_slot(self.data@, slot as int)),
    {
        let u = self.get_u16(slot);
        if u >= 32768 {
            (u as i32 - 65536) as i16
        } else {
            u as i16
        }
    }

    /// Stores `value` at 16-bit `slot`; the bytes of the other slots stay.
    pub fn set_i16(&mut self, slot: usize, value: i16)
        requires
            slot < CONTEXT_BYTES / 2,
        ensures
            u16_slot(final(self).data@, slot as int) == unsigned16(value as int),
            signed16(u16_slot(final(self).data@, slot as int)) == value as int,
            forall|i: int|
                0 <= i < CONTEXT_BYTES && i != 2 * slot && i != 2 * slot + 1 ==> final(self).data@[i] == old(self).data@[i],
    {
        let u: u16 = if value < 0 {
            (value as i32 + 65536) as u16
        } else {
            value as u16
        };
        self.set_u16(slot, u);
    }

    /// A zeroed payload whose first 16-bit slot holds `value` (a key code or a
    /// button id).
    pub fn from_u16(value: u16) -> (r: EventContext)
        ensures
            u16_slot(r.data@, 0) == value as int,
            forall|i: int| 2 <= i < CONTEXT_BYTES ==> r.data@[i] == 0,
    {
        let mut c = EventContext::zeroed();
        c.set_u16(0, value);
        c
    }

    /// A zeroed payload whose first two 16-bit slots hold `a` and `b` unsigned.
    pub fn from_u16_pair(a: u16, b: u16) -> (r: EventContext)
        ensures
            u16_slot(r.data@, 0) == a as int,
            u16_slot(r.data@, 1) == b as int,
            forall|i: int| 4 <= i < CONTEXT_BYTES ==> r.data@[i] == 0,
    {
        let mut c = EventContext::zeroed();
        c.set_u16(0, a);
        c.set_u16(1, b);
        c
    }

    /// A zeroed payload whose first two 16-bit slots hold `x` and `y` signed.
    pub fn from_i16_pair(x: i16, y: i16) -> (r: EventContext)
        ensures
            signed16(u16_slot(r.data@, 0)) == x as int,
            signed16(u16_slot(r.data@, 1)) == y as int,
            forall|i: int| 4 <= i < CONTEXT_BYTES ==> r.data@[i] == 0,
    {
        let mut c = EventContext::zeroed();
        c.set_i16(0, x);
        c.set_i16(1, y);
        c
    }
}

} // verus!
