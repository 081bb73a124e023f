//! A writer of bytes and fixed-width integers that never panics: what does
//! not fit is refused and leaves the buffer as it was.

use vstd::prelude::*;

verus! {

/// The order in which the bytes of an integer are written.
#[derive(Clone, Copy, Debug, PartialEq, Eq, Structural)]
pub enum ByteOrder {
    /// Most significant byte first.
    BigEndian,
    /// Least significant byte first.
    LittleEndian,
}

/// The two bytes of `value`, most significant first.
pub open spec fn be_u16(value: u16) -> Seq<u8> {
    seq![(value / 0x100) as u8, (value % 0x100) as u8]
}

/// The four bytes of `value`, most significant first.
pub open spec fn be_u32(value: u32) -> Seq<u8> {
    seq![
        (value / 0x100_0000) as u8,
        (value / 0x1_0000 % 0x100) as u8,
        (value / 0x100 % 0x100) as u8,
        (value % 0x100) as u8,
    ]
}

/// The eight bytes of `value`, most significant first.
pub open spec fn be_u64(value: u64) -> Seq<u8> {
    be_u32((value / 0x1_0000_0000) as u32) + be_u32((value % 0x1_0000_0000) as u32)
}

/// The bytes in the given order, of a sequence that is written most
/// significant byte first.
pub open spec fn ordered(big_endian: Seq<u8>, order: ByteOrder) -> Seq<u8> {
    match order {
        ByteOrder::BigEndian => big_endian,
        ByteOrder::LittleEndian => big_endian.reverse(),
    }
}

/// The number that two bytes stand for in the given order.
pub open spec fn decode_u16(bytes: Seq<u8>, order: ByteOrder) -> u16
    recommends
        bytes.len() == 2,
{
    match order {
        ByteOrder::BigEndian => (bytes[0] * 0x100 + bytes[1]) as u16,
        ByteOrder::LittleEndian => (bytes[1] * 0x100 + bytes[0]) as u16,
    }
}

/// The number that four bytes stand for in the given order.
pub open spec fn decode_u32(bytes: Seq<u8>, order: ByteOrder) -> u32
    recommends
        bytes.len() == 4,
{
    let big_endian = ordered(bytes, order);
    (big_endian[0] * 0x100_0000 + big_endian[1] * 0x1_0000 + big_endian[2] * 0x100
        + big_endian[3]) as u32
}

/// The number that eight bytes stand for in the given order.
pub open spec fn decode_u64(bytes: Seq<u8>, order: ByteOrder) -> u64
    recommends
        bytes.len() == 8,
{
    let big_endian = ordered(bytes, order);
    (decode_u32(big_endian.subrange(0, 4), ByteOrder::BigEndian) * 0x1_0000_0000 + decode_u32(
        big_endian.subrange(4, 8),
        ByteOrder::BigEndian,
    )) as u64
}

/// Reading gives back what was written, in either order.
pub proof fn lemma_u16_round_trip(value: u16, order: ByteOrder)
    ensures
        ordered(be_u16(value), order).len() == 2,
        decode_u16(ordered(be_u16(value), order), order) == value,
{
}

/// Reading gives back what was written, in either order.
pub proof fn lemma_u32_round_trip(value: u32, order: ByteOrder)
    ensures
        ordered(be_u32(value), order).len() == 4,
        decode_u32(ordered(be_u32(value), order), order) == value,
{
    assert(ordered(ordered(be_u32(value), order), order) =~= be_u32(value));
}

/// Reading gives back what was written, in either order.
pub proof fn lemma_u64_round_trip(value: u64, order: ByteOrder)
    ensures
        ordered(be_u64(value), order).len() == 8,
        decode_u64(ordered(be_u64(value), order), order) == value,
{
    let high = (value / 0x1_0000_0000) as u32;
    let low = (value % 0x1_0000_0000) as u32;
    assert(ordered(ordered(be_u64(value), order), order) =~= be_u64(value));
    assert(be_u64(value).subrange(0, 4) =~= be_u32(high));
    assert(be_u64(value).subrange(4, 8) =~= be_u32(low));
    lemma_u32_round_trip(high, ByteOrder::BigEndian);
    lemma_u32_round_trip(low, ByteOrder::BigEndian);
}

/// A byte buffer that is written from front to back. It grows as needed, or
/// up to a limit that it was made with.
#[derive(Debug)]
pub struct ByteBuffer {
    data: Vec<u8>,
    limit: Option<usize>,
    order: ByteOrder,
}

/// A byte buffer as plain values.
pub struct BufferView {
    /// What has been written.
    pub bytes: Seq<u8>,
    /// The largest number of bytes that the buffer takes, if it is bounded.
    pub limit: Option<usize>,
    /// The order in which integers are written.
    pub order: ByteOrder,
}

impl BufferView {
    /// `extra` more bytes can be written.
    pub open spec fn fits(self, extra: int) -> bool {
        match self.limit {
            Some(limit) => self.bytes.len() + extra <= limit,
            None => true,
        }
    }

    /// How many more bytes the buffer takes, if it is bounded.
    pub open spec fn remaining(self) -> Option<usize> {
        match self.limit {
            Some(limit) => Some(
                if self.bytes.len() <= limit {
                    (limit - self.bytes.len()) as usize
                } else {
                    0
                },
            ),
            None => None,
        }
    }

    /// The buffer after `extra` was written, where it fits; else the buffer
    /// as it is.
    pub open spec fn put(self, extra: Seq<u8>) -> BufferView {
        if self.fits(extra.len() as int) {
            BufferView { bytes: self.bytes + extra, ..self }
        } else {
            self
        }
    }
}

impl View for ByteBuffer {
    type V = BufferView;

    closed spec fn view(&self) -> BufferView {
        BufferView { bytes: self.data@, limit: self.limit, order: self.order }
    }
}

impl ByteBuffer {
    /// An empty buffer that grows as needed and writes big-endian.
    pub fn new() -> (buffer: Self)
        ensures
            buffer@ == (BufferView {
                bytes: Seq::empty(),
                limit: None,
                order: ByteOrder::BigEndian,
            }),
    {
        ByteBuffer { data: Vec::new(), limit: None, order: ByteOrder::BigEndian }
    }

    /// An empty buffer that takes at most `limit` bytes and writes
    /// big-endian.
    pub fn with_limit(limit: usize) -> (buffer: Self)
        ensures
            buffer@ == (BufferView {
                bytes: Seq::empty(),
                limit: Some(limit),
                order: ByteOrder::BigEndian,
            }),
    {
        ByteBuffer { data: Vec::new(), limit: Some(limit), order: ByteOrder::BigEndian }
    }

    /// The same buffer, writing integers in `order` from now on.
    pub fn with_order(self, order: ByteOrder) -> (buffer: Self)
        ensures
            buffer@ == (BufferView { order, ..self@ }),
    {
        ByteBuffer { data: self.data, limit: self.limit, order }
    }

    /// The order in which integers are written.
    pub fn order(&self) -> (order: ByteOrder)
        ensures
            order == self@.order,
    {
        self.order
    }

    /// The number of bytes written.
    pub fn len(&self) -> (len: usize)
        ensures
            len == self@.bytes.len(),
    {
        self.data.len()
    }

    /// What has been written.
    pub fn as_slice(&self) -> (bytes: &[u8])
        ensures
            bytes@ == self@.bytes,
    {
        self.data.as_slice()
    }

    /// What has been written, as a vector of its own.
    pub fn into_vec(self) -> (bytes: Vec<u8>)
        ensures
            bytes@ == self@.bytes,
    {
        self.data
    }

    /// How many more bytes the buffer takes, if it is bounded.
    pub fn remaining(&self) -> (room: Option<usize>)
        ensures
            room == self@.remaining(),
    {
        match self.limit {
            Some(limit) => Some(
                if self.data.len() <= limit {
                    limit - self.data.len()
                } else {
                    0
                },
            ),
            None => None,
        }
    }

    /// Whether `extra` more bytes can be written.
    pub fn has_room(&self, extra: usize) -> (fits: bool)
        ensures
            fits == self@.fits(extra as int),
    {
        match self.limit {
            Some(limit) => self.data.len() <= limit && extra <= limit - self.data.len(),
            None => true,
        }
    }

    /// Writes one byte, if it fits.
    pub fn put_u8(&mut self, value: u8) -> (written: bool)
        ensures
            written == old(self)@.fits(1),
            final(self)@ == old(self)@.put(seq![value]),
    {
        if !self.has_room(1) {
            return false;
        }
        self.data.push(value);
        assert(self.data@ =~= old(self).data@ + seq![value]);
        true
    }

    /// Writes the two bytes of `value` in the buffer's order, if they fit.
    pub fn put_u16(&mut self, value: u16) -> (written: bool)
        ensures
            written == old(self)@.fits(2),
            final(self)@ == old(self)@.put(ordered(be_u16(value), old(self)@.order)),
            ordered(be_u16(value), old(self)@.order).len() == 2,
    {
        if !self.has_room(2) {
            return false;
        }
        let high: u8 = (value / 0x100) as u8;
        let low: u8 = (value % 0x100) as u8;
        match self.order {
            ByteOrder::BigEndian => {
                self.data.push(high);
                self.data.push(low);
            },
            ByteOrder::LittleEndian => {
                self.data.push(low);
                self.data.push(high);
            },
        }
        assert(self.data@ =~= old(self).data@ + ordered(be_u16(value), self.order));
        true
    }

    /// Writes the four bytes of `value` in the buffer's order, if they fit.
    pub fn put_u32(&mut self, value: u32) -> (written: bool)
        ensures
            written == old(self)@.fits(4),
            final(self)@ == old(self)@.put(ordered(be_u32(value), old(self)@.order)),
            ordered(be_u32(value), old(self)@.order).len() == 4,
    {
        if !self.has_room(4) {
            return false;
        }
        let b0: u8 = (value / 0x100_0000) as u8;
        let b1: u8 = (value / 0x1_0000 % 0x100) as u8;
        let b2: u8 = (value / 0x100 % 0x100) as u8;
        let b3: u8 = (value % 0x100) as u8;
        match self.order {
            ByteOrder::BigEndian => {
                self.data.push(b0);
                self.data.push(b1);
                self.data.push(b2);
                self.data.push(b3);
            },
            ByteOrder::LittleEndian => {
                self.data.push(b3);
                self.data.push(b2);
                self.data.push(b1);
                self.data.push(b0);
            },
        }
        assert(self.data@ =~= old(self).data@ + ordered(be_u32(value), self.order));
        true
    }

    /// Writes the eight bytes of `value` in the buffer's order, if they fit.
    pub fn put_u64(&mut self, value: u64) -> (written: bool)
        ensures
            written == old(self)@.fits(8),
            final(self)@ == old(self)@.put(ordered(be_u64(value), old(self)@.order)),
            ordered(be_u64(value), old(self)@.order).len() == 8,
    {
        if !self.has_room(8) {
            return false;
        }
        let high: u32 = (value / 0x1_0000_0000) as u32;
        let low: u32 = (value % 0x1_0000_0000) as u32;
        let ghost before = self.data@;
        match self.order {
            ByteOrder::BigEndian => {
                self.put_u32(high);
                self.put_u32(low);
                assert(self.data@ =~= before + be_u64(value));
            },
            ByteOrder::LittleEndian => {
                self.put_u32(low);
                self.put_u32(high);
                assert(self.data@ =~= before + be_u64(value).reverse());
            },
        }
        true
    }

    /// Writes the bytes as they are, if they fit.
    pub fn put_bytes(&mut self, bytes: &[u8]) -> (written: bool)
        ensures
            written == old(self)@.fits(bytes@.len() as int),
            final(self)@ == old(self)@.put(bytes@),
    {
        if !self.has_room(bytes.len()) {
            return false;
        }
        self.data.extend_from_slice(bytes);
        assert(self.data@ =~= old(self).data@ + bytes@);
        true
    }
}

/// The first two bytes as a number in the given order, if there are two.
pub fn read_u16(bytes: &[u8], order: ByteOrder) -> (value: Option<u16>)
    ensures
        value == if bytes@.len() >= 2 {
            Some(decode_u16(bytes@.subrange(0, 2), order))
        } else {
            None
        },
{
    if bytes.len() < 2 {
        return None;
    }
    let first: u16 = bytes[0] as u16;
    let second: u16 = bytes[1] as u16;
    Some(
        match order {
            ByteOrder::BigEndian => first * 0x100 + second,
            ByteOrder::LittleEndian => second * 0x100 + first,
        },
    )
}

} // verus!
