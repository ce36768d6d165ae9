//! Canonical byte encodings and the stream that collects them.

use vstd::prelude::*;

verus! {

/// The two bytes of `v`, least significant first.
pub open spec fn u16_le(v: u16) -> Seq<u8> {
    seq![(v % 256) as u8, (v / 256) as u8]
}

/// The four bytes of `v`, least significant first.
pub open spec fn u32_le(v: u32) -> Seq<u8> {
    seq![
        (v % 256) as u8,
        ((v / 256) % 256) as u8,
        ((v / 65536) % 256) as u8,
        (v / 16777216) as u8,
    ]
}

/// The eight bytes of `v`, least significant first.
pub open spec fn u64_le(v: u64) -> Seq<u8> {
    u32_le((v % 4294967296) as u32) + u32_le((v / 4294967296) as u32)
}

/// The variable-length encoding of a count: one byte below 253, otherwise a
/// marker byte followed by the count in two, four or eight bytes.
pub open spec fn compact_size(n: u64) -> Seq<u8> {
    if n < 253 {
        seq![n as u8]
    } else if n <= 0xffff {
        seq![253u8] + u16_le(n as u16)
    } else if n <= 0xffff_ffff {
        seq![254u8] + u32_le(n as u32)
    } else {
        seq![255u8] + u64_le(n)
    }
}

/// A byte string behind its length.
pub open spec fn var_bytes(data: Seq<u8>) -> Seq<u8>
    recommends
        data.len() <= u64::MAX,
{
    compact_size(data.len() as u64) + data
}

/// Two 32-bit values with the same encoding are equal.
pub proof fn lemma_u32_le_injective(a: u32, b: u32)
    requires
        u32_le(a) == u32_le(b),
    ensures
        a == b,
{
    let x = u32_le(a);
    let y = u32_le(b);
    assert(x[0] == y[0] && x[1] == y[1] && x[2] == y[2] && x[3] == y[3]);
}

/// Two 64-bit values with the same encoding are equal.
pub proof fn lemma_u64_le_injective(a: u64, b: u64)
    requires
        u64_le(a) == u64_le(b),
    ensures
        a == b,
{
    let al = (a % 4294967296) as u32;
    let ah = (a / 4294967296) as u32;
    let bl = (b % 4294967296) as u32;
    let bh = (b / 4294967296) as u32;
    assert(u64_le(a).subrange(0, 4) =~= u32_le(al));
    assert(u64_le(a).subrange(4, 8) =~= u32_le(ah));
    assert(u64_le(b).subrange(0, 4) =~= u32_le(bl));
    assert(u64_le(b).subrange(4, 8) =~= u32_le(bh));
    lemma_u32_le_injective(al, bl);
    lemma_u32_le_injective(ah, bh);
}

/// A growing byte string to which values are appended in their canonical
/// encoding.
pub struct Stream {
    buffer: Vec<u8>,
}

impl View for Stream {
    type V = Seq<u8>;

    closed spec fn view(&self) -> Seq<u8> {
        self.buffer@
    }
}

impl Stream {
    /// An empty stream.
    pub fn new() -> (s: Stream)
        ensures
            s@ == Seq::<u8>::empty(),
    {
        Stream { buffer: Vec::new() }
    }

    /// Appends one byte.
    pub fn append_u8(&mut self, v: u8)
        ensures
            final(self)@ == old(self)@.push(v),
    {
        self.buffer.push(v);
    }

    /// Appends `v` in two bytes, least significant first.
    pub fn append_u16(&mut self, v: u16)
        ensures
            final(self)@ == old(self)@ + u16_le(v),
    {
        self.buffer.push((v % 256) as u8);
        self.buffer.push((v / 256) as u8);
        assert(self.buffer@ =~= old(self).buffer@ + u16_le(v));
    }

    /// Appends `v` in four bytes, least significant first.
    pub fn append_u32(&mut self, v: u32)
        ensures
            final(self)@ == old(self)@ + u32_le(v),
    {
        self.buffer.push((v % 256) as u8);
        self.buffer.push(((v / 256) % 256) as u8);
        self.buffer.push(((v / 65536) % 256) as u8);
        self.buffer.push((v / 16777216) as u8);
        assert(self.buffer@ =~= old(self).buffer@ + u32_le(v));
    }

    /// Appends `v` in eight bytes, least significant first.
    pub fn append_u64(&mut self, v: u64)
        ensures
            final(self)@ == old(self)@ + u64_le(v),
    {
        let ghost before = self@;
        self.append_u32((v % 4294967296) as u32);
        self.append_u32((v / 4294967296) as u32);
        assert(self@ =~= before + u64_le(v));
    }

    /// Appends a count in its variable-length encoding.
    pub fn append_compact_size(&mut self, n: u64)
        ensures
            final(self)@ == old(self)@ + compact_size(n),
    {
        let ghost before = self@;
        if n < 253 {
            self.append_u8(n as u8);
        } else if n <= 0xffff {
            self.append_u8(253u8);
            self.append_u16(n as u16);
        } else if n <= 0xffff_ffff {
            self.append_u8(254u8);
            self.append_u32(n as u32);
        } else {
            self.append_u8(255u8);
            self.append_u64(n);
        }
        assert(self@ =~= before + compact_size(n));
    }

    /// Appends bytes as they are.
    pub fn append_raw_slice(&mut self, data: &[u8])
        ensures
            final(self)@ == old(self)@ + data@,
    {
        self.buffer.extend_from_slice(data);
        assert(self.buffer@ =~= old(self).buffer@ + data@);
    }

    /// Appends a byte string behind its length.
    pub fn append_var_bytes(&mut self, data: &[u8])
        ensures
            final(self)@ == old(self)@ + var_bytes(data@),
    {
        let ghost before = self@;
        self.append_compact_size(data.len() as u64);
        self.append_raw_slice(data);
        assert(self@ =~= before + var_bytes(data@));
    }

    /// The bytes collected so far.
    pub fn out(self) -> (bytes: Vec<u8>)
        ensures
            bytes@ == self@,
    {
        self.buffer
    }
}

} // verus!
