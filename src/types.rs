//! Addresses, lengths, endianness and bit masks.

use vstd::prelude::*;

verus! {

/// Mask with bits `low..=high` set.
pub open spec fn bit_mask_spec(low: u64, high: u64) -> u64 {
    (!0u64 >> ((63 - high) as u64)) & (!0u64 << low)
}

/// Returns a `u64` with the bits `low..=high` set and all others clear.
pub fn make_bit_mask(low: u8, high: u8) -> (r: u64)
    requires
        low <= high,
        high < 64,
    ensures
        r == bit_mask_spec(low as u64, high as u64),
        forall|i: u64| i < 64 ==> (#[trigger] ((r >> i) & 1) == 1 <==> (low <= i && i <= high)),
{
    let r = (!0u64 >> (63 - high) as u64) & (!0u64 << low as u64);
    let l = low as u64;
    let h = high as u64;
    assert(forall|i: u64| i < 64 ==> (#[trigger] ((r >> i) & 1) == 1 <==> (l <= i && i <= h))) by (bit_vector)
        requires
            r == (!0u64 >> (63 - h) as u64) & (!0u64 << l),
            l <= h,
            h < 64,
    ;
    r
}


/// A physical or virtual address of the target.
#[derive(Clone, Copy, Debug, PartialEq, Eq, Structural)]
pub struct Address {
    pub addr: u64,
}

impl Address {
    /// The null address.
    pub fn null() -> (r: Address)
        ensures
            r.addr == 0,
    {
        Address { addr: 0 }
    }

    /// The sentinel for an address that is not valid: all bits set.
    pub fn invalid() -> (r: Address)
        ensures
            r.addr == u64::MAX,
    {
        Address { addr: u64::MAX }
    }

    pub fn from_u64(addr: u64) -> (r: Address)
        ensures
            r.addr == addr,
    {
        Address { addr }
    }

    pub fn as_u64(self) -> (r: u64)
        ensures
            r == self.addr,
    {
        self.addr
    }

    pub fn is_null(self) -> (r: bool)
        ensures
            r == (self.addr == 0),
    {
        self.addr == 0
    }

    /// `None` for the null address, the address otherwise.
    pub fn non_null(self) -> (r: Option<Address>)
        ensures
            r == (if self.addr == 0 { None } else { Some(self) }),
    {
        if self.addr == 0 {
            None
        } else {
            Some(self)
        }
    }

    /// The address rounded down to a multiple of `page_size`, a power of two.
    pub fn as_page_aligned(self, page_size: u64) -> (r: Address)
        requires
            is_pow2(page_size),
        ensures
            r.addr == self.addr & !((page_size - 1) as u64),
    {
        proof {
            lemma_pow2_positive(page_size);
        }
        Address { addr: self.addr & !(page_size - 1) }
    }

    /// Whether bit `bit` (below 64) is set.
    pub fn bit_at(self, bit: u8) -> (r: bool)
        requires
            bit < 64,
        ensures
            r == bit_set(self.addr, bit as u64),
    {
        (self.addr >> bit as u64) & 1 == 1
    }
}

/// Whether bit `i` of `v` is set.
pub open spec fn bit_set(v: u64, i: u64) -> bool {
    (v >> i) & 1 == 1
}

/// Powers of two that fit in a `u64`.
pub open spec fn is_pow2(v: u64) -> bool {
    exists|k: u64| k < 64 && v == (1u64 << k)
}

pub proof fn lemma_pow2_positive(p: u64)
    requires
        is_pow2(p),
    ensures
        p >= 1,
{
    let k = choose|k: u64| k < 64 && p == (1u64 << k);
    assert(p >= 1) by (bit_vector)
        requires
            k < 64,
            p == (1u64 << k),
    ;
}

/// A page of 4 KiB is a power of two.
pub proof fn lemma_pow2_4096()
    ensures
        is_pow2(4096),
{
    let k: u64 = 12;
    assert((1u64 << k) == 4096u64) by (bit_vector)
        requires
            k == 12,
    ;
}

/// A length in bytes.
#[derive(Clone, Copy, Debug, PartialEq, Eq, Structural)]
pub struct Length {
    pub bytes: u64,
}

impl Length {
    pub fn from(bytes: u64) -> (r: Length)
        ensures
            r.bytes == bytes,
    {
        Length { bytes }
    }

    pub fn from_kb(kb: u64) -> (r: Length)
        requires
            kb * 1024 <= u64::MAX,
        ensures
            r.bytes == kb * 1024,
    {
        Length { bytes: kb * 1024 }
    }

    pub fn from_mb(mb: u64) -> (r: Length)
        requires
            mb * 1024 * 1024 <= u64::MAX,
        ensures
            r.bytes == mb * 1024 * 1024,
    {
        Length { bytes: mb * 1024 * 1024 }
    }

    pub fn from_gb(gb: u64) -> (r: Length)
        requires
            gb * 1024 * 1024 * 1024 <= u64::MAX,
        ensures
            r.bytes == gb * 1024 * 1024 * 1024,
    {
        Length { bytes: gb * 1024 * 1024 * 1024 }
    }

    pub fn as_u64(self) -> (r: u64)
        ensures
            r == self.bytes,
    {
        self.bytes
    }
}

/// Byte order of the target.
#[derive(Clone, Copy, Debug, PartialEq, Eq, Structural)]
pub enum Endianess {
    LittleEndian,
    BigEndian,
}

} // verus!
