//! The flat memory image: a fixed-capacity, zero-initialized byte array
//! addressed by 64-bit offsets. All multi-byte accesses are little-endian;
//! every access of width 1, 2, 4 or 8 bytes at address `a` requires
//! `a + width <= capacity`, and a violation is reported as `OutOfBounds`.
//! Accesses need not be naturally aligned: misaligned addresses are permitted.

use vstd::prelude::*;
use vstd::pervasive::VecAdditionalExecFns;
use vstd::arithmetic::div_mod::lemma_mod_breakdown;
use vstd::arithmetic::div_mod::lemma_small_mod;
use crate::CpuError;

verus! {

/// 256 to the power `n`: the number of values `n` bytes can hold.
pub open spec fn pow256(n: nat) -> nat
    decreases n,
{
    if n == 0 {
        1
    } else {
        256 * pow256((n - 1) as nat)
    }
}

/// The unsigned value of the `width` bytes starting at `addr`, read
/// little-endian: the byte at `addr` is the least significant.
pub open spec fn read_le(mem: Seq<u8>, addr: int, width: nat) -> nat
    decreases width,
{
    if width == 0 {
        0
    } else {
        (mem[addr] + 256 * read_le(mem, addr + 1, (width - 1) as nat)) as nat
    }
}

/// The memory after storing the low `width` bytes of `value` little-endian
/// starting at `addr`: the byte at `addr` receives the least significant byte.
pub open spec fn write_le(mem: Seq<u8>, addr: int, width: nat, value: u64) -> Seq<u8>
    decreases width,
{
    if width == 0 {
        mem
    } else {
        write_le(mem.update(addr, (value % 256) as u8), addr + 1, (width - 1) as nat, value / 256)
    }
}

/// Zero- or sign-extension of a `width`-byte value to 64 bits: the value
/// itself when unsigned or small, the value with all high bits set when
/// signed and the top bit of the `width`-byte representation is set.
pub open spec fn extend_value(v: nat, width: nat, signed: bool) -> u64
    recommends
        v < pow256(width),
        0 < width <= 8,
{
    if signed && v >= pow256(width) / 2 {
        (v + 0x1_0000_0000_0000_0000 - pow256(width)) as u64
    } else {
        v as u64
    }
}

/// The accepted access widths: 1, 2, 4 or 8 bytes.
pub open spec fn valid_width(width: u64) -> bool {
    width == 1 || width == 2 || width == 4 || width == 8
}

pub proof fn lemma_pow256_pos(n: nat)
    ensures
        pow256(n) >= 1,
    decreases n,
{
    if n > 0 {
        lemma_pow256_pos((n - 1) as nat);
    }
}

pub proof fn lemma_pow256_mono(m: nat, n: nat)
    requires
        m <= n,
    ensures
        pow256(m) <= pow256(n),
    decreases n,
{
    if m < n {
        lemma_pow256_mono(m, (n - 1) as nat);
        lemma_pow256_pos((n - 1) as nat);
    }
}

/// The values of `pow256` at the accepted widths, and at 8 in particular:
/// an 8-byte value is bounded by 2^64.
pub proof fn lemma_pow256_widths()
    ensures
        pow256(1) == 0x100,
        pow256(2) == 0x1_0000,
        pow256(4) == 0x1_0000_0000,
        pow256(8) == 0x1_0000_0000_0000_0000,
{
    assert(pow256(0) == 1);
    assert(pow256(1) == 0x100);
    assert(pow256(2) == 0x1_0000);
    assert(pow256(3) == 0x100_0000);
    assert(pow256(4) == 0x1_0000_0000);
    assert(pow256(5) == 0x100_0000_0000);
    assert(pow256(6) == 0x1_0000_0000_0000);
    assert(pow256(7) == 0x100_0000_0000_0000);
    assert(pow256(8) == 0x1_0000_0000_0000_0000);
}

/// A `width`-byte little-endian read is bounded by 256^width.
pub proof fn lemma_read_le_bound(mem: Seq<u8>, addr: int, width: nat)
    requires
        0 <= addr,
        addr + width <= mem.len(),
    ensures
        read_le(mem, addr, width) < pow256(width),
    decreases width,
{
    if width > 0 {
        lemma_read_le_bound(mem, addr + 1, (width - 1) as nat);
    }
}

/// A little-endian store keeps the memory's length and touches only the
/// `width` bytes starting at `addr`.
pub proof fn lemma_write_le_frame(mem: Seq<u8>, addr: int, width: nat, value: u64)
    requires
        0 <= addr,
        addr + width <= mem.len(),
    ensures
        write_le(mem, addr, width, value).len() == mem.len(),
        forall|i: int|
            0 <= i < mem.len() && !(addr <= i < addr + width) ==> write_le(
                mem,
                addr,
                width,
                value,
            )[i] == mem[i],
    decreases width,
{
    if width > 0 {
        let first = mem.update(addr, (value % 256) as u8);
        lemma_write_le_frame(first, addr + 1, (width - 1) as nat, value / 256);
        assert forall|i: int|
            0 <= i < mem.len() && !(addr <= i < addr + width) implies write_le(
            mem,
            addr,
            width,
            value,
        )[i] == mem[i] by {
            assert(write_le(first, addr + 1, (width - 1) as nat, value / 256)[i] == first[i]);
            assert(first[i] == mem[i]);
        }
    }
}

/// Store/load round-trip: reading `width` bytes just stored at `addr` yields
/// the stored value reduced modulo 256^width; for a full 8-byte store the
/// original 64-bit value comes back exactly.
pub proof fn lemma_store_load_roundtrip(mem: Seq<u8>, addr: int, width: nat, value: u64)
    requires
        0 <= addr,
        addr + width <= mem.len(),
        width <= 8,
    ensures
        read_le(write_le(mem, addr, width, value), addr, width) == value as int % pow256(width) as int,
        width == 8 ==> read_le(write_le(mem, addr, width, value), addr, width) == value,
    decreases width,
{
    lemma_pow256_widths();
    if width == 0 {
    } else {
        let first = mem.update(addr, (value % 256) as u8);
        let rest = write_le(first, addr + 1, (width - 1) as nat, value / 256);
        lemma_store_load_roundtrip(first, addr + 1, (width - 1) as nat, value / 256);
        lemma_write_le_frame(first, addr + 1, (width - 1) as nat, value / 256);
        assert(write_le(first, addr + 1, (width - 1) as nat, value / 256)[addr] == first[addr]);
        assert(rest[addr] == (value % 256) as u8);
        lemma_pow256_pos((width - 1) as nat);
        lemma_mod_breakdown(value as int, 256, pow256((width - 1) as nat) as int);
        assert(pow256(width) == 256 * pow256((width - 1) as nat));
        if width == 8 {
            lemma_small_mod(value as nat, pow256(8));
        }
    }
}

/// The simulated DRAM: a fixed-length byte vector. The vector's length is
/// the configured capacity and never changes after construction.
pub struct Memory {
    bytes: Vec<u8>,
}

impl Memory {
    /// The mathematical model: the byte contents, whose length is the capacity.
    pub closed spec fn view(&self) -> Seq<u8> {
        self.bytes@
    }

    /// A zero-filled memory of `size` bytes.
    pub fn new(size: u64) -> (r: Memory)
        requires
            size <= usize::MAX,
        ensures
            r@.len() == size,
            forall|i: int| 0 <= i < size ==> r@[i] == 0,
    {
        let bytes: Vec<u8> = vec![0u8; size as usize];
        Memory { bytes }
    }

    /// The capacity in bytes.
    pub fn size(&self) -> (r: u64)
        ensures
            r == self@.len(),
    {
        self.bytes.len() as u64
    }

    /// Copies `image` into memory starting at `origin`. Fails with
    /// `ImageTooLarge`, leaving memory unchanged, exactly when the image
    /// does not fit.
    pub fn load_image(&mut self, image: &Vec<u8>, origin: u64) -> (r: Result<(), CpuError>)
        ensures
            r is Ok <==> origin + image@.len() <= old(self)@.len(),
            r is Err ==> r == Err::<(), CpuError>(CpuError::ImageTooLarge) && final(self)@ == old(
                self,
            )@,
            r is Ok ==> {
                &&& final(self)@.len() == old(self)@.len()
                &&& forall|i: int|
                    origin <= i < origin + image@.len() ==> final(self)@[i] == image@[i - origin]
                &&& forall|i: int|
                    0 <= i < final(self)@.len() && !(origin <= i < origin + image@.len())
                        ==> final(self)@[i] == old(self)@[i]
            },
    {
        let len = self.bytes.len() as u64;
        if image.len() as u64 > len || origin > len - image.len() as u64 {
            return Err(CpuError::ImageTooLarge);
        }
        let mut i: usize = 0;
        while i < image.len()
            invariant
                i <= image@.len(),
                origin + image@.len() <= self@.len(),
                self@.len() <= usize::MAX,
                self@.len() == old(self)@.len(),
                forall|j: int| origin <= j < origin + i ==> self@[j] == image@[j - origin],
                forall|j: int|
                    0 <= j < self@.len() && !(origin <= j < origin + i) ==> self@[j] == old(
                        self,
                    )@[j],
            decreases image@.len() - i,
        {
            self.bytes.set(origin as usize + i, image[i]);
            i = i + 1;
        }
        Ok(())
    }

    /// Reads `width` bytes little-endian starting at `addr` and zero- or
    /// sign-extends the value to 64 bits per `signed`. Fails with
    /// `OutOfBounds` exactly when the range exceeds the capacity.
    pub fn read(&self, addr: u64, width: u64, signed: bool) -> (r: Result<u64, CpuError>)
        requires
            valid_width(width),
        ensures
            r is Ok <==> addr + width <= self@.len(),
            r is Err ==> r == Err::<u64, CpuError>(CpuError::OutOfBounds),
            r is Ok ==> r == Ok::<u64, CpuError>(
                extend_value(read_le(self@, addr as int, width as nat), width as nat, signed),
            ),
    {
        let len = self.bytes.len() as u64;
        if len < width || addr > len - width {
            return Err(CpuError::OutOfBounds);
        }
        proof {
            lemma_read_le_bound(self@, addr as int, width as nat);
            lemma_pow256_widths();
            lemma_pow256_mono(width as nat, 8);
        }
        let mut acc: u64 = 0;
        let mut i: u64 = width;
        while i > 0
            invariant
                i <= width,
                valid_width(width),
                addr + width <= self@.len(),
                self@.len() <= usize::MAX,
                acc == read_le(self@, addr + i, (width - i) as nat),
                acc < pow256((width - i) as nat),
            decreases i,
        {
            proof {
                lemma_read_le_bound(self@, addr + i - 1, (width - i + 1) as nat);
                lemma_pow256_mono((width - i + 1) as nat, 8);
                lemma_pow256_widths();
            }
            let b = self.bytes[(addr + i - 1) as usize];
            acc = acc * 256 + b as u64;
            i = i - 1;
        }
        let half = pow_half(width);
        if signed && acc >= half {
            proof {
                lemma_pow256_widths();
            }
            Ok(acc + (0xFFFF_FFFF_FFFF_FFFF - pow_minus_one(width)))
        } else {
            Ok(acc)
        }
    }

    /// Writes the low `width` bytes of `value` little-endian at `addr`.
    /// Fails with `OutOfBounds`, leaving memory unchanged, exactly when the
    /// range exceeds the capacity.
    pub fn write(&mut self, addr: u64, width: u64, value: u64) -> (r: Result<(), CpuError>)
        requires
            valid_width(width),
        ensures
            r is Ok <==> addr + width <= old(self)@.len(),
            r is Err ==> r == Err::<(), CpuError>(CpuError::OutOfBounds) && final(self)@ == old(
                self,
            )@,
            r is Ok ==> final(self)@ == write_le(old(self)@, addr as int, width as nat, value),
    {
        let len = self.bytes.len() as u64;
        if len < width || addr > len - width {
            return Err(CpuError::OutOfBounds);
        }
        let mut i: u64 = 0;
        let mut v: u64 = value;
        while i < width
            invariant
                i <= width,
                valid_width(width),
                addr + width <= old(self)@.len(),
                old(self)@.len() <= usize::MAX,
                self@.len() == old(self)@.len(),
                write_le(old(self)@, addr as int, width as nat, value) == write_le(
                    self@,
                    addr + i,
                    (width - i) as nat,
                    v,
                ),
            decreases width - i,
        {
            self.bytes.set((addr + i) as usize, (v % 256) as u8);
            v = v / 256;
            i = i + 1;
        }
        Ok(())
    }
}

/// Half of 256^width as a `u64`: the least value whose top bit is set in a
/// `width`-byte representation.
fn pow_half(width: u64) -> (r: u64)
    requires
        valid_width(width),
    ensures
        r == pow256(width as nat) / 2,
{
    proof {
        lemma_pow256_widths();
    }
    if width == 1 {
        0x80
    } else if width == 2 {
        0x8000
    } else if width == 4 {
        0x8000_0000
    } else {
        0x8000_0000_0000_0000
    }
}

/// 256^width - 1 as a `u64`: the largest `width`-byte value.
fn pow_minus_one(width: u64) -> (r: u64)
    requires
        valid_width(width),
    ensures
        r == pow256(width as nat) - 1,
{
    proof {
        lemma_pow256_widths();
    }
    if width == 1 {
        0xFF
    } else if width == 2 {
        0xFFFF
    } else if width == 4 {
        0xFFFF_FFFF
    } else {
        0xFFFF_FFFF_FFFF_FFFF
    }
}

} // verus!
