//! The per-channel window into the packet memory, with the byte/word codec.
//!
//! Transfer data lives in the shared packet memory, which is addressed in
//! 32-bit words, while callers deal in byte slices. Writing packs up to four
//! bytes per word in little-endian order and zero-pads the last partial
//! word; reading is the inverse, truncated to the requested length.

use vstd::prelude::*;
use crate::hw::{PacketMemory, USBRAM_SIZE, USBRAM_WORDS};
use crate::bits::lemma_word_pack;
use vstd::arithmetic::div_mod::lemma_fundamental_div_mod;
use vstd::arithmetic::div_mod::lemma_fundamental_div_mod_converse;

verus! {

/// The number of memory words a byte count occupies.
pub open spec fn spec_word_count(n: int) -> int {
    (n + 3) / 4
}

/// The byte at offset `i` of the region starting at byte address `addr`.
pub open spec fn region_byte(mem: PacketMemory, addr: int, i: int) -> u8 {
    mem.byte_at(addr + i)
}

/// Splitting a byte address into its word index and lane.
pub proof fn lemma_div4_split(m: int, k: int)
    requires
        0 <= k < 4,
    ensures
        (4 * m + k) / 4 == m,
        (4 * m + k) % 4 == k,
{
    lemma_fundamental_div_mod_converse(4 * m + k, 4, m, k);
}

/// A channel's window into the packet memory: a region of `len` bytes
/// starting at byte address `addr`, both multiples of the access
/// granularity.
pub struct EndpointBuffer {
    /// Byte address of the region in the packet memory.
    pub addr: u16,
    /// Length of the region in bytes.
    pub len: u16,
}

impl EndpointBuffer {
    pub open spec fn wf(self) -> bool {
        &&& self.addr % 4 == 0
        &&& self.len % 4 == 0
        &&& self.addr + self.len <= USBRAM_SIZE
    }

    /// Reads the first `count` bytes of the region out of the packet memory.
    pub fn read(&self, mem: &PacketMemory, count: usize) -> (r: Vec<u8>)
        requires
            mem.wf(),
            self.wf(),
            count <= self.len,
        ensures
            r@.len() == count,
            forall|i: int| 0 <= i < count ==> r@[i] == region_byte(*mem, self.addr as int, i),
    {
        let base = (self.addr as usize) / 4;
        let mut r: Vec<u8> = Vec::new();
        let mut j: usize = 0;
        while j < count
            invariant
                mem.wf(),
                self.wf(),
                count <= self.len,
                base == self.addr as int / 4,
                r@.len() == j,
                j <= count,
                forall|i: int| 0 <= i < j ==> r@[i] == region_byte(*mem, self.addr as int, i),
            decreases count - j,
        {
            proof {
                lemma_fundamental_div_mod(j as int, 4);
                lemma_div4_split(base + j as int / 4, j as int % 4);
                assert(4 * (self.addr as int / 4) == self.addr) by (nonlinear_arith)
                    requires
                        self.addr % 4 == 0,
                ;
                assert(base + j as int / 4 < USBRAM_WORDS) by (nonlinear_arith)
                    requires
                        base == self.addr as int / 4,
                        4 * base == self.addr,
                        0 <= j < count <= self.len,
                        self.addr + self.len <= 2048,
                ;
            }
            let w = mem.words[base + j / 4];
            let k = j % 4;
            let b = if k == 0 {
                (w & 0xFF) as u8
            } else if k == 1 {
                ((w >> 8) & 0xFF) as u8
            } else if k == 2 {
                ((w >> 16) & 0xFF) as u8
            } else {
                ((w >> 24) & 0xFF) as u8
            };
            assert(b == region_byte(*mem, self.addr as int, j as int));
            r.push(b);
            j += 1;
        }
        r
    }

    /// Writes `data` into the region: each full word takes four bytes in
    /// little-endian order, the last partial word is zero-padded, and no
    /// word outside the region's first `spec_word_count` words is touched.
    pub fn write(&self, mem: &mut PacketMemory, data: &Vec<u8>)
        requires
            old(mem).wf(),
            self.wf(),
            data@.len() <= self.len,
        ensures
            final(mem).wf(),
            forall|i: int|
                0 <= i < data@.len() ==> #[trigger] region_byte(*final(mem), self.addr as int, i)
                    == data@[i],
            forall|i: int|
                data@.len() <= i < 4 * spec_word_count(data@.len() as int) ==> #[trigger] region_byte(
                    *final(mem),
                    self.addr as int,
                    i,
                ) == 0,
            forall|wi: int|
                0 <= wi < USBRAM_WORDS && !(self.addr / 4 <= wi < self.addr / 4 + spec_word_count(
                    data@.len() as int,
                )) ==> final(mem).words@[wi] == old(mem).words@[wi],
    {
        let n = data.len();
        let nwords = (n + 3) / 4;
        let base = (self.addr as usize) / 4;
        proof {
            assert(4 * (self.addr as int / 4) == self.addr) by (nonlinear_arith)
                requires
                    self.addr % 4 == 0,
            ;
            assert(base + nwords <= USBRAM_WORDS) by (nonlinear_arith)
                requires
                    base == self.addr as int / 4,
                    4 * base == self.addr,
                    nwords == (n + 3) / 4,
                    0 <= n <= self.len,
                    self.len % 4 == 0,
                    self.addr + self.len <= 2048,
            ;
        }
        let mut i: usize = 0;
        while i < nwords
            invariant
                mem.wf(),
                self.wf(),
                n == data@.len(),
                n <= self.len,
                base == self.addr as int / 4,
                4 * base == self.addr,
                nwords == spec_word_count(n as int),
                base + nwords <= USBRAM_WORDS,
                i <= nwords,
                forall|j: int|
                    0 <= j < 4 * i && j < n ==> #[trigger] region_byte(*mem, self.addr as int, j)
                        == data@[j],
                forall|j: int|
                    n <= j < 4 * i ==> #[trigger] region_byte(*mem, self.addr as int, j) == 0,
                forall|wi: int|
                    0 <= wi < USBRAM_WORDS && !(base <= wi < base + i)
                        ==> mem.words@[wi] == old(mem).words@[wi],
            decreases nwords - i,
        {
            let o = i * 4;
            proof {
                assert(o == 4 * i && 4 * i + 4 <= 4 * nwords && n <= 4 * nwords) by (
                nonlinear_arith)
                    requires
                        o == i * 4,
                        0 <= i < nwords,
                        nwords == (n + 3) / 4,
                        0 <= n,
                ;
            }
            let ghost mem0 = *mem;
            let b0 = if o < n { data[o] } else { 0 };
            let b1 = if o + 1 < n { data[o + 1] } else { 0 };
            let b2 = if o + 2 < n { data[o + 2] } else { 0 };
            let b3 = if o + 3 < n { data[o + 3] } else { 0 };
            let w = (b0 as u32) | ((b1 as u32) << 8) | ((b2 as u32) << 16) | ((b3 as u32) << 24);
            mem.words.set(base + i, w);
            proof {
                lemma_word_pack(b0, b1, b2, b3);
                assert forall|j: int| 0 <= j < 4 * (i + 1) implies ({
                    &&& j < n ==> #[trigger] region_byte(*mem, self.addr as int, j) == data@[j]
                    &&& n <= j ==> region_byte(*mem, self.addr as int, j) == 0
                }) by {
                    lemma_fundamental_div_mod(j, 4);
                    lemma_div4_split(base + j / 4, j % 4);
                    assert(self.addr + j == 4 * (base + j / 4) + j % 4);
                    if j < 4 * i {
                        assert(j / 4 < i) by (nonlinear_arith)
                            requires
                                0 <= j < 4 * i,
                        ;
                        assert(mem.words@[base + j / 4] == mem0.words@[base + j / 4]);
                        if j < n {
                            assert(region_byte(mem0, self.addr as int, j) == data@[j]);
                        } else {
                            assert(region_byte(mem0, self.addr as int, j) == 0);
                        }
                    } else {
                        assert(j / 4 == i) by (nonlinear_arith)
                            requires
                                4 * i <= j < 4 * (i + 1),
                        ;
                        assert(mem.words@[base + i] == w);
                    }
                }
            }
            i += 1;
        }
    }
}

} // verus!
