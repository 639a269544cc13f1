//! Decoding of the kernel's page tables and the arithmetic that addresses them.
//!
//! The kernel's per-process page map (`/proc/self/pagemap`) holds one 64-bit entry per
//! virtual page; its frame-flags table (`/proc/kpageflags`) one 64-bit word per
//! physical frame. This module decodes both and computes where to map, read and look.
use vstd::prelude::*;

verus! {

/// Bytes in one entry of the page map, and in one word of the frame-flags table.
pub const ENTRY_SIZE: u64 = 8;

/// The low 55 bits of a page-map entry: the frame number of a present page.
pub const PFN_MASK: u64 = 0x7f_ffff_ffff_ffff;

/// One 64-bit entry of the page map (see `man 5 proc_pid_pagemap`).
#[derive(Debug, Clone, Copy, PartialEq, Eq, Structural)]
pub struct PageMapEntry {
    pub bits: u64,
}

impl PageMapEntry {
    /// The page table entry is soft-dirty.
    pub const SOFT_DIRTY: u64 = 0x80_0000_0000_0000;
    /// The page is mapped exclusively.
    pub const EXCL_MAP: u64 = 0x100_0000_0000_0000;
    /// The page is write-protected through userfaultfd.
    pub const PTE_UFFD_WP_WR_PROTECTED: u64 = 0x200_0000_0000_0000;
    /// The page table entry is a guard region.
    pub const PTE_GUARD_REGION: u64 = 0x400_0000_0000_0000;
    /// The page is a file page or shared anonymous memory.
    pub const FILE_PAGE_OR_SHARED_ANON: u64 = 0x2000_0000_0000_0000;
    /// The page is swapped out.
    pub const SWAPPED: u64 = 0x4000_0000_0000_0000;
    /// The page is present in memory.
    pub const PRESENT: u64 = 0x8000_0000_0000_0000;

    /// The entry with exactly these bits, known to this type or not.
    pub fn from_bits_retain(bits: u64) -> (r: Self)
        ensures
            r.bits == bits,
    {
        PageMapEntry { bits }
    }

    pub fn bits(&self) -> (r: u64)
        ensures
            r == self.bits,
    {
        self.bits
    }

    /// Are all the bits of `flags` set?
    pub fn contains(&self, flags: u64) -> (r: bool)
        ensures
            r == (self.bits & flags == flags),
    {
        self.bits & flags == flags
    }

    /// The physical frame behind the page, as far as this entry shows it.
    pub fn frame(&self) -> (r: Frame)
        ensures
            r == frame_of(self.bits),
    {
        if self.bits & Self::PRESENT == 0 {
            Frame::NotPresent
        } else if self.bits & PFN_MASK == 0 {
            Frame::Hidden
        } else {
            Frame::Present(self.bits & PFN_MASK)
        }
    }

    /// The frame number of a present page; a page that is not present and a page whose
    /// frame number is hidden give two different errors.
    pub fn pfn(&self) -> (r: Result<u64, PfnError>)
        ensures
            r == match frame_of(self.bits) {
                Frame::Present(p) => Ok::<u64, PfnError>(p),
                Frame::NotPresent => Err(PfnError::NotPresent),
                Frame::Hidden => Err(PfnError::Hidden),
            },
    {
        match self.frame() {
            Frame::Present(p) => Ok(p),
            Frame::NotPresent => Err(PfnError::NotPresent),
            Frame::Hidden => Err(PfnError::Hidden),
        }
    }
}

/// Why a page-map entry gives no frame number.
#[derive(Debug, Clone, Copy, PartialEq, Eq, Structural)]
pub enum PfnError {
    /// The page is not in memory.
    NotPresent,
    /// The page is in memory, but its frame number is hidden from this process: run
    /// again with more privilege.
    Hidden,
}

/// What a page-map entry says of the physical frame behind a page.
#[derive(Debug, Clone, Copy, PartialEq, Eq, Structural)]
pub enum Frame {
    /// The page is not in memory.
    NotPresent,
    /// The page is in memory, but the kernel hides its frame number from a process
    /// without the privilege to see it.
    Hidden,
    /// The page is in memory in this frame.
    Present(u64),
}

/// The frame that the page-map entry `bits` reports.
pub open spec fn frame_of(bits: u64) -> Frame {
    if bits & PageMapEntry::PRESENT == 0 {
        Frame::NotPresent
    } else if bits & PFN_MASK == 0 {
        Frame::Hidden
    } else {
        Frame::Present(bits & PFN_MASK)
    }
}

/// The flags of one physical frame (see `man 5 proc_kpageflags`).
#[derive(Debug, Clone, Copy, PartialEq, Eq, Structural)]
pub struct KPageFlags {
    pub bits: u64,
}

impl KPageFlags {
    pub const LOCKED: u64 = 0x1;
    pub const ERROR: u64 = 0x2;
    pub const REFERENCED: u64 = 0x4;
    pub const UPTODATE: u64 = 0x8;
    pub const DIRTY: u64 = 0x10;
    pub const LRU: u64 = 0x20;
    pub const ACTIVE: u64 = 0x40;
    pub const SLAB: u64 = 0x80;
    pub const WRITEBACK: u64 = 0x100;
    pub const RECLAIM: u64 = 0x200;
    pub const BUDDY: u64 = 0x400;
    pub const MMAP: u64 = 0x800;
    pub const ANON: u64 = 0x1000;
    pub const SWAPCACHE: u64 = 0x2000;
    pub const SWAPBACKED: u64 = 0x4000;
    pub const COMPOUND_HEAD: u64 = 0x8000;
    pub const COMPOUND_TAIL: u64 = 0x1_0000;
    pub const HUGE: u64 = 0x2_0000;
    pub const UNEVICTABLE: u64 = 0x4_0000;
    pub const HWPOISON: u64 = 0x8_0000;
    pub const NOPAGE: u64 = 0x10_0000;
    pub const KSM: u64 = 0x20_0000;
    pub const THP: u64 = 0x40_0000;
    pub const BALLOON: u64 = 0x80_0000;
    pub const ZERO_PAGE: u64 = 0x100_0000;
    pub const IDLE: u64 = 0x200_0000;

    /// The flags with exactly these bits, known to this type or not.
    pub fn from_bits_retain(bits: u64) -> (r: Self)
        ensures
            r.bits == bits,
    {
        KPageFlags { bits }
    }

    pub fn bits(&self) -> (r: u64)
        ensures
            r == self.bits,
    {
        self.bits
    }

    /// Are all the bits of `flags` set?
    pub fn contains(&self, flags: u64) -> (r: bool)
        ensures
            r == (self.bits & flags == flags),
    {
        self.bits & flags == flags
    }
}

/// The number of pages of `page_size` bytes that `len` bytes take up, the last one
/// possibly in part.
pub open spec fn pages_for(len: nat, page_size: nat) -> nat
    recommends
        page_size > 0,
{
    ((len + page_size - 1) as int / page_size as int) as nat
}

/// The number of `page_size` pages that a file of `len` bytes spans.
pub fn page_count(len: u64, page_size: u64) -> (r: u64)
    requires
        page_size > 0,
    ensures
        r == pages_for(len as nat, page_size as nat),
{
    let q = len / page_size;
    let r = if len % page_size == 0 {
        q
    } else {
        assert(q < u64::MAX) by (nonlinear_arith)
            requires
                q == len / page_size,
                len % page_size != 0,
                page_size > 0,
        ;
        q + 1
    };
    proof {
        let l = len as int;
        let p = page_size as int;
        assert(l == p * (l / p) + l % p) by (nonlinear_arith)
            requires
                p > 0,
        ;
        assert((l + p - 1) / p == r) by (nonlinear_arith)
            requires
                p > 0,
                l == p * (l / p) + l % p,
                0 <= l % p < p,
                r == if l % p == 0 {
                    l / p
                } else {
                    l / p + 1
                },
        ;
    }
    r
}

/// The byte length of `pages` pages of `page_size` bytes, if it fits in `usize`.
pub fn mapping_len(pages: u64, page_size: u64) -> (r: Option<usize>)
    ensures
        r == if pages * page_size <= usize::MAX {
            Some((pages * page_size) as usize)
        } else {
            None::<usize>
        },
{
    match pages.checked_mul(page_size) {
        Some(n) => if n <= usize::MAX as u64 {
            Some(n as usize)
        } else {
            None
        },
        None => None,
    }
}

/// The status bytes of a residency probe: page `i` is resident when bit 0 of
/// `status[i]` is set.
pub open spec fn is_resident(status: Seq<u8>, i: int) -> bool {
    status[i] & 1 == 1
}

/// The pages whose status byte marks them as resident, in ascending order.
pub fn resident_pages_of(status: &[u8]) -> (r: Vec<u64>)
    ensures
        forall|k: int| 0 <= k < r@.len() ==> (#[trigger] r@[k]) < status@.len(),
        forall|k: int| 0 <= k < r@.len() ==> is_resident(status@, #[trigger] r@[k] as int),
        forall|k: int, m: int| 0 <= k < m < r@.len() ==> r@[k] < r@[m],
        forall|i: int|
            0 <= i < status@.len() && is_resident(status@, i) ==> exists|k: int|
                0 <= k < r@.len() && #[trigger] r@[k] == i,
        (forall|i: int| 0 <= i < status@.len() ==> !is_resident(status@, i)) ==> r@.len() == 0,
{
    let mut r: Vec<u64> = Vec::new();
    let mut i: usize = 0;
    while i < status.len()
        invariant
            i <= status@.len(),
            forall|k: int| 0 <= k < r@.len() ==> (#[trigger] r@[k]) < i,
            forall|k: int| 0 <= k < r@.len() ==> is_resident(status@, #[trigger] r@[k] as int),
            forall|k: int, m: int| 0 <= k < m < r@.len() ==> r@[k] < r@[m],
            forall|j: int|
                0 <= j < i && is_resident(status@, j) ==> exists|k: int|
                    0 <= k < r@.len() && #[trigger] r@[k] == j,
        decreases status@.len() - i,
    {
        if status[i] & 1 == 1 {
            let ghost old_r = r@;
            r.push(i as u64);
            assert forall|j: int| 0 <= j < i + 1 && is_resident(status@, j) implies exists|k: int|
                0 <= k < r@.len() && #[trigger] r@[k] == j by {
                if j < i {
                    let k = choose|k: int| 0 <= k < old_r.len() && #[trigger] old_r[k] == j;
                    assert(r@[k] == j);
                } else {
                    assert(r@[old_r.len() as int] == j);
                }
            }
        }
        i = i + 1;
    }
    if r.len() > 0 {
        assert(is_resident(status@, r@[0] as int));
    }
    r
}

/// Where to map a file to reach one of its blocks: the start of the mapping in the
/// file, aligned down to a page, and the distance from there to the block.
#[derive(Debug, Clone, Copy, PartialEq, Eq, Structural)]
pub struct PageWindow {
    pub offset: u64,
    pub delta: u64,
}

/// The window over block `page` of a file whose blocks are `block_size` bytes, mapped
/// in pages of `vm_page` bytes; `None` when the block's byte offset exceeds 64 bits.
pub fn page_window(page: u64, block_size: u64, vm_page: u64) -> (r: Option<PageWindow>)
    requires
        vm_page > 0,
    ensures
        page * block_size > u64::MAX <==> r is None,
        r matches Some(w) ==> w.delta == (page * block_size) % (vm_page as int) && w.offset
            == page * block_size - w.delta,
{
    match page.checked_mul(block_size) {
        Some(byte_off) => {
            let delta = byte_off % vm_page;
            assert(delta <= byte_off) by (nonlinear_arith)
                requires
                    delta == byte_off % vm_page,
                    vm_page > 0,
            ;
            Some(PageWindow { offset: byte_off - delta, delta })
        },
        None => None,
    }
}

/// The byte offset of entry `index` of the page map or of the frame-flags table, if it
/// fits in 64 bits.
pub fn entry_offset(index: u64) -> (r: Option<u64>)
    ensures
        r == if index * ENTRY_SIZE <= u64::MAX {
            Some((index * ENTRY_SIZE) as u64)
        } else {
            None::<u64>
        },
{
    index.checked_mul(ENTRY_SIZE)
}

/// Relies on nix's `sysconf(SysconfVar::PAGE_SIZE)`: the machine's page size, when the
/// system reports one.
#[verifier::external_body]
fn sysconf_page_size() -> (r: Option<i64>) {
    match nix::unistd::sysconf(nix::unistd::SysconfVar::PAGE_SIZE) {
        Ok(Some(n)) => Some(n as i64),
        _ => None,
    }
}

/// The page size that a system report `n` stands for: a positive value that fits in
/// `usize`; anything else (no report, zero, a negative value) stands for none.
pub fn page_size_of(n: Option<i64>) -> (r: Option<usize>)
    ensures
        r == match n {
            Some(v) => if 0 < v && v <= usize::MAX {
                Some(v as usize)
            } else {
                None::<usize>
            },
            None => None::<usize>,
        },
{
    match n {
        Some(v) => if v > 0 && v as u64 <= usize::MAX as u64 {
            Some(v as usize)
        } else {
            None
        },
        None => None,
    }
}

/// The size of a virtual-memory page on this machine, or `None` when the system does
/// not report a usable one.
pub fn vm_page_size() -> (r: Option<usize>)
    ensures
        r matches Some(n) ==> n > 0,
{
    page_size_of(sysconf_page_size())
}

} // verus!
