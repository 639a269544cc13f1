//! The decisions of a page inspection, as a state machine.
//!
//! Inspecting one page of a file takes a short series of system calls: map the page,
//! turn readahead off on the mapping, touch one byte so that the page faults in, read
//! the page's entry in the page map, read its frame's flags, and unmap. The caller
//! performs each [`Action`] and reports how it went as an [`Event`]; the session decides
//! what comes next. Whatever fails once the page is mapped, the next action releases
//! the mapping, and the session never finishes while it still holds one.
use vstd::prelude::*;

use crate::pagemap::{entry_offset, frame_of, page_window, Frame, KPageFlags, PageMapEntry, ENTRY_SIZE, PFN_MASK};

verus! {

/// Why a page could not be inspected.
#[derive(Debug, Clone, Copy, PartialEq, Eq, Structural)]
pub enum PageInfoError {
    /// The page's byte offset, or an offset into a kernel table, exceeds 64 bits.
    OffsetTooLarge,
    /// The page could not be mapped.
    MapFailed,
    /// Readahead could not be turned off on the mapping.
    ReadaheadFailed,
    /// Touching the mapped page failed.
    TouchFailed,
    /// The page's entry in the page map could not be read.
    EntryUnreadable,
    /// The page did not become present.
    NotPresent,
    /// The page is present, but its frame number is hidden: run with more privilege.
    PfnHidden,
    /// The flags of the page's frame could not be read.
    FlagsUnreadable,
    /// The mapping could not be released.
    UnmapFailed,
}

/// The outcome of an inspection: the page's entry and its frame's flags.
pub type PageInfo = Result<(PageMapEntry, KPageFlags), PageInfoError>;

/// What the caller is to do next.
#[derive(Debug, Clone, Copy, PartialEq, Eq)]
pub enum Action {
    /// Map one virtual-memory page of the file, private and read-only, at `offset`.
    MapPage { offset: u64 },
    /// Mark the mapping as randomly accessed, so that a fault reads no neighbours in.
    DisableReadahead,
    /// Read the byte `delta` bytes into the mapping.
    Touch { delta: u64 },
    /// Read the 8-byte page-map entry at `offset` of the process's page map.
    ReadEntry { offset: u64 },
    /// Read the 8-byte flags word at `offset` of the kernel's frame-flags table.
    ReadFlags { offset: u64 },
    /// Release the mapping.
    Unmap,
    /// The inspection is over, with this outcome.
    Finish(PageInfo),
}

/// How the last action went.
#[derive(Debug, Clone, Copy, PartialEq, Eq, Structural)]
pub enum Event {
    /// It failed.
    Failed,
    /// The page is mapped at this address.
    Mapped(u64),
    /// It succeeded and returns nothing.
    Succeeded,
    /// It read this word.
    Read(u64),
}

/// Where an inspection stands.
#[derive(Debug, Clone, Copy, PartialEq, Eq)]
pub enum Phase {
    /// Nothing has been asked for yet.
    Start,
    /// The page is to be mapped.
    Mapping,
    /// Readahead is to be turned off on the mapping at `addr`.
    Advising { addr: u64 },
    /// The mapped page is to be touched.
    Touching { addr: u64 },
    /// The page's entry is to be read.
    ReadingEntry,
    /// The frame's flags are to be read.
    ReadingFlags { entry: PageMapEntry },
    /// The mapping is to be released; then the inspection ends with `outcome`.
    Unmapping { outcome: PageInfo },
    /// The inspection ended with `outcome`.
    Finished { outcome: PageInfo },
}

/// The inspection of block `page` of a file whose blocks are `block_size` bytes, on a
/// machine whose virtual-memory pages are `vm_page` bytes.
#[derive(Debug, Clone, Copy, PartialEq, Eq)]
pub struct PageInfoSession {
    pub page: u64,
    pub block_size: u64,
    pub vm_page: u64,
    /// The byte of the mapped page that belongs to the block.
    pub delta: u64,
    pub phase: Phase,
}

/// The session holds a mapping that it has not yet asked to release.
pub open spec fn holds_mapping(p: Phase) -> bool {
    match p {
        Phase::Advising { .. } | Phase::Touching { .. } | Phase::ReadingEntry
        | Phase::ReadingFlags { .. } => true,
        _ => false,
    }
}

/// Release the mapping, then end with `outcome`.
pub open spec fn release(s: PageInfoSession, outcome: PageInfo) -> (PageInfoSession, Action) {
    (PageInfoSession { phase: Phase::Unmapping { outcome }, ..s }, Action::Unmap)
}

/// End with `outcome`.
pub open spec fn finish(s: PageInfoSession, outcome: PageInfo) -> (PageInfoSession, Action) {
    (PageInfoSession { phase: Phase::Finished { outcome }, ..s }, Action::Finish(outcome))
}

/// The offset of entry `index` in a kernel table, if it fits in 64 bits.
pub open spec fn entry_offset_of(index: int) -> Option<u64> {
    if index * ENTRY_SIZE <= u64::MAX {
        Some((index * ENTRY_SIZE) as u64)
    } else {
        None
    }
}

/// The next state of session `s`, and the next action, when the last action went as
/// `ev` said.
pub open spec fn transition(s: PageInfoSession, ev: Event) -> (PageInfoSession, Action) {
    match s.phase {
        Phase::Start => {
            let byte_off = s.page * s.block_size;
            if byte_off > u64::MAX {
                finish(s, Err(PageInfoError::OffsetTooLarge))
            } else {
                let delta = byte_off % (s.vm_page as int);
                (
                    PageInfoSession { phase: Phase::Mapping, delta: delta as u64, ..s },
                    Action::MapPage { offset: (byte_off - delta) as u64 },
                )
            }
        },
        Phase::Mapping => match ev {
            Event::Mapped(addr) => (
                PageInfoSession { phase: Phase::Advising { addr }, ..s },
                Action::DisableReadahead,
            ),
            _ => finish(s, Err(PageInfoError::MapFailed)),
        },
        Phase::Advising { addr } => match ev {
            Event::Succeeded => (
                PageInfoSession { phase: Phase::Touching { addr }, ..s },
                Action::Touch { delta: s.delta },
            ),
            _ => release(s, Err(PageInfoError::ReadaheadFailed)),
        },
        Phase::Touching { addr } => match ev {
            Event::Succeeded => match entry_offset_of(addr as int / (s.vm_page as int)) {
                Some(offset) => (
                    PageInfoSession { phase: Phase::ReadingEntry, ..s },
                    Action::ReadEntry { offset },
                ),
                None => release(s, Err(PageInfoError::OffsetTooLarge)),
            },
            _ => release(s, Err(PageInfoError::TouchFailed)),
        },
        Phase::ReadingEntry => match ev {
            Event::Read(bits) => match frame_of(bits) {
                Frame::NotPresent => release(s, Err(PageInfoError::NotPresent)),
                Frame::Hidden => release(s, Err(PageInfoError::PfnHidden)),
                Frame::Present(pfn) => (
                    PageInfoSession {
                        phase: Phase::ReadingFlags { entry: PageMapEntry { bits } },
                        ..s
                    },
                    Action::ReadFlags { offset: (pfn * ENTRY_SIZE) as u64 },
                ),
            },
            _ => release(s, Err(PageInfoError::EntryUnreadable)),
        },
        Phase::ReadingFlags { entry } => match ev {
            Event::Read(bits) => release(s, Ok((entry, KPageFlags { bits }))),
            _ => release(s, Err(PageInfoError::FlagsUnreadable)),
        },
        Phase::Unmapping { outcome } => match ev {
            Event::Succeeded => finish(s, outcome),
            _ => finish(
                s,
                match outcome {
                    Ok(_) => Err(PageInfoError::UnmapFailed),
                    Err(e) => Err(e),
                },
            ),
        },
        Phase::Finished { outcome } => finish(s, outcome),
    }
}

impl PageInfoSession {
    /// A session that has not started.
    pub fn new(page: u64, block_size: u64, vm_page: u64) -> (r: Self)
        requires
            vm_page > 0,
        ensures
            r == (PageInfoSession { page, block_size, vm_page, delta: 0, phase: Phase::Start }),
    {
        PageInfoSession { page, block_size, vm_page, delta: 0, phase: Phase::Start }
    }

    /// Takes in how the last action went (anything, for the first one) and returns
    /// the next action.
    pub fn step(&mut self, ev: Event) -> (r: Action)
        requires
            old(self).vm_page > 0,
        ensures
            (*final(self), r) == transition(*old(self), ev),
            final(self).vm_page == old(self).vm_page,
    {
        match self.phase {
            Phase::Start => match page_window(self.page, self.block_size, self.vm_page) {
                Some(w) => {
                    self.delta = w.delta;
                    self.phase = Phase::Mapping;
                    Action::MapPage { offset: w.offset }
                },
                None => self.finish(Err(PageInfoError::OffsetTooLarge)),
            },
            Phase::Mapping => match ev {
                Event::Mapped(addr) => {
                    self.phase = Phase::Advising { addr };
                    Action::DisableReadahead
                },
                _ => self.finish(Err(PageInfoError::MapFailed)),
            },
            Phase::Advising { addr } => match ev {
                Event::Succeeded => {
                    self.phase = Phase::Touching { addr };
                    Action::Touch { delta: self.delta }
                },
                _ => self.release(Err(PageInfoError::ReadaheadFailed)),
            },
            Phase::Touching { addr } => match ev {
                Event::Succeeded => match entry_offset(addr / self.vm_page) {
                    Some(offset) => {
                        self.phase = Phase::ReadingEntry;
                        Action::ReadEntry { offset }
                    },
                    None => self.release(Err(PageInfoError::OffsetTooLarge)),
                },
                _ => self.release(Err(PageInfoError::TouchFailed)),
            },
            Phase::ReadingEntry => match ev {
                Event::Read(bits) => {
                    let entry = PageMapEntry::from_bits_retain(bits);
                    match entry.frame() {
                        Frame::NotPresent => self.release(Err(PageInfoError::NotPresent)),
                        Frame::Hidden => self.release(Err(PageInfoError::PfnHidden)),
                        Frame::Present(pfn) => {
                            assert(pfn <= PFN_MASK) by (bit_vector)
                                requires
                                    pfn == bits & 0x7f_ffff_ffff_ffffu64,
                            ;
                            self.phase = Phase::ReadingFlags { entry };
                            Action::ReadFlags { offset: pfn * ENTRY_SIZE }
                        },
                    }
                },
                _ => self.release(Err(PageInfoError::EntryUnreadable)),
            },
            Phase::ReadingFlags { entry } => match ev {
                Event::Read(bits) => self.release(Ok((entry, KPageFlags::from_bits_retain(bits)))),
                _ => self.release(Err(PageInfoError::FlagsUnreadable)),
            },
            Phase::Unmapping { outcome } => match ev {
                Event::Succeeded => self.finish(outcome),
                _ => match outcome {
                    Ok(_) => self.finish(Err(PageInfoError::UnmapFailed)),
                    Err(e) => self.finish(Err(e)),
                },
            },
            Phase::Finished { outcome } => self.finish(outcome),
        }
    }

    fn release(&mut self, outcome: PageInfo) -> (r: Action)
        ensures
            (*final(self), r) == release(*old(self), outcome),
    {
        self.phase = Phase::Unmapping { outcome };
        Action::Unmap
    }

    fn finish(&mut self, outcome: PageInfo) -> (r: Action)
        ensures
            (*final(self), r) == finish(*old(self), outcome),
    {
        self.phase = Phase::Finished { outcome };
        Action::Finish(outcome)
    }
}

/// A session never finishes while it holds a mapping, and a step that finishes leaves
/// none held.
pub proof fn lemma_finish_releases(s: PageInfoSession, ev: Event)
    ensures
        transition(s, ev).1 is Finish ==> !holds_mapping(s.phase) && !holds_mapping(
            transition(s, ev).0.phase,
        ),
{
}

/// Once the page is mapped, any failure is answered by releasing the mapping.
pub proof fn lemma_failure_releases(s: PageInfoSession)
    requires
        holds_mapping(s.phase),
    ensures
        transition(s, Event::Failed).1 == Action::Unmap,
        !holds_mapping(transition(s, Event::Failed).0.phase),
{
}

/// A mapping is asked for only at the start, and a session holds one only after the
/// mapping was reported made.
pub proof fn lemma_maps_once(s: PageInfoSession, ev: Event)
    ensures
        transition(s, ev).1 is MapPage ==> s.phase == Phase::Start,
        holds_mapping(transition(s, ev).0.phase) && !holds_mapping(s.phase) ==> s.phase
            == Phase::Mapping && ev is Mapped,
{
}

} // verus!
