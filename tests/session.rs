use ff::pagemap::{KPageFlags, PageMapEntry};
use ff::session::{Action, Event, PageInfoError, PageInfoSession, Phase};

const PRESENT: u64 = PageMapEntry::PRESENT;

fn run(session: &mut PageInfoSession, events: &[Event]) -> Vec<Action> {
    let mut actions = vec![session.step(Event::Succeeded)];
    for ev in events {
        actions.push(session.step(*ev));
    }
    actions
}

#[test]
fn inspection_walks_through_every_call() {
    // block 5 of 1 KiB blocks lies 1 KiB into the second 4 KiB page
    let mut s = PageInfoSession::new(5, 1024, 4096);
    let addr = 0x7f00_0000_0000u64;
    let entry = PRESENT | PageMapEntry::FILE_PAGE_OR_SHARED_ANON | 0x42;
    let flags = KPageFlags::UPTODATE | KPageFlags::LRU;
    let actions = run(
        &mut s,
        &[
            Event::Mapped(addr),
            Event::Succeeded,
            Event::Succeeded,
            Event::Read(entry),
            Event::Read(flags),
            Event::Succeeded,
        ],
    );
    assert_eq!(
        actions,
        vec![
            Action::MapPage { offset: 4096 },
            Action::DisableReadahead,
            Action::Touch { delta: 1024 },
            Action::ReadEntry { offset: addr / 4096 * 8 },
            Action::ReadFlags { offset: 0x42 * 8 },
            Action::Unmap,
            Action::Finish(Ok((
                PageMapEntry::from_bits_retain(entry),
                KPageFlags::from_bits_retain(flags)
            ))),
        ]
    );
}

#[test]
fn failed_map_finishes_without_unmapping() {
    let mut s = PageInfoSession::new(0, 4096, 4096);
    let actions = run(&mut s, &[Event::Failed]);
    assert_eq!(
        actions,
        vec![
            Action::MapPage { offset: 0 },
            Action::Finish(Err(PageInfoError::MapFailed))
        ]
    );
}

#[test]
fn hidden_pfn_unmaps_then_reports() {
    let mut s = PageInfoSession::new(0, 4096, 4096);
    let actions = run(
        &mut s,
        &[
            Event::Mapped(4096),
            Event::Succeeded,
            Event::Succeeded,
            Event::Read(PRESENT),
            Event::Succeeded,
        ],
    );
    assert_eq!(actions[4], Action::Unmap);
    assert_eq!(actions[5], Action::Finish(Err(PageInfoError::PfnHidden)));
}

#[test]
fn page_not_present_unmaps_then_reports() {
    let mut s = PageInfoSession::new(0, 4096, 4096);
    let actions = run(
        &mut s,
        &[
            Event::Mapped(4096),
            Event::Succeeded,
            Event::Succeeded,
            Event::Read(0),
            Event::Failed,
        ],
    );
    assert_eq!(actions[4], Action::Unmap);
    // the first error is the one reported, even if the unmap fails too
    assert_eq!(actions[5], Action::Finish(Err(PageInfoError::NotPresent)));
}

#[test]
fn failures_after_mapping_release_it() {
    for fail_at in 1..4 {
        let mut s = PageInfoSession::new(0, 4096, 4096);
        let mut events = vec![Event::Mapped(8192), Event::Succeeded, Event::Succeeded, Event::Read(PRESENT | 9)];
        events.truncate(fail_at);
        events.push(Event::Failed);
        let actions = run(&mut s, &events);
        assert_eq!(*actions.last().unwrap(), Action::Unmap);
        assert!(matches!(s.phase, Phase::Unmapping { .. }));
        let end = s.step(Event::Succeeded);
        assert!(matches!(end, Action::Finish(Err(_))));
    }
}

#[test]
fn failed_unmap_spoils_a_good_outcome() {
    let mut s = PageInfoSession::new(0, 4096, 4096);
    let actions = run(
        &mut s,
        &[
            Event::Mapped(4096),
            Event::Succeeded,
            Event::Succeeded,
            Event::Read(PRESENT | 1),
            Event::Read(0),
            Event::Failed,
        ],
    );
    assert_eq!(actions[6], Action::Finish(Err(PageInfoError::UnmapFailed)));
    // a finished session keeps its outcome
    assert_eq!(s.step(Event::Succeeded), Action::Finish(Err(PageInfoError::UnmapFailed)));
}

#[test]
fn offset_past_64_bits_is_refused_before_mapping() {
    let mut s = PageInfoSession::new(u64::MAX, 4096, 4096);
    assert_eq!(s.step(Event::Succeeded), Action::Finish(Err(PageInfoError::OffsetTooLarge)));
}
