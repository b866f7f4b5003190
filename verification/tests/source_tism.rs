use gs_visualizer::read_once;
use gs_visualizer::worker::ReadFailure;
use gs_visualizer::source_tism::{TismAction, TismError, TismEvent, TismPhase};

fn expect_finish(a: TismAction) -> (Option<i32>, Option<usize>, Result<Vec<u8>, TismError>) {
    match a {
        TismAction::Finish { close_fd, unmap_len, result } => (close_fd, unmap_len, result),
        _ => panic!("expected the read to finish"),
    }
}

#[test]
fn names_the_shared_memory_object() {
    let (reader, action) = read_once("imu", 40, false);
    assert_eq!(reader.phase, TismPhase::AwaitOpen);
    match action {
        TismAction::Open { name } => assert_eq!(name, b"imu\0".to_vec()),
        _ => panic!("expected open"),
    }
    let (_, action) = read_once("imu", 40, true);
    match action {
        TismAction::Open { name } => assert_eq!(name, b"/imu\0".to_vec()),
        _ => panic!("expected open"),
    }
}

#[test]
fn reads_a_live_allocation() {
    let (mut r, _) = read_once("imu", 40, false);
    assert!(matches!(r.advance(TismEvent::Opened { fd: 5, errno: 0 }), TismAction::MapHeader { fd: 5 }));
    assert!(matches!(r.advance(TismEvent::HeaderRead(Ok(8))), TismAction::MapAllocation { fd: 5, len: 48 }));
    assert!(matches!(r.advance(TismEvent::AllocationMapped(Ok(()))), TismAction::Inspect));
    assert!(matches!(r.advance(TismEvent::Inspected { major_version: 2, is_zombie: false }), TismAction::Lock));
    assert!(matches!(r.advance(TismEvent::Locked { code: 0 }), TismAction::CopyAndUnlock));
    let (close, unmap, result) = expect_finish(r.advance(TismEvent::Copied { payload: vec![1, 2, 3], unlock_code: 0 }));
    assert_eq!((close, unmap), (Some(5), Some(48)));
    assert_eq!(result, Ok(vec![1, 2, 3]));
    assert_eq!(r.phase, TismPhase::Done);
}

#[test]
fn open_failure_releases_nothing() {
    let (mut r, _) = read_once("imu", 40, false);
    let (close, unmap, result) = expect_finish(r.advance(TismEvent::Opened { fd: -1, errno: 2 }));
    assert_eq!((close, unmap, result), (None, None, Err(TismError::Os(2))));
}

#[test]
fn header_and_mapping_failures_close_the_descriptor() {
    let (mut r, _) = read_once("imu", 40, false);
    r.advance(TismEvent::Opened { fd: 3, errno: 0 });
    let (close, unmap, result) = expect_finish(r.advance(TismEvent::HeaderRead(Err(12))));
    assert_eq!((close, unmap, result), (Some(3), None, Err(TismError::Os(12))));

    let (mut r, _) = read_once("imu", 40, false);
    r.advance(TismEvent::Opened { fd: 3, errno: 0 });
    r.advance(TismEvent::HeaderRead(Ok(8)));
    let (close, unmap, result) = expect_finish(r.advance(TismEvent::AllocationMapped(Err(22))));
    assert_eq!((close, unmap, result), (Some(3), None, Err(TismError::Os(22))));

    let (mut r, _) = read_once("imu", 40, false);
    r.advance(TismEvent::Opened { fd: 3, errno: 0 });
    let (close, unmap, result) = expect_finish(r.advance(TismEvent::HeaderRead(Ok(usize::MAX))));
    assert_eq!((close, unmap, result), (Some(3), None, Err(TismError::SizeOverflow)));
}

#[test]
fn version_and_zombie_checks_release_both() {
    for (major, zombie, expected) in [(1u8, false, TismError::VersionMismatch), (2, true, TismError::Zombie), (3, true, TismError::VersionMismatch)] {
        let (mut r, _) = read_once("imu", 40, false);
        r.advance(TismEvent::Opened { fd: 9, errno: 0 });
        r.advance(TismEvent::HeaderRead(Ok(2)));
        r.advance(TismEvent::AllocationMapped(Ok(())));
        let (close, unmap, result) = expect_finish(r.advance(TismEvent::Inspected { major_version: major, is_zombie: zombie }));
        assert_eq!((close, unmap, result), (Some(9), Some(42), Err(expected)));
    }
}

#[test]
fn lock_failures_release_both() {
    let (mut r, _) = read_once("imu", 40, false);
    r.advance(TismEvent::Opened { fd: 9, errno: 0 });
    r.advance(TismEvent::HeaderRead(Ok(0)));
    r.advance(TismEvent::AllocationMapped(Ok(())));
    r.advance(TismEvent::Inspected { major_version: 2, is_zombie: false });
    let (close, unmap, result) = expect_finish(r.advance(TismEvent::Locked { code: 35 }));
    assert_eq!((close, unmap, result), (Some(9), Some(40), Err(TismError::Os(35))));

    let (mut r, _) = read_once("imu", 40, false);
    r.advance(TismEvent::Opened { fd: 9, errno: 0 });
    r.advance(TismEvent::HeaderRead(Ok(0)));
    r.advance(TismEvent::AllocationMapped(Ok(())));
    r.advance(TismEvent::Inspected { major_version: 2, is_zombie: false });
    r.advance(TismEvent::Locked { code: 0 });
    let (close, unmap, result) = expect_finish(r.advance(TismEvent::Copied { payload: vec![1], unlock_code: 1 }));
    assert_eq!((close, unmap, result), (Some(9), Some(40), Err(TismError::Os(1))));
}

#[test]
fn classifies_failed_reads() {

    let f = gs_visualizer::source_tism::read_failure;
    assert_eq!(f(TismError::Zombie, 2), ReadFailure::NotFound);
    assert_eq!(f(TismError::Os(2), 2), ReadFailure::NotFound);
    assert_eq!(f(TismError::Os(13), 2), ReadFailure::Other);
    assert_eq!(f(TismError::VersionMismatch, 2), ReadFailure::Other);
    assert_eq!(f(TismError::SizeOverflow, 2), ReadFailure::Other);
    assert_eq!(std::io::Error::from_raw_os_error(2).kind(), std::io::ErrorKind::NotFound);
}
