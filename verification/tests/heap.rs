use gperftools::error::Error;
use gperftools::heap_profiler::HeapProfiler;
use gperftools::state::ProfilerState;

#[test]
fn heap_state_is_not_active_on_construction() {
    let p = HeapProfiler::new();
    assert!(matches!(p.state(), ProfilerState::NotActive));
}

#[test]
fn heap_stop_while_not_active_fails_and_changes_nothing() {
    let mut p = HeapProfiler::new();
    let r = p.stop();
    assert!(matches!(r, Err(Error::InvalidState(ProfilerState::NotActive))));
    assert!(matches!(p.state(), ProfilerState::NotActive));
}

#[test]
fn heap_start_while_active_fails_and_changes_nothing() {
    let mut p = HeapProfiler::new();
    let buf = p.start_request(b"/tmp/a.heap".to_vec()).unwrap();
    assert_eq!(buf, b"/tmp/a.heap\0".to_vec());
    p.confirm_start().unwrap();
    assert!(matches!(p.state(), ProfilerState::Active));
    let r = p.start_request(b"/tmp/b.heap".to_vec());
    assert!(matches!(r, Err(Error::InvalidState(ProfilerState::Active))));
    assert!(matches!(p.state(), ProfilerState::Active));
}

#[test]
fn heap_start_with_embedded_nul_fails() {
    let mut p = HeapProfiler::new();
    let r = p.start_request(b"foo\0bar".to_vec());
    assert!(matches!(r, Err(Error::NulByteInContent)));
    assert!(matches!(p.state(), ProfilerState::NotActive));
}

#[test]
fn heap_dump_succeeds_whether_or_not_sampling_is_active() {
    let mut p = HeapProfiler::new();
    let buf = p.dump(b"/tmp/snap.heap".to_vec()).unwrap();
    assert_eq!(buf, b"/tmp/snap.heap\0".to_vec());
    assert!(matches!(p.state(), ProfilerState::NotActive));
    p.start_request(b"/tmp/a.heap".to_vec()).unwrap();
    p.confirm_start().unwrap();
    let buf2 = p.dump(b"/tmp/snap.heap".to_vec()).unwrap();
    assert_eq!(buf2, b"/tmp/snap.heap\0".to_vec());
    assert!(matches!(p.state(), ProfilerState::Active));
}

#[test]
fn heap_dump_validates_the_reason_bytes() {
    let p = HeapProfiler::new();
    assert!(matches!(p.dump(b"a\0b".to_vec()), Err(Error::NulByteInContent)));
    assert!(matches!(p.dump(vec![0xff]), Err(Error::NonUtf8Content)));
}

#[test]
fn heap_two_cycles_with_the_same_path_both_succeed() {
    let mut p = HeapProfiler::new();
    for _ in 0..2 {
        let buf = p.start_request(b"/tmp/cycle.heap".to_vec()).unwrap();
        assert_eq!(buf, b"/tmp/cycle.heap\0".to_vec());
        p.confirm_start().unwrap();
        assert!(matches!(p.state(), ProfilerState::Active));
        p.stop().unwrap();
        assert!(matches!(p.state(), ProfilerState::NotActive));
    }
}
