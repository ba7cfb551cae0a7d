use gperftools::error::Error;
use gperftools::profiler::Profiler;
use gperftools::state::ProfilerState;

#[test]
fn cpu_state_is_not_active_on_construction() {
    let p = Profiler::new();
    assert!(matches!(p.state(), ProfilerState::NotActive));
}

#[test]
fn cpu_stop_while_not_active_fails_and_changes_nothing() {
    let mut p = Profiler::new();
    let r = p.stop();
    assert!(matches!(r, Err(Error::InvalidState(ProfilerState::NotActive))));
    assert!(matches!(p.state(), ProfilerState::NotActive));
}

#[test]
fn cpu_start_while_active_fails_and_changes_nothing() {
    let mut p = Profiler::new();
    let buf = p.start_request(b"/tmp/a.prof".to_vec()).unwrap();
    assert_eq!(buf, b"/tmp/a.prof\0".to_vec());
    p.confirm_start(1).unwrap();
    assert!(matches!(p.state(), ProfilerState::Active));
    let r = p.start_request(b"/tmp/b.prof".to_vec());
    assert!(matches!(r, Err(Error::InvalidState(ProfilerState::Active))));
    assert!(matches!(p.state(), ProfilerState::Active));
}

#[test]
fn cpu_start_with_embedded_nul_fails() {
    let mut p = Profiler::new();
    let r = p.start_request(b"foo\0bar".to_vec());
    assert!(matches!(r, Err(Error::NulByteInContent)));
    assert!(matches!(p.state(), ProfilerState::NotActive));
    // The handle is unharmed: a later valid start still goes through.
    let buf = p.start_request(b"/tmp/a.prof".to_vec()).unwrap();
    assert_eq!(buf, b"/tmp/a.prof\0".to_vec());
}

#[test]
fn cpu_start_with_malformed_utf8_fails() {
    let mut p = Profiler::new();
    let r = p.start_request(vec![0x2f, 0x74, 0x6d, 0x70, 0x2f, 0xc3, 0x28]);
    assert!(matches!(r, Err(Error::NonUtf8Content)));
    assert!(matches!(p.state(), ProfilerState::NotActive));
}

#[test]
fn cpu_native_failure_leaves_handle_idle_and_retryable() {
    let mut p = Profiler::new();
    p.start_request(b"/tmp/a.prof".to_vec()).unwrap();
    let r = p.confirm_start(0);
    assert!(matches!(r, Err(Error::InternalFailure)));
    assert!(matches!(p.state(), ProfilerState::NotActive));
    // An explicit retry may succeed.
    p.start_request(b"/tmp/a.prof".to_vec()).unwrap();
    assert!(p.confirm_start(1).is_ok());
    assert!(matches!(p.state(), ProfilerState::Active));
}

#[test]
fn cpu_full_scenario() {
    let mut p = Profiler::new();
    let buf = p.start_request(b"/tmp/a.prof".to_vec()).unwrap();
    assert_eq!(buf, b"/tmp/a.prof\0".to_vec());
    p.confirm_start(1).unwrap();
    assert!(matches!(p.state(), ProfilerState::Active));
    let r = p.start_request(b"/tmp/b.prof".to_vec());
    assert!(matches!(r, Err(Error::InvalidState(ProfilerState::Active))));
    p.stop().unwrap();
    assert!(matches!(p.state(), ProfilerState::NotActive));
}

#[test]
fn cpu_two_cycles_with_the_same_path_both_succeed() {
    let mut p = Profiler::new();
    for _ in 0..2 {
        let buf = p.start_request(b"/tmp/cycle.prof".to_vec()).unwrap();
        assert_eq!(buf, b"/tmp/cycle.prof\0".to_vec());
        p.confirm_start(1).unwrap();
        assert!(matches!(p.state(), ProfilerState::Active));
        p.stop().unwrap();
        assert!(matches!(p.state(), ProfilerState::NotActive));
    }
}

#[test]
fn state_describe_renders_the_tag() {
    assert_eq!(ProfilerState::NotActive.describe(), "NotActive");
    assert_eq!(ProfilerState::Active.describe(), "Active");
    let p = Profiler::new();
    assert_eq!(p.state().describe(), "NotActive");
}
