use ctx_binding::error::BindingError;
use ctx_binding::handle::{HandleState, ViewTicket};

#[test]
fn fresh_handle_is_live_at_generation_zero() {
    let h = HandleState::new();
    assert!(h.live());
    assert_eq!(h.generation(), 0);
    assert_eq!(h.check_access(), Ok(()));
}

#[test]
fn transform_advances_generation() {
    let mut h = HandleState::new();
    assert_eq!(h.record_transform(), Ok(()));
    assert_eq!(h.record_transform(), Ok(()));
    assert_eq!(h.generation(), 2);
    assert!(h.live());
}

#[test]
fn release_succeeds_exactly_once() {
    let mut h = HandleState::new();
    assert_eq!(h.release(), Ok(()));
    assert!(!h.live());
    assert_eq!(h.release(), Err(BindingError::Released));
}

#[test]
fn released_handle_admits_nothing() {
    let mut h = HandleState::new();
    let t = h.finish_view(4, 0).unwrap();
    assert_eq!(h.release(), Ok(()));
    assert_eq!(h.check_access(), Err(BindingError::Released));
    assert_eq!(h.record_transform(), Err(BindingError::Released));
    assert_eq!(h.generation(), 0);
    assert_eq!(h.request_view(4), Err(BindingError::Released));
    assert_eq!(h.finish_view(4, 0), Err(BindingError::Released));
    assert_eq!(h.check_view(&t), Err(BindingError::Released));
}

#[test]
fn view_request_checks_offset() {
    let h = HandleState::new();
    assert_eq!(h.request_view(26), Ok(()));
    assert_eq!(h.request_view(27), Err(BindingError::InvalidOffset { offset: 27, max: 26 }));
}

#[test]
fn view_ticket_carries_offset_and_generation() {
    let mut h = HandleState::new();
    h.record_transform().unwrap();
    assert_eq!(h.finish_view(16, 0), Ok(ViewTicket { offset: 16, generation: 1 }));
    assert_eq!(h.finish_view(40, -1), Err(BindingError::InvalidOffset { offset: 40, max: 26 }));
    assert_eq!(h.finish_view(16, 9), Err(BindingError::UnmappedStatus { status: 9 }));
}

#[test]
fn view_stays_valid_across_reads() {
    let h = HandleState::new();
    let t = h.finish_view(16, 0).unwrap();
    for _ in 0..3 {
        assert_eq!(h.check_access(), Ok(()));
        assert_eq!(h.check_view(&t), Ok(()));
    }
}

#[test]
fn view_at_sixteen_is_stale_after_transform() {
    let mut h = HandleState::new();
    assert_eq!(h.request_view(16), Ok(()));
    let t = h.finish_view(16, 0).unwrap();
    assert_eq!(h.check_view(&t), Ok(()));
    h.record_transform().unwrap();
    assert_eq!(h.check_view(&t), Err(BindingError::StaleView));
    let fresh = h.finish_view(16, 0).unwrap();
    assert_eq!(h.check_view(&fresh), Ok(()));
}
