use ctx_binding::error::BindingError;
use ctx_binding::view::{check_offset, view_status, MAX_OFFSET};

#[test]
fn offsets_up_to_the_maximum_pass() {
    assert_eq!(MAX_OFFSET, 26);
    for o in 0..=26 {
        assert_eq!(check_offset(o), Ok(()));
    }
}

#[test]
fn offsets_above_the_maximum_are_refused() {
    for o in [27, 28, 100, i32::MAX] {
        assert_eq!(check_offset(o), Err(BindingError::InvalidOffset { offset: o, max: 26 }));
    }
}

#[test]
fn view_status_maps_native_answers() {
    assert_eq!(view_status(16, 0), Ok(()));
    assert_eq!(view_status(30, -1), Err(BindingError::InvalidOffset { offset: 30, max: 26 }));
    assert_eq!(view_status(3, 5), Err(BindingError::UnmappedStatus { status: 5 }));
    assert_eq!(view_status(3, -2), Err(BindingError::UnmappedStatus { status: -2 }));
}
