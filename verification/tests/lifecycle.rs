use postal::lifecycle::{EngineState, InitError};
use postal::marshal::bytes_to_c_buffer;

#[test]
fn new_state_is_idle() {
    let st = EngineState::new();
    assert_eq!(st.reference_count, 0);
    assert!(st.active_data_directory.is_none());
}

#[test]
fn two_sessions_one_teardown() {
    let mut st = EngineState::new();
    let c1 = st.acquire_default(true).unwrap();
    let c2 = st.acquire_default(true).unwrap();
    assert_eq!(st.reference_count, 2);
    assert!(!st.release(c1));
    assert_eq!(st.reference_count, 1);
    assert!(st.release(c2));
    assert_eq!(st.reference_count, 0);
    assert!(st.active_data_directory.is_none());
}

#[test]
fn teardown_once_per_cycle() {
    let mut st = EngineState::new();
    let mut teardowns: usize = 0;

    let a = st.acquire_default(true).unwrap();
    let b = st.acquire_default(true).unwrap();
    if st.release(a) {
        teardowns += 1;
    }
    if st.release(b) {
        teardowns += 1;
    }
    assert_eq!(teardowns, 1);

    let dir = bytes_to_c_buffer(b"/data/x").unwrap();
    let c = st.acquire_with_directory(dir, true).unwrap();
    let d = st.acquire_default(true).unwrap();
    if st.release(d) {
        teardowns += 1;
    }
    if st.release(c) {
        teardowns += 1;
    }
    assert_eq!(teardowns, 2);
    assert_eq!(st.reference_count, 0);
}

#[test]
fn failed_default_setup_leaves_state_unchanged() {
    let mut st = EngineState::new();
    match st.acquire_default(false) {
        Err(e) => assert_eq!(e, InitError::NativeSetupFailed),
        Ok(_) => panic!("setup must fail when the native call reported failure"),
    }
    assert_eq!(st.reference_count, 0);
    assert!(st.active_data_directory.is_none());
}

#[test]
fn failed_directory_setup_leaves_state_unchanged() {
    let mut st = EngineState::new();
    let keep = st.acquire_default(true).unwrap();
    let dir = bytes_to_c_buffer(b"/data/a").unwrap();
    match st.acquire_with_directory(dir, false) {
        Err(e) => assert_eq!(e, InitError::NativeSetupFailed),
        Ok(_) => panic!("setup must fail when the native call reported failure"),
    }
    assert_eq!(st.reference_count, 1);
    assert!(st.active_data_directory.is_none());
    assert!(st.release(keep));
}

#[test]
fn directory_override_is_global() {
    let mut st = EngineState::new();
    let da = bytes_to_c_buffer(b"/data/a").unwrap();
    let ca = st.acquire_with_directory(da, true).unwrap();
    assert_eq!(st.active_data_directory.as_ref().unwrap().bytes, b"/data/a\0".to_vec());

    let db = bytes_to_c_buffer(b"/data/b").unwrap();
    let cb = st.acquire_with_directory(db, true).unwrap();
    assert_eq!(st.reference_count, 2);
    // The engine is a singleton: the second directory now holds for both
    // live sessions. The first session's directory is gone.
    assert_eq!(st.active_data_directory.as_ref().unwrap().bytes, b"/data/b\0".to_vec());

    assert!(!st.release(ca));
    assert_eq!(st.active_data_directory.as_ref().unwrap().bytes, b"/data/b\0".to_vec());
    assert!(st.release(cb));
    assert!(st.active_data_directory.is_none());
}

#[test]
fn default_setup_clears_recorded_directory() {
    let mut st = EngineState::new();
    let dir = bytes_to_c_buffer(b"/data/a").unwrap();
    let c1 = st.acquire_with_directory(dir, true).unwrap();
    assert!(st.active_data_directory.is_some());
    let c2 = st.acquire_default(true).unwrap();
    assert!(st.active_data_directory.is_none());
    assert!(!st.release(c2));
    assert!(st.release(c1));
}
