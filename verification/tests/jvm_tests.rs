use rustus::jvm::{EvalResult, RustusError, script_hash_from_bytes};

#[test]
fn error_messages_name_what_went_wrong() {
    assert_eq!(RustusError::JvmNotFound("no java".to_string()).message(), "JVM not found: no java");
    assert_eq!(RustusError::JvmInit("x".to_string()).message(), "JVM initialization failed: x");
    assert_eq!(RustusError::Compilation("bad".to_string()).message(), "Scalus compilation error: bad");
    assert_eq!(RustusError::Eval("e".to_string()).message(), "CEK evaluation error: e");
    assert_eq!(RustusError::Serialization("s".to_string()).message(), "JSON serialization error: s");
    assert_eq!(RustusError::JarNotFound("j".to_string()).message(), "uber-JAR not found: j");
    assert_eq!(RustusError::Io("disk".to_string()).message(), "IO error: disk");
}

#[test]
fn eval_result_succeeded_and_failed() {
    let ok = EvalResult { success: true, cpu: 10, mem: 20, logs: vec![], error: None };
    let bad = EvalResult { success: false, cpu: 1, mem: 2, logs: vec!["trace".to_string()], error: Some("boom".to_string()) };
    assert!(ok.succeeded());
    assert!(!ok.failed());
    assert!(bad.failed());
    assert!(!bad.succeeded());
}

#[test]
fn script_hash_takes_exactly_28_bytes() {
    let bytes: Vec<u8> = (0..28).collect();
    let h = script_hash_from_bytes(bytes.clone()).unwrap();
    assert_eq!(h.to_vec(), bytes);
}

#[test]
fn script_hash_of_the_wrong_length_is_a_compilation_error() {
    let r = script_hash_from_bytes(vec![1, 2, 3]);
    assert_eq!(r, Err(RustusError::Compilation("Expected 28-byte hash, got 3 bytes".to_string())));
    let r = script_hash_from_bytes(vec![0; 32]);
    assert_eq!(r, Err(RustusError::Compilation("Expected 28-byte hash, got 32 bytes".to_string())));
}
