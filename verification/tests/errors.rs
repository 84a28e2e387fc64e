use tarsius::error::{failure_text, CoreError};

#[test]
fn renders_with_the_prefix_of_its_kind() {
    assert_eq!(CoreError::Storage("disk full".to_string()).to_string(), "Storage error: disk full");
    assert_eq!(CoreError::NotFound("Scratch 42".to_string()).to_string(), "Not found: Scratch 42");
    assert_eq!(CoreError::Storage(String::new()).to_string(), "Storage error: ");
}

#[test]
fn kinds_are_distinguishable() {
    let storage = CoreError::storage("x".to_string());
    let missing = CoreError::not_found("x".to_string());
    assert_eq!(storage, CoreError::Storage("x".to_string()));
    assert_eq!(missing, CoreError::NotFound("x".to_string()));
    assert!(storage.is_storage() && !storage.is_not_found());
    assert!(missing.is_not_found() && !missing.is_storage());
    assert_ne!(storage, missing);
}

#[test]
fn failures_are_reported_with_the_operation() {
    assert_eq!(
        failure_text("load scratch", &CoreError::NotFound("Scratch 42".to_string())),
        "Failed to load scratch: Not found: Scratch 42"
    );
    assert_eq!(
        failure_text("save project", &CoreError::Storage("disk full".to_string())),
        "Failed to save project: Storage error: disk full"
    );
}
