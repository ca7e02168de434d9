use morpheus::errors::{MorpheusError, MorpheusResult};

#[test]
fn test_compilation_error() {
    let error = MorpheusError::CompilationError("missing semicolon".to_string());
    let message = error.message();

    assert!(message.contains("Compilation failed"));
    assert!(message.contains("missing semicolon"));
}

#[test]
fn test_load_error() {
    let error = MorpheusError::LoadError("invalid WASM module".to_string());
    let message = error.message();

    assert!(message.contains("Failed to load component"));
    assert!(message.contains("invalid WASM module"));
}

#[test]
fn test_permission_denied() {
    let error = MorpheusError::PermissionDenied("network access not allowed".to_string());
    let message = error.message();

    assert!(message.contains("Permission denied"));
    assert!(message.contains("network access not allowed"));
}

#[test]
fn test_invalid_state() {
    let error = MorpheusError::InvalidState("state version mismatch".to_string());
    let message = error.message();

    assert!(message.contains("Invalid state"));
    assert!(message.contains("state version mismatch"));
}

#[test]
fn test_other_error() {
    let error = MorpheusError::Other("something went wrong".to_string());
    let message = error.message();

    assert_eq!(message, "something went wrong");
}

#[test]
fn test_result_type_ok() {
    let result: MorpheusResult<i32> = Ok(42);
    assert!(result.is_ok());
    assert_eq!(result.unwrap(), 42);
}

#[test]
fn test_result_type_err() {
    let result: MorpheusResult<i32> = Err(MorpheusError::Other("test error".to_string()));
    assert!(result.is_err());

    match result {
        Err(MorpheusError::Other(msg)) => assert_eq!(msg, "test error"),
        _ => panic!("Expected error"),
    }
}

#[test]
fn test_error_chaining() {
    let inner_fn = || -> MorpheusResult<()> {
        Err(MorpheusError::CompilationError("inner error".to_string()))
    };

    let outer_fn = || -> MorpheusResult<()> {
        inner_fn()?;
        Ok(())
    };

    let result = outer_fn();
    assert!(result.is_err());

    match result {
        Err(MorpheusError::CompilationError(msg)) => {
            assert_eq!(msg, "inner error");
        }
        _ => panic!("Expected CompilationError"),
    }
}

#[test]
fn test_error_types_are_distinct() {
    let comp_err = MorpheusError::CompilationError("a".to_string());
    let load_err = MorpheusError::LoadError("b".to_string());
    let perm_err = MorpheusError::PermissionDenied("c".to_string());

    // Each should have a different string representation
    assert_ne!(comp_err.message(), load_err.message());
    assert_ne!(load_err.message(), perm_err.message());
    assert_ne!(comp_err.message(), perm_err.message());
}

#[test]
fn test_serialization_error_message() {
    let error = MorpheusError::SerializationError("unexpected end of input".to_string());
    let message = error.message();

    assert!(message.contains("Serialization error"));
    assert!(message.contains("unexpected end of input"));
}
