use coffee_filter::jvm::errors::JvmTIError;
use coffee_filter::jvm::JvmTICreationError;
use coffee_filter::prelude::{is_known_status, native_call_result};

#[test]
fn success_is_the_only_status_that_is_ok() {
    assert_eq!(native_call_result(0), Ok(()));
    for code in 1..=200u32 {
        if is_known_status(code) {
            assert!(native_call_result(code).is_err(), "status {code}");
        }
    }
}

#[test]
fn every_error_code_translates_to_the_error_with_that_code() {
    let mut errors = Vec::new();
    for code in 0..=1000u32 {
        if let Some(error) = JvmTIError::from_error_code(code) {
            assert_eq!(error.error_code(), code);
            assert_eq!(native_call_result(code), Err(error));
            assert_eq!(JvmTIError::from_error_code_unchecked(code), error);
            assert!(!errors.contains(&error), "two codes for {error:?}");
            errors.push(error);
        }
    }
    assert_eq!(errors.len(), 52);
}

#[test]
fn codes_that_name_no_error_are_not_translated() {
    assert_eq!(JvmTIError::from_error_code(0), None);
    assert_eq!(JvmTIError::from_error_code(1), None);
    assert_eq!(JvmTIError::from_error_code(105), None);
    assert_eq!(JvmTIError::from_error_code(114), None);
    assert_eq!(JvmTIError::from_error_code(117), None);
    assert_eq!(JvmTIError::from_error_code(u32::MAX), None);
    assert!(is_known_status(0));
    assert!(!is_known_status(105));
    assert!(is_known_status(100));
    assert!(is_known_status(116));
}

#[test]
fn errors_have_the_numbers_of_the_native_interface() {
    assert_eq!(JvmTIError::InvalidThread.error_code(), 10);
    assert_eq!(JvmTIError::InvalidThreadGroup.error_code(), 11);
    assert_eq!(JvmTIError::InvalidPriority.error_code(), 12);
    assert_eq!(JvmTIError::ThreadNotSuspended.error_code(), 13);
    assert_eq!(JvmTIError::ThreadSuspended.error_code(), 14);
    assert_eq!(JvmTIError::ThreadNotAlive.error_code(), 15);
    assert_eq!(JvmTIError::InvalidObject.error_code(), 20);
    assert_eq!(JvmTIError::InvalidClass.error_code(), 21);
    assert_eq!(JvmTIError::ClassNotPrepared.error_code(), 22);
    assert_eq!(JvmTIError::InvalidMethodId.error_code(), 23);
    assert_eq!(JvmTIError::InvalidLocation.error_code(), 24);
    assert_eq!(JvmTIError::InvalidFieldId.error_code(), 25);
    assert_eq!(JvmTIError::InvalidModule.error_code(), 26);
    assert_eq!(JvmTIError::NoMoreFrames.error_code(), 31);
    assert_eq!(JvmTIError::OpaqueFrame.error_code(), 32);
    assert_eq!(JvmTIError::TypeMismatch.error_code(), 34);
    assert_eq!(JvmTIError::InvalidSlot.error_code(), 35);
    assert_eq!(JvmTIError::Duplicate.error_code(), 40);
    assert_eq!(JvmTIError::NotFound.error_code(), 41);
    assert_eq!(JvmTIError::InvalidMonitor.error_code(), 50);
    assert_eq!(JvmTIError::NotMonitorOwner.error_code(), 51);
    assert_eq!(JvmTIError::Interrupt.error_code(), 52);
    assert_eq!(JvmTIError::InvalidClassFormat.error_code(), 60);
    assert_eq!(JvmTIError::CircularClassDefinition.error_code(), 61);
    assert_eq!(JvmTIError::FailsVerification.error_code(), 62);
    assert_eq!(JvmTIError::UnsupportedRedefinitionMethodAdded.error_code(), 63);
    assert_eq!(JvmTIError::UnsupportedRedefinitionSchemaChanged.error_code(), 64);
    assert_eq!(JvmTIError::InvalidTypeState.error_code(), 65);
    assert_eq!(JvmTIError::UnsupportedRedefinitionHierarchyChanged.error_code(), 66);
    assert_eq!(JvmTIError::UnsupportedRedefinitionMethodDeleted.error_code(), 67);
    assert_eq!(JvmTIError::UnsupportedVersion.error_code(), 68);
    assert_eq!(JvmTIError::NamesDontMatch.error_code(), 69);
    assert_eq!(JvmTIError::UnsupportedRedefinitionClassModifiersChanged.error_code(), 70);
    assert_eq!(JvmTIError::UnsupportedRedefinitionMethodModifiersChanged.error_code(), 71);
    assert_eq!(JvmTIError::UnsupportedRedefinitionClassAttributeChanged.error_code(), 72);
    assert_eq!(JvmTIError::UnsupportedOperation.error_code(), 73);
    assert_eq!(JvmTIError::UnmodifiableClass.error_code(), 79);
    assert_eq!(JvmTIError::UnmodifiableModule.error_code(), 80);
    assert_eq!(JvmTIError::NotAvailable.error_code(), 98);
    assert_eq!(JvmTIError::MustPossessCapability.error_code(), 99);
    assert_eq!(JvmTIError::NullPointer.error_code(), 100);
    assert_eq!(JvmTIError::AbsentInformation.error_code(), 101);
    assert_eq!(JvmTIError::InvalidEventType.error_code(), 102);
    assert_eq!(JvmTIError::IllegalArgument.error_code(), 103);
    assert_eq!(JvmTIError::NativeMethod.error_code(), 104);
    assert_eq!(JvmTIError::ClassLoaderUnsupported.error_code(), 106);
    assert_eq!(JvmTIError::OutOfMemory.error_code(), 110);
    assert_eq!(JvmTIError::AccessDenied.error_code(), 111);
    assert_eq!(JvmTIError::WrongPhase.error_code(), 112);
    assert_eq!(JvmTIError::Internal.error_code(), 113);
    assert_eq!(JvmTIError::UnAttachedThread.error_code(), 115);
    assert_eq!(JvmTIError::InvalidEnvironment.error_code(), 116);
}

#[test]
fn a_null_pointer_status_is_an_error_of_its_own() {
    assert_eq!(JvmTIError::from_error_code(100), Some(JvmTIError::NullPointer));
    assert_eq!(native_call_result(100), Err(JvmTIError::NullPointer));
}

#[test]
fn an_error_is_described_by_its_native_name() {
    assert_eq!(JvmTIError::OutOfMemory.message(), "JVMTI_ERROR_OUT_OF_MEMORY");
    assert_eq!(JvmTIError::WrongPhase.message(), "JVMTI_ERROR_WRONG_PHASE");
    assert_eq!(JvmTIError::NullPointer.message(), "JVMTI_ERROR_NULL_POINTER");
    assert_eq!(JvmTIError::InvalidFieldId.message(), "JVMTI_ERROR_INVALID_FIELDID");
    assert_eq!(
        JvmTIError::UnsupportedRedefinitionClassAttributeChanged.message(),
        "JVMTI_ERROR_UNSUPPORTED_REDEFINITION_CLASS_ATTRIBUTE_CHANGED"
    );
    for code in 0..=200u32 {
        if let Some(error) = JvmTIError::from_error_code(code) {
            assert!(error.message().starts_with("JVMTI_ERROR_"));
        }
    }
}

#[test]
fn a_creation_error_is_described_by_its_text() {
    assert_eq!(JvmTICreationError::NullJVMPointer.message(), "The JVM pointer is null");
    assert_eq!(JvmTICreationError::WrongVersion.message(), "JNI version mismatch");
    assert_eq!(JvmTICreationError::Detached.message(), "The VM is not attached");
    assert_eq!(
        JvmTICreationError::JvmTIInitialization(JvmTIError::AccessDenied).message(),
        "Fail to initialize the JVM TI environment: JVMTI_ERROR_ACCESS_DENIED"
    );
}

#[test]
fn a_native_error_becomes_an_initialization_error() {
    assert_eq!(
        JvmTICreationError::from(JvmTIError::Internal),
        JvmTICreationError::JvmTIInitialization(JvmTIError::Internal)
    );
}
