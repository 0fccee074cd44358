use coffee_filter::jvm::errors::JvmTIError;
use coffee_filter::jvm::events::Handlers;
use coffee_filter::jvm::general::JvmTIVersion;
use coffee_filter::jvm::threads::{NativeThreadInfo, Thread};
use coffee_filter::jvm::{GetEnv, Jvm, JvmTICreationError, SetEnvironmentLocalStorage};

struct NoHandlers;

impl Handlers for NoHandlers {
    type Vm = ();
    type Thread = ();
    type ClassFileLoadHook = ();
    type Class = ();
}

fn request(vm: usize) -> GetEnv {
    Jvm::<NoHandlers>::from_jvm_ptr(vm, JvmTIVersion::jvmti_21()).unwrap()
}

#[test]
fn a_null_vm_pointer_fails_before_anything_is_asked() {
    let request = Jvm::<NoHandlers>::from_jvm_ptr(0, JvmTIVersion::jvmti_21());
    assert!(matches!(request, Err(JvmTICreationError::NullJVMPointer)));
}

#[test]
fn the_environment_is_asked_of_the_vm_at_the_requested_version() {
    let request = Jvm::<NoHandlers>::from_jvm_ptr(0x1000, JvmTIVersion::jvmti_11()).unwrap();
    assert_eq!(request.vm(), 0x1000);
    assert_eq!(request.requested_version(), 0x300B_0000);
}

#[test]
fn a_handle_is_created_for_the_environment_that_the_runtime_gave() {
    let jvm: Jvm<NoHandlers> = request(0x1000).acquired(0, 0x2000).unwrap();
    assert_eq!(jvm.as_ptr(), 0x2000);
    let registry = jvm.registry();
    assert!(registry.vm_init.is_none());
    assert!(registry.vm_death.is_none());
    assert!(registry.vm_start.is_none());
    assert!(registry.thread_start.is_none());
    assert!(registry.thread_end.is_none());
    assert!(registry.class_file_load_hook.is_none());
    assert!(registry.class_load.is_none());
    assert!(registry.class_prepare.is_none());
}

#[test]
fn a_version_mismatch_fails_the_creation() {
    let created = request(0x1000).acquired::<NoHandlers>(-3, 0);
    assert!(matches!(created, Err(JvmTICreationError::WrongVersion)));
}

#[test]
fn a_detached_thread_fails_the_creation() {
    let created = request(0x1000).acquired::<NoHandlers>(-2, 0);
    assert!(matches!(created, Err(JvmTICreationError::Detached)));
}

#[test]
fn the_number_of_an_error_fails_the_creation_with_that_error() {
    let created = request(0x1000).acquired::<NoHandlers>(116, 0);
    assert!(matches!(
        created,
        Err(JvmTICreationError::JvmTIInitialization(JvmTIError::InvalidEnvironment))
    ));
    let created = request(0x1000).acquired::<NoHandlers>(100, 0);
    assert!(matches!(
        created,
        Err(JvmTICreationError::JvmTIInitialization(JvmTIError::NullPointer))
    ));
}

#[test]
fn any_other_status_fails_the_creation_with_the_internal_error() {
    for status in [-1, -4, -5, -6, -100, i32::MIN, 1, 9, 105, 117, i32::MAX] {
        let created = request(0x1000).acquired::<NoHandlers>(status, 0x2000);
        assert!(
            matches!(
                created,
                Err(JvmTICreationError::JvmTIInitialization(JvmTIError::Internal))
            ),
            "status {status}"
        );
    }
}

#[test]
fn the_handle_is_registered_in_the_storage_of_its_environment() {
    let jvm: Jvm<NoHandlers> = request(0x1000).acquired(0, 0x2000).unwrap();
    let store = jvm.local_storage(0x7f00_0040);
    assert_eq!(store, SetEnvironmentLocalStorage { jvmti_ptr: 0x2000, data: 0x7f00_0040 });
    assert_eq!(jvm.registered(0), Ok(()));
    assert_eq!(
        jvm.registered(110),
        Err(JvmTICreationError::JvmTIInitialization(JvmTIError::OutOfMemory))
    );
}

#[test]
fn the_address_that_was_stored_leads_back_to_the_handle() {
    let jvm: Jvm<NoHandlers> = request(0x1000).acquired(0, 0x2000).unwrap();
    let other: Jvm<NoHandlers> = request(0x1000).acquired(0, 0x3000).unwrap();
    let mut storage = std::collections::HashMap::new();
    for (handle, address) in [(&jvm, 0x7f00_0040usize), (&other, 0x7f00_0080usize)] {
        let store = handle.local_storage(address);
        storage.insert(store.jvmti_ptr, store.data);
    }
    assert_eq!(Jvm::<NoHandlers>::from_ptr(0x2000, 0, storage[&0x2000]), 0x7f00_0040);
    assert_eq!(Jvm::<NoHandlers>::from_ptr(0x3000, 0, storage[&0x3000]), 0x7f00_0080);
}

#[test]
fn disposal_gives_up_the_environment() {
    let jvm: Jvm<NoHandlers> = request(0x1000).acquired(0, 0x2000).unwrap();
    assert_eq!(jvm.dispose(), 0x2000);
}

#[test]
fn loaded_classes_come_in_the_order_of_the_list() {
    let jvm: Jvm<NoHandlers> = request(0x1000).acquired(0, 0x2000).unwrap();
    let classes = jvm.get_loaded_classes(0, vec![0x10, 0x20, 0x30]).unwrap();
    let raw: Vec<usize> = classes.iter().map(|class| class.as_raw()).collect();
    assert_eq!(raw, vec![0x10, 0x20, 0x30]);
    assert!(classes.iter().all(|class| class.env().as_ptr() == 0x2000));
    assert!(jvm.get_loaded_classes(0, vec![]).unwrap().is_empty());
    assert!(matches!(jvm.get_loaded_classes(112, vec![]), Err(JvmTIError::WrongPhase)));
}

#[test]
fn thread_info_is_read_from_what_the_runtime_filled_in() {
    let jvm: Jvm<NoHandlers> = request(0x1000).acquired(0, 0x2000).unwrap();
    let thread = Thread::from_ptr(&jvm, 0x50);
    let native = NativeThreadInfo {
        name: b"main".to_vec(),
        priority: 5,
        is_daemon: 0,
        thread_group: 0x60,
        context_class_loader: 0x70,
    };
    let info = thread.info(jvm.get_thread_info(0, native)).unwrap();
    assert_eq!(info.name, b"main");
    assert_eq!(info.priority, 5);
    assert!(!info.is_daemon);
    assert_eq!(info.group.as_raw(), 0x60);
    assert_eq!(info.group.env().as_ptr(), 0x2000);
    assert_eq!(info.context_class_loader.as_raw(), 0x70);
    let daemon = NativeThreadInfo {
        name: b"GC".to_vec(),
        priority: 9,
        is_daemon: 2,
        thread_group: 0x61,
        context_class_loader: 0x71,
    };
    assert!(thread.info(Ok(daemon)).unwrap().is_daemon);
}

#[test]
fn thread_info_passes_the_error_on() {
    let jvm: Jvm<NoHandlers> = request(0x1000).acquired(0, 0x2000).unwrap();
    let thread = Thread::from_ptr(&jvm, 0x50);
    let unused = NativeThreadInfo {
        name: Vec::new(),
        priority: 0,
        is_daemon: 0,
        thread_group: 0,
        context_class_loader: 0,
    };
    let reply = jvm.get_thread_info(15, unused);
    assert!(matches!(reply, Err(JvmTIError::ThreadNotAlive)));
    assert!(matches!(thread.info(reply), Err(JvmTIError::ThreadNotAlive)));
    assert_eq!(thread.into_raw(), 0x50);
}
