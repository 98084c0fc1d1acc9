use coreclr_host::assemblies::Found;
use coreclr_host::core_clr::{
    check_native, native_string, ShutdownCall, CLR_CREATE_DELEGATE, CLR_INITIALIZE, CLR_SHUTDOWN,
};
use std::path::Path;
use coreclr_host::platform::{default_pattern, library_extension, library_name};
use coreclr_host::{CoreClr, CoreClrError, Platform, Properties};

fn started() -> CoreClr {
    let mut clr = CoreClr::load(Ok(())).unwrap();
    assert!(clr.finish_initialize(0, 4096, 1).is_ok());
    clr
}

#[test]
fn a_bound_engine_gets_a_fresh_handle() {
    let clr = CoreClr::load(Ok(())).unwrap();
    assert_eq!(clr.host_handle(), 0);
    assert_eq!(clr.domain_id(), 0);
    assert!(!clr.is_initialized());
    let clr = CoreClr::load_from(true, Ok(())).unwrap();
    assert_eq!(clr.host_handle(), 0);
    assert_eq!(clr.domain_id(), 0);
    assert!(!clr.is_initialized());
}

#[test]
fn a_failed_load_gives_no_handle() {
    match CoreClr::load(Err(String::from("cannot open shared object file"))) {
        Err(CoreClrError::LibraryError(message)) => {
            assert_eq!(message, "cannot open shared object file")
        }
        other => panic!("unexpected outcome: {:?}", other),
    }
    match CoreClr::load_from(true, Err(String::from("undefined symbol"))) {
        Err(CoreClrError::LibraryError(message)) => assert_eq!(message, "undefined symbol"),
        other => panic!("unexpected outcome: {:?}", other),
    }
}

#[test]
fn a_directory_without_the_library_gives_no_handle() {
    match CoreClr::load_from(false, Ok(())) {
        Err(CoreClrError::LibraryError(message)) => assert_eq!(message, "Library file not found."),
        other => panic!("unexpected outcome: {:?}", other),
    }
    assert!(matches!(
        CoreClr::load_from(false, Err(String::from("not tried"))),
        Err(CoreClrError::LibraryError(_))
    ));
}

#[test]
fn a_nul_byte_in_a_name_is_reported_with_its_place() {
    let clr = CoreClr::load(Ok(())).unwrap();
    let properties = Properties::new();
    assert!(matches!(
        clr.initialize("/srv\0/app", "Sample\0Host", &properties),
        Err(CoreClrError::FfiError(4))
    ));
    assert!(matches!(
        clr.initialize("/srv/app", "Sample\0Host", &properties),
        Err(CoreClrError::FfiError(6))
    ));
    assert!(matches!(
        CoreClr::initialize_with("/srv/app", "\0", vec![], vec![]),
        Err(CoreClrError::FfiError(0))
    ));
    assert!(matches!(native_string("a\0"), Err(CoreClrError::FfiError(1))));
    assert_eq!(native_string("SampleHost").unwrap(), "SampleHost");
}

#[test]
fn the_start_carries_the_names_and_the_arrays() {
    let clr = CoreClr::load(Ok(())).unwrap();
    let call = clr.initialize("/srv/app", "SampleHost", &Properties::new()).unwrap();
    assert_eq!(call.exe_path, "/srv/app");
    assert_eq!(call.friendly_name, "SampleHost");
    assert!(call.keys.is_empty());
    assert!(call.values.is_empty());
    let call = CoreClr::initialize_with(
        "/srv/app",
        "SampleHost",
        vec![String::from("APP_PATHS")],
        vec![String::from("/srv/app/lib")],
    )
    .unwrap();
    assert_eq!(call.exe_path, "/srv/app");
    assert_eq!(call.friendly_name, "SampleHost");
    assert_eq!(call.keys, vec![String::from("APP_PATHS")]);
    assert_eq!(call.values, vec![String::from("/srv/app/lib")]);
}

#[test]
fn a_rejected_start_leaves_the_handle_as_it_was() {
    let mut clr = CoreClr::load(Ok(())).unwrap();
    assert!(matches!(
        clr.finish_initialize(-1, 4096, 1),
        Err(CoreClrError::InitializationFailure)
    ));
    assert_eq!(clr.host_handle(), 0);
    assert_eq!(clr.domain_id(), 0);
    assert!(!clr.is_initialized());
    assert!(matches!(
        clr.finish_initialize(i32::MIN, 1, 1),
        Err(CoreClrError::InitializationFailure)
    ));
    assert!(clr.release().is_none());
}

#[test]
fn an_accepted_start_captures_host_and_domain() {
    let mut clr = CoreClr::load(Ok(())).unwrap();
    assert!(clr.finish_initialize(0, 4096, 7).is_ok());
    assert_eq!(clr.host_handle(), 4096);
    assert_eq!(clr.domain_id(), 7);
    assert!(clr.is_initialized());
    assert!(matches!(
        clr.finish_initialize(-2147467259, 1, 2),
        Err(CoreClrError::InitializationFailure)
    ));
    assert_eq!(clr.host_handle(), 4096);
    assert_eq!(clr.domain_id(), 7);
    assert!(clr.is_initialized());
    assert!(clr.finish_initialize(1, 8192, 9).is_ok());
    assert_eq!(clr.host_handle(), 8192);
    assert_eq!(clr.domain_id(), 9);
}

#[test]
fn no_delegate_before_the_engine_was_started() {
    let clr = CoreClr::load(Ok(())).unwrap();
    assert!(matches!(
        clr.create_delegate("ManagedLibrary", "1.0.0.0", "ManagedLibrary", "ManagedWorker", "DoWork"),
        Err(CoreClrError::NotFound)
    ));
    assert!(matches!(
        clr.create_delegate("Managed\0Library", "1.0.0.0", "ManagedLibrary", "ManagedWorker", "DoWork"),
        Err(CoreClrError::FfiError(7))
    ));
    assert!(matches!(
        clr.create_delegate("ManagedLibrary", "1.0.0.0", "ManagedLibrary", "Managed\0Worker", "DoWork"),
        Err(CoreClrError::FfiError(22))
    ));
    assert!(matches!(
        clr.create_delegate("ManagedLibrary", "1.0.0.0", "ManagedLibrary", "ManagedWorker", "\0"),
        Err(CoreClrError::FfiError(0))
    ));
}

#[test]
fn a_delegate_is_asked_for_by_its_full_names() {
    let clr = started();
    let call = clr
        .create_delegate("ManagedLibrary", "1.0.0.0", "ManagedLibrary", "ManagedWorker", "DoWork")
        .unwrap();
    assert_eq!(call.host_handle, 4096);
    assert_eq!(call.domain_id, 1);
    assert_eq!(call.assembly_name, "ManagedLibrary, Version=1.0.0.0");
    assert_eq!(call.qualified_class, "ManagedLibrary.ManagedWorker");
    assert_eq!(call.method_name, "DoWork");
    let call = clr.create_delegate("A,B", "", "N.M", "", "").unwrap();
    assert_eq!(call.assembly_name, "A,B, Version=");
    assert_eq!(call.qualified_class, "N.M.");
    assert_eq!(call.method_name, "");
}

#[test]
fn a_nul_byte_in_a_delegates_name_is_reported() {
    let clr = started();
    assert!(matches!(
        clr.create_delegate("Lib\0", "1.0\0", "N\0", "C", "m\0"),
        Err(CoreClrError::FfiError(3))
    ));
    assert!(matches!(
        clr.create_delegate("Lib", "1.0\0", "N\0", "C", "m\0"),
        Err(CoreClrError::FfiError(16))
    ));
    assert!(matches!(
        clr.create_delegate("Lib", "1.0", "N", "C\0", "\0"),
        Err(CoreClrError::FfiError(3))
    ));
    assert!(matches!(
        clr.create_delegate("Lib", "1.0", "N", "C", "\0m"),
        Err(CoreClrError::FfiError(0))
    ));
}

#[test]
fn the_engines_answer_decides_the_delegate() {
    let clr = started();
    assert!(matches!(clr.finish_create_delegate(0, 65536), Ok(65536)));
    assert!(matches!(clr.finish_create_delegate(i32::MAX, 0), Ok(0)));
    assert!(matches!(clr.finish_create_delegate(-1, 65536), Err(CoreClrError::NotFound)));
}

#[test]
fn only_a_started_engine_is_stopped() {
    let clr = CoreClr::load(Ok(())).unwrap();
    assert_eq!(clr.release(), None);
    let clr = started();
    assert_eq!(clr.release(), Some(ShutdownCall { host_handle: 4096, domain_id: 1 }));
}

#[test]
fn basic_startup() {
    // The engine is played by the test: it binds, accepts the start with
    // status 0, and hands out one address.
    let mut clr = CoreClr::load_from(true, Ok(())).expect("Coreclr failed to load.");

    let mut properties = Properties::new();
    let _ = properties.trusted().add(
        Path::new("./tests/ManagedLibrary/deploy"),
        &format!("*.{}", library_extension(Platform::Linux)),
    );
    let start = clr.initialize("/srv/host", "SampleHost", &properties);
    assert_eq!(start.is_ok(), true);
    assert_eq!(start.unwrap().friendly_name, "SampleHost");
    assert!(clr.finish_initialize(0, 77, 3).is_ok());

    let call = clr
        .create_delegate("ManagedLibrary", "1.0.0.0", "ManagedLibrary", "ManagedWorker", "DoWork")
        .unwrap();
    assert_eq!((call.host_handle, call.domain_id), (77, 3));
    let ptr = clr.finish_create_delegate(0, 12345).unwrap();
    assert_ne!(ptr, 0);
    assert_eq!(clr.release(), Some(ShutdownCall { host_handle: 77, domain_id: 3 }));
}

#[test]
fn a_start_with_trusted_files_carries_their_pair() {
    let clr = CoreClr::load(Ok(())).unwrap();
    let mut properties = Properties::new();
    properties.trusted().append(&vec![Found::File(String::from("./tests/engine.rs"))]);
    let start = clr.initialize("/srv/host", "SampleHost", &properties).unwrap();
    assert_eq!(start.keys, vec![String::from("TRUSTED_PLATFORM_ASSEMBLIES")]);
    let expected = Path::new("./tests/engine.rs").canonicalize().unwrap();
    assert_eq!(start.values, vec![String::from(expected.to_str().unwrap())]);
}

#[test]
fn a_start_whose_trusted_file_vanished_fails() {
    let clr = CoreClr::load(Ok(())).unwrap();
    let mut properties = Properties::new();
    properties.trusted().append(&vec![Found::File(String::from("./no/such/file.dll"))]);
    assert!(matches!(
        clr.initialize("/srv/host", "SampleHost", &properties),
        Err(CoreClrError::IoError(_))
    ));
    assert!(matches!(
        clr.initialize("/srv\0/host", "SampleHost", &properties),
        Err(CoreClrError::FfiError(4))
    ));
}

#[test]
fn a_nul_byte_in_a_property_is_reported() {
    let keys = vec![String::from("APP_PATHS"), String::from("APP_NI_PATHS")];
    assert!(matches!(
        CoreClr::initialize_with(
            "/srv/app",
            "SampleHost",
            keys.clone(),
            vec![String::from("/a"), String::from("/b\0;/c\0")]
        ),
        Err(CoreClrError::FfiError(2))
    ));
    assert!(matches!(
        CoreClr::initialize_with(
            "/srv/app",
            "SampleHost",
            vec![String::from("APP\0"), String::from("\0")],
            vec![String::from("\0"), String::from("/b")]
        ),
        Err(CoreClrError::FfiError(3))
    ));
    assert!(matches!(check_native(&keys), Ok(())));
    assert!(matches!(
        check_native(&vec![String::from("ok"), String::from("a\0"), String::from("\0")]),
        Err(CoreClrError::FfiError(1))
    ));
}

#[test]
fn the_entry_points_have_fixed_names() {
    assert_eq!(CLR_INITIALIZE, "coreclr_initialize");
    assert_eq!(CLR_SHUTDOWN, "coreclr_shutdown");
    assert_eq!(CLR_CREATE_DELEGATE, "coreclr_create_delegate");
}

#[test]
fn each_platform_names_its_library() {
    assert_eq!(library_name(Platform::Windows), "coreclr.dll");
    assert_eq!(library_name(Platform::MacOs), "libcoreclr.dylib");
    assert_eq!(library_name(Platform::Linux), "libcoreclr.so");
    assert_eq!(library_extension(Platform::Windows), "dll");
    assert_eq!(library_extension(Platform::MacOs), "dylib");
    assert_eq!(library_extension(Platform::Linux), "so");
    assert_eq!(default_pattern(Platform::Windows), "*.dll");
    assert_eq!(default_pattern(Platform::MacOs), "*.dylib");
    assert_eq!(default_pattern(Platform::Linux), "*.so");
}

#[test]
fn each_failure_has_its_line() {
    assert_eq!(CoreClrError::NotFound.message(), "Not found.");
    assert_eq!(CoreClrError::LibraryError(String::new()).message(), "Load error.");
    let denied = std::io::Error::from(std::io::ErrorKind::PermissionDenied);
    assert_eq!(CoreClrError::IoError(denied).message(), "Standard io error.");
    assert_eq!(CoreClrError::FfiError(0).message(), "Ffi calling error.");
    assert_eq!(
        CoreClrError::InitializationFailure.message(),
        "Failure to initialize CoreClr."
    );
    assert_eq!(CoreClrError::PathError(String::new()).message(), "Invalid path result.");
    let refused = glob::Pattern::new("***").unwrap_err();
    assert_eq!(CoreClrError::PatternError(refused).message(), "Pattern error.");
    assert_eq!(CoreClrError::Duplicate.message(), "Duplicate path.");
    assert_eq!(CoreClrError::NotADirectory.message(), "Not a directory.");
}
