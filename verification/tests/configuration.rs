use coreclr_host::assemblies::Found;
use coreclr_host::fs::Probe;
use coreclr_host::properties::{
    APP_NI_PATHS, APP_PATHS, NATIVE_DLL_SEARCH_DIRECTORIES, PLATFORM_RESOURCE_ROOTS,
    TRUSTED_PLATFORM_ASSEMBLIES,
};
use coreclr_host::{CoreClrError, Properties};
use std::path::Path;

fn directory(text: &str) -> Probe {
    Probe::Directory(String::from(text))
}

#[test]
fn a_blank_configuration_has_no_properties() {
    let properties = Properties::new();
    let (keys, values) = properties.to_property_arrays().unwrap();
    assert_eq!(keys.len(), 0);
    assert_eq!(values.len(), 0);
    let (keys, values) = Properties::default().arrays_with(&vec![]);
    assert!(keys.is_empty());
    assert!(values.is_empty());
}

#[test]
fn trusted_files_alone_give_one_pair() {
    let mut properties = Properties::new();
    properties.trusted().append(&vec![
        Found::File(String::from("./tests")),
        Found::File(String::from("./tests/engine.rs")),
    ]);
    let (keys, values) = properties.to_property_arrays().unwrap();
    assert_eq!(keys, vec![String::from("TRUSTED_PLATFORM_ASSEMBLIES")]);
    let first = Path::new("./tests").canonicalize().unwrap();
    let second = Path::new("./tests/engine.rs").canonicalize().unwrap();
    assert_eq!(
        values,
        vec![format!("{};{}", first.to_str().unwrap(), second.to_str().unwrap())]
    );
}

#[test]
fn trusted_files_found_by_a_pattern_give_one_pair() {
    let mut properties = Properties::new();
    assert!(properties.trusted().add(Path::new("./tests"), "config*.rs").is_ok());
    let (keys, values) = properties.to_property_arrays().unwrap();
    assert_eq!(keys, vec![String::from(TRUSTED_PLATFORM_ASSEMBLIES)]);
    let expected = Path::new("./tests/configuration.rs").canonicalize().unwrap();
    assert_eq!(values, vec![String::from(expected.to_str().unwrap())]);
}

#[test]
fn the_collections_come_in_the_engines_order() {
    let mut properties = Properties::new();
    assert!(properties.resource().add(directory("/res")).is_ok());
    assert!(properties.pinvoke().add(directory("/pinvoke/a")).is_ok());
    assert!(properties.pinvoke().add(directory("/pinvoke/b")).is_ok());
    assert!(properties.native().add(directory("/ni")).is_ok());
    assert!(properties.application().add(directory("/app")).is_ok());
    let trusted = vec![String::from("/tpa/one.dll"), String::from("/tpa/two.dll")];
    let (keys, values) = properties.arrays_with(&trusted);
    assert_eq!(
        keys,
        vec![
            String::from("TRUSTED_PLATFORM_ASSEMBLIES"),
            String::from("APP_PATHS"),
            String::from("APP_NI_PATHS"),
            String::from("NATIVE_DLL_SEARCH_DIRECTORIES"),
            String::from("PLATFORM_RESOURCE_ROOTS"),
        ]
    );
    assert_eq!(
        values,
        vec![
            String::from("/tpa/one.dll;/tpa/two.dll"),
            String::from("/app"),
            String::from("/ni"),
            String::from("/pinvoke/a;/pinvoke/b"),
            String::from("/res"),
        ]
    );
}

#[test]
fn empty_collections_are_left_out() {
    let mut properties = Properties::new();
    assert!(properties.native().add(directory("/ni")).is_ok());
    assert!(properties.resource().add(directory("/res")).is_ok());
    let (keys, values) = properties.to_property_arrays().unwrap();
    assert_eq!(keys, vec![String::from(APP_NI_PATHS), String::from(PLATFORM_RESOURCE_ROOTS)]);
    assert_eq!(values, vec![String::from("/ni"), String::from("/res")]);
    assert!(properties.application().add(directory("/app")).is_ok());
    assert!(properties.pinvoke().add(directory("/pinvoke")).is_ok());
    let (keys, values) = properties.to_property_arrays().unwrap();
    assert_eq!(
        keys,
        vec![
            String::from(APP_PATHS),
            String::from(APP_NI_PATHS),
            String::from(NATIVE_DLL_SEARCH_DIRECTORIES),
            String::from(PLATFORM_RESOURCE_ROOTS),
        ]
    );
    assert_eq!(keys.len(), values.len());
}

#[test]
fn a_vanished_trusted_file_fails_the_arrays() {
    let mut properties = Properties::new();
    properties.trusted().append(&vec![Found::File(String::from("./no/such/file.dll"))]);
    assert!(matches!(properties.to_property_arrays(), Err(CoreClrError::IoError(_))));
}

#[test]
fn a_set_of_the_configuration_refuses_duplicates() {
    let mut properties = Properties::new();
    assert!(properties.application().add_path(Path::new("./tests")).is_ok());
    assert!(matches!(
        properties.application().add_path(Path::new("./tests")),
        Err(CoreClrError::Duplicate)
    ));
    assert!(properties.native().add_path(Path::new("./tests")).is_ok());
}
