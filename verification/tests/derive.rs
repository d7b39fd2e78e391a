use dijavu::derive::{
    DeriveError, FieldAttr, InjectableFieldSource, accessor, auto_init, build_error_message, check_auto,
    check_for_initializable, check_for_injectable, check_initializable_data, default_auto,
    field_name, field_source, init_data_hidden, init_data_struct_name, init_error_message,
    init_struct_name, inject_error_message,
    runtime_error_message, runtime_struct_name,
};

const INJECT: FieldAttr = FieldAttr { is_inject: true, is_bare: true };
const INJECT_VALUE: FieldAttr = FieldAttr { is_inject: true, is_bare: false };
const OTHER: FieldAttr = FieldAttr { is_inject: false, is_bare: false };

#[test]
fn field_source_decisions() {
    assert_eq!(field_source(&[]), Ok(InjectableFieldSource::InitValue));
    assert_eq!(field_source(&[OTHER]), Ok(InjectableFieldSource::InitValue));
    assert_eq!(field_source(&[OTHER, INJECT]), Ok(InjectableFieldSource::Injectable));
    assert_eq!(field_source(&[INJECT, INJECT_VALUE]), Err(DeriveError::UnexpectedInjectValue));
    assert_eq!(
        DeriveError::UnexpectedInjectValue.message(),
        "did not expect a value for `#[inject]`"
    );
}

#[test]
fn argument_checks() {
    assert_eq!(check_for_initializable(false), Ok(()));
    assert_eq!(check_for_initializable(true), Err(DeriveError::AutoForInitializable));
    assert_eq!(check_for_injectable(false), Ok(()));
    assert_eq!(check_for_injectable(true), Err(DeriveError::ManualForInjectable));
    assert_eq!(check_initializable_data(true), Err(DeriveError::DataForInitializable));
    assert_eq!(check_initializable_data(false), Ok(()));
    assert_eq!(check_auto(true, true), Err(DeriveError::AutoWithGenerics));
    assert_eq!(check_auto(true, false), Ok(true));
    assert_eq!(check_auto(false, true), Ok(false));
    assert!(!default_auto());
    assert_eq!(
        DeriveError::AutoWithGenerics.message(),
        "cannot automatically initialize a struct with generics"
    );
}

#[test]
fn names_and_messages() {
    assert_eq!(field_name(Some("value"), 3), "value");
    assert_eq!(field_name(None, 0), ".0");
    assert_eq!(field_name(None, 107), ".107");
    assert_eq!(accessor(None, 12), "12");
    assert_eq!(accessor(Some("conf"), 1), "conf");
    assert_eq!(init_struct_name("Service"), "ServiceInit");
    assert_eq!(runtime_struct_name("Service"), "ServiceRuntime");
    assert_eq!(
        init_error_message("value", "Service"),
        "could not create initialization state for field `value` of `Service`"
    );
    assert_eq!(build_error_message(".0", "Simple"), "could not build field `.0` of `Simple`");
    assert_eq!(
        runtime_error_message("conf", "Thing"),
        "could not create runtime state for field `conf` of `Thing`"
    );
    assert_eq!(inject_error_message("dep", "Svc"), "could not inject field `dep` of `Svc`");
}

#[test]
fn init_data_struct_names() {
    assert_eq!(init_data_struct_name("Service", true), "ServiceInitData");
    assert_eq!(init_data_struct_name("Config", false), "ConfigInit");
}

#[test]
fn init_data_hidden_by_default() {
    assert!(init_data_hidden(None));
    assert!(init_data_hidden(Some(true)));
    assert!(!init_data_hidden(Some(false)));
}

#[test]
fn not_a_struct_message() {
    assert_eq!(DeriveError::NotAStruct.message(), "must be a struct");
    assert_eq!(
        DeriveError::DataForInitializable.message(),
        "`data` is only supported for `#[derive(Injectable)]`"
    );
}

#[test]
fn auto_init_follows_the_request() {
    assert!(auto_init(Some(true)));
    assert!(!auto_init(Some(false)));
    assert_eq!(auto_init(None), default_auto());
    assert!(!auto_init(None));
}
