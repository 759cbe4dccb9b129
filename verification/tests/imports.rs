use sayable::imports::transform_import_declaration;

#[test]
fn macro_imports_become_runtime_imports() {
    assert_eq!(transform_import_declaration("sayable"), Some("sayable/runtime".to_string()));
    assert_eq!(
        transform_import_declaration("@sayable/react"),
        Some("@sayable/react/runtime".to_string())
    );
}

#[test]
fn other_sayable_modules_keep_their_name() {
    assert_eq!(
        transform_import_declaration("sayable/runtime"),
        Some("sayable/runtime".to_string())
    );
    assert_eq!(
        transform_import_declaration("@sayable/factory"),
        Some("@sayable/factory".to_string())
    );
    assert_eq!(transform_import_declaration("unsayable"), Some("unsayable".to_string()));
}

#[test]
fn imports_of_anything_else_are_not_touched() {
    assert_eq!(transform_import_declaration("react"), None);
    assert_eq!(transform_import_declaration(""), None);
    assert_eq!(transform_import_declaration("sayabl"), None);
    assert_eq!(transform_import_declaration("Sayable"), None);
    assert_eq!(transform_import_declaration("say/able"), None);
}
