//! The scalar types of JSON schemas.

use nexgen::json_schema::scalar::ScalarKind;

#[test]
fn scalar_kind_classifies_only_supported_scalar_types() {
    assert_eq!(ScalarKind::from_name("string"), Some(ScalarKind::String));
    assert_eq!(ScalarKind::from_name("integer"), Some(ScalarKind::Integer));
    assert_eq!(ScalarKind::from_name("object"), None);
    assert_eq!(ScalarKind::from_name("null"), None);
}
