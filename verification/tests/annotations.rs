use hermes::apc::protocol::content::{Annotations, Role};
use hermes::nvim::event::parse_annotations;

#[test]
fn test_parse_annotations_empty() {
    let annotations = Annotations::new();
    let result = parse_annotations(annotations);

    assert_eq!(result.is_empty(), true);
}

#[test]
fn test_parse_annotations_with_audience() {
    let annotations = Annotations::new().audience(vec![Role::User]);
    let result = parse_annotations(annotations);

    let audience = result.get("audience").unwrap();
    let expected = nvim_oxi::Array::from_iter([nvim_oxi::Object::from("User")]);
    assert_eq!(*audience, nvim_oxi::Object::from(expected));
}

#[test]
fn test_parse_annotations_with_multiple_roles() {
    let annotations = Annotations::new().audience(vec![
        Role::User,
        Role::Assistant,
    ]);
    let result = parse_annotations(annotations);

    let audience = result.get("audience").unwrap();
    let expected = nvim_oxi::Array::from_iter([
        nvim_oxi::Object::from("User"),
        nvim_oxi::Object::from("Assistant"),
    ]);
    assert_eq!(*audience, nvim_oxi::Object::from(expected));
}

#[test]
fn test_parse_annotations_with_priority() {
    let annotations = Annotations::new().priority(5.0f64.to_bits());
    let result = parse_annotations(annotations);

    let priority = result.get("priority").unwrap();
    assert_eq!(*priority, nvim_oxi::Object::from(5.0f64));
}

#[test]
fn test_parse_annotations_with_last_modified() {
    let annotations = Annotations::new().last_modified("2024-01-01".to_string());
    let result = parse_annotations(annotations);

    let last_modified = result.get("lastModified").unwrap();
    assert_eq!(*last_modified, nvim_oxi::Object::from("2024-01-01"));
}

#[test]
fn test_parse_annotations_audience_and_priority() {
    let annotations = Annotations::new()
        .audience(vec![Role::User])
        .priority(3.0f64.to_bits());
    let result = parse_annotations(annotations);

    let audience = result.get("audience").unwrap();
    let expected_audience = nvim_oxi::Array::from_iter([nvim_oxi::Object::from("User")]);
    assert_eq!(*audience, nvim_oxi::Object::from(expected_audience));

    let priority = result.get("priority").unwrap();
    assert_eq!(*priority, nvim_oxi::Object::from(3.0f64));
}

#[test]
fn test_parse_annotations_all_fields() {
    let annotations = Annotations::new()
        .audience(vec![Role::User])
        .last_modified("2024-06-15".to_string())
        .priority(10.0f64.to_bits());
    let result = parse_annotations(annotations);

    let audience = result.get("audience").unwrap();
    let expected_audience = nvim_oxi::Array::from_iter([nvim_oxi::Object::from("User")]);
    assert_eq!(*audience, nvim_oxi::Object::from(expected_audience));

    let last_modified = result.get("lastModified").unwrap();
    assert_eq!(*last_modified, nvim_oxi::Object::from("2024-06-15"));

    let priority = result.get("priority").unwrap();
    assert_eq!(*priority, nvim_oxi::Object::from(10.0f64));
}

#[test]
fn test_parse_annotations_without_audience() {
    let annotations = Annotations::new()
        .last_modified("2024-01-01".to_string())
        .priority(1.0f64.to_bits());
    let result = parse_annotations(annotations);

    assert_eq!(result.get("audience").is_none(), true);

    let last_modified = result.get("lastModified").unwrap();
    assert_eq!(*last_modified, nvim_oxi::Object::from("2024-01-01"));

    let priority = result.get("priority").unwrap();
    assert_eq!(*priority, nvim_oxi::Object::from(1.0f64));
}
