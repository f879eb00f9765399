use proto_ui::registry::{register, InputKind, RegistrationError, SchematicRegistry, TypeKey};

#[test]
fn register_records_every_ui_type() {
    let mut reg = SchematicRegistry::new();
    assert_eq!(register(&mut reg), Ok(()));
    assert_eq!(reg.len(), 23);
    assert!(reg.contains(TypeKey::Style));
    assert!(reg.contains(TypeKey::UiImage));
    assert!(reg.contains(TypeKey::ValInput));
    assert!(!reg.contains(TypeKey::ZIndex));
    assert!(!reg.contains(TypeKey::BorderColor));
}

#[test]
fn registering_twice_is_rejected() {
    let mut reg = SchematicRegistry::new();
    assert_eq!(register(&mut reg), Ok(()));
    assert_eq!(register(&mut reg), Err(RegistrationError::Duplicate(TypeKey::BackgroundColor)));
    assert_eq!(reg.len(), 23);
}

#[test]
fn register_key_refuses_duplicate() {
    let mut reg = SchematicRegistry::new();
    assert_eq!(reg.register_key(TypeKey::ZIndex), Ok(()));
    assert_eq!(reg.register_key(TypeKey::ZIndex), Err(RegistrationError::Duplicate(TypeKey::ZIndex)));
    assert_eq!(reg.len(), 1);
}

#[test]
fn register_stops_at_prior_registration() {
    let mut reg = SchematicRegistry::new();
    assert_eq!(reg.register_key(TypeKey::Style), Ok(()));
    assert_eq!(register(&mut reg), Err(RegistrationError::Duplicate(TypeKey::Style)));
}

#[test]
fn lookup_gives_metadata_only_once_registered() {
    let mut reg = SchematicRegistry::new();
    assert_eq!(reg.lookup(TypeKey::ContentSize), None);
    assert_eq!(register(&mut reg), Ok(()));
    let e = reg.lookup(TypeKey::ContentSize).unwrap();
    assert_eq!(e.key, TypeKey::ContentSize);
    assert_eq!(e.kind, InputKind::Struct);
    assert_eq!(e.names, vec!["size", "preserve_aspect_ratio"]);
    let v = reg.lookup(TypeKey::ValInput).unwrap();
    assert_eq!(v.kind, InputKind::Enum);
    assert_eq!(v.names, vec!["Undefined", "Auto", "Px", "Percent"]);
    assert_eq!(reg.lookup(TypeKey::ZIndex), None);
}

#[test]
fn input_metadata_of_each_shape() {
    assert_eq!(TypeKey::Button.input_kind(), InputKind::Unit);
    assert!(TypeKey::Button.input_names().is_empty());
    assert_eq!(TypeKey::BackgroundColor.input_kind(), InputKind::Tuple);
    assert_eq!(TypeKey::BackgroundColor.input_names(), vec!["0"]);
    let style = TypeKey::Style.input_names();
    assert_eq!(style.len(), 38);
    assert_eq!(style[0], "display");
    assert_eq!(style[37], "grid_column");
    assert_eq!(TypeKey::UiImage.input_names(), vec!["texture", "flip_x", "flip_y"]);
}
