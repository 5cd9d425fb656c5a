use dusty::hints::urgency_of;
use dusty::HintValue;

#[test]
fn urgency_byte_is_found() {
    let hints = vec![("urgency".to_string(), HintValue::Byte(2))];
    assert_eq!(urgency_of(&hints), Some(2));
}

#[test]
fn urgency_of_wrong_shape_is_ignored() {
    let hints = vec![("urgency".to_string(), HintValue::Integer(2))];
    assert_eq!(urgency_of(&hints), None);
}

#[test]
fn urgency_absent_when_no_hints() {
    let hints: Vec<(String, HintValue)> = Vec::new();
    assert_eq!(urgency_of(&hints), None);
}

#[test]
fn urgency_found_among_other_keys() {
    let hints = vec![
        ("sound-name".to_string(), HintValue::Text("bell".to_string())),
        ("transient".to_string(), HintValue::Boolean(true)),
        ("urgency".to_string(), HintValue::Byte(1)),
    ];
    assert_eq!(urgency_of(&hints), Some(1));
}

#[test]
fn other_keys_alone_yield_no_urgency() {
    let hints = vec![
        ("sound-name".to_string(), HintValue::Byte(3)),
        ("x".to_string(), HintValue::Unsupported),
    ];
    assert_eq!(urgency_of(&hints), None);
}
