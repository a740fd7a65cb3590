use validators::{
    is_array, is_boolean, is_date, is_empty, is_function, is_number, is_object, is_string,
    Dynamic,
};

#[test]
fn empty_only_when_absent() {
    assert!(is_empty::<String>(None));
    assert!(!is_empty(Some(String::new())));
    assert!(!is_empty(Some(Vec::<u8>::new())));
    assert!(!is_empty(Some(0)));
}

#[test]
fn numbers() {
    assert!(is_number(&Dynamic::Int(-3)));
    assert!(is_number(&Dynamic::Float(1.5f64.to_bits())));
    assert!(!is_number(&Dynamic::Text("3".to_string())));
    assert!(!is_number(&Dynamic::Bool(true)));
}

#[test]
fn strings() {
    assert!(is_string(&Dynamic::Text(String::new())));
    assert!(!is_string(&Dynamic::Int(0)));
    assert!(!is_string(&Dynamic::Absent));
}

#[test]
fn arrays_and_objects() {
    let list = Dynamic::Array(vec![Dynamic::Int(1), Dynamic::Absent]);
    let map = Dynamic::Object(vec![("a".to_string(), Dynamic::Int(1))]);
    assert!(is_array(&list));
    assert!(is_array(&Dynamic::Array(Vec::new())));
    assert!(!is_array(&map));
    assert!(is_object(&map));
    assert!(is_object(&Dynamic::Object(Vec::new())));
    assert!(!is_object(&list));
}

#[test]
fn functions_booleans_dates() {
    assert!(is_function(&Dynamic::Function));
    assert!(!is_function(&Dynamic::Text("f".to_string())));
    assert!(is_boolean(&Dynamic::Bool(false)));
    assert!(!is_boolean(&Dynamic::Int(1)));
    assert!(is_date(&Dynamic::Date(1_700_000_000_000)));
    assert!(!is_date(&Dynamic::Int(1_700_000_000_000)));
}
