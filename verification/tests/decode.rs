use magic_migrate::decode_single_string;

#[test]
fn parses_the_single_entry() {
    assert_eq!(
        decode_single_string("name = 'Richard'", "name"),
        Some(String::from("Richard"))
    );
    assert_eq!(
        decode_single_string("name = \"quoted\"", "name"),
        Some(String::from("quoted"))
    );
}

#[test]
fn rejects_a_different_key() {
    assert_eq!(decode_single_string("name = 'Richard'", "full_name"), None);
}

#[test]
fn rejects_extra_entries() {
    assert_eq!(
        decode_single_string("name = 'Richard'\nage = 42", "name"),
        None
    );
}

#[test]
fn rejects_a_non_string_value() {
    assert_eq!(decode_single_string("name = 42", "name"), None);
    assert_eq!(decode_single_string("name = [1, 2]", "name"), None);
}

#[test]
fn rejects_an_empty_document() {
    assert_eq!(decode_single_string("", "name"), None);
}

#[test]
fn rejects_a_malformed_document() {
    assert_eq!(decode_single_string("name = ", "name"), None);
    assert_eq!(decode_single_string("[[[", "name"), None);
}

#[test]
fn accepts_an_empty_string_value() {
    assert_eq!(decode_single_string("name = ''", "name"), Some(String::new()));
}
