use magic_migrate::MagicError;
use magic_migrate::MigrateError;

#[test]
fn test_into_magic_migrate_error() {
    let message = format!("Ohno: {0}", "An error");
    let error: MagicError = message.into();
    assert_eq!(error.message(), "Ohno: An error");
}

#[test]
fn magic_error_round_trips_its_message() {
    let error = MagicError::new(String::from("the converter rejected the record"));
    assert_eq!(error.message(), "the converter rejected the record");
    assert_eq!(error.into_message(), "the converter rejected the record");
}

#[test]
fn migrate_error_is_the_default_error_name() {
    let error: MigrateError = String::from("boom").into();
    assert_eq!(error.message(), "boom");
}
