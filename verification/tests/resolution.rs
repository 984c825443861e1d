use magic_migrate::AmbiguousChain;
use magic_migrate::Metadata;
use magic_migrate::MetadataChain;
use magic_migrate::MetadataError;
use magic_migrate::Migrate;
use magic_migrate::Note;
use magic_migrate::NoteChain;
use magic_migrate::Person;
use magic_migrate::PersonChain;
use magic_migrate::Provenance;
use magic_migrate::TryMigrate;
use magic_migrate::resolve_fallible;
use magic_migrate::resolve_infallible;

#[test]
fn single_version_chain_resolves_its_own_shape() {
    let resolved = resolve_infallible(&NoteChain, 0, "text = 'call Richard'");
    assert_eq!(
        resolved,
        Some(Note {
            text: String::from("call Richard")
        })
    );
}

#[test]
fn single_version_chain_rejects_foreign_input() {
    assert_eq!(resolve_infallible(&NoteChain, 0, "name = 'Richard'"), None);
    assert_eq!(resolve_infallible(&NoteChain, 0, "not a toml document ["), None);
}

#[test]
fn root_input_resolves_at_the_root() {
    let resolved = resolve_infallible(&PersonChain, 0, "name = 'Richard'");
    assert_eq!(
        resolved,
        Some(Person::V1 {
            name: String::from("Richard")
        })
    );
    assert_eq!(resolve_infallible(&PersonChain, 0, "full_name = 'Richard'"), None);
}

#[test]
fn old_input_migrates_forward() {
    // The target's decoder rejects the old shape...
    assert_eq!(Migrate::decode(&PersonChain, 1, "name = 'Schneems'"), None);
    // ...so resolution decodes it as version 0 and applies the converter.
    let resolved = resolve_infallible(&PersonChain, 1, "name = 'Schneems'");
    let decoded_as_v1 = Migrate::decode(&PersonChain, 0, "name = 'Schneems'").unwrap();
    assert_eq!(resolved, Some(Migrate::convert(&PersonChain, 1, decoded_as_v1)));
    assert_eq!(
        resolve_infallible(&PersonChain, 1, "name = 'Schneems'"),
        Some(Person::V2 {
            full_name: String::from("Schneems")
        })
    );
}

#[test]
fn direct_decode_takes_priority() {
    // Both versions of the ambiguous chain accept this input; the target's
    // own decoder wins and no conversion is applied.
    let resolved = resolve_infallible(&AmbiguousChain, 1, "name = 'Cinco'");
    assert_eq!(
        resolved,
        Some(Provenance::DecodedAsV2 {
            name: String::from("Cinco")
        })
    );
}

#[test]
fn direct_decode_short_circuits_conversion() {
    // The same priority holds under the fallible algorithm (the infallible
    // chain runs under it through the blanket implementation): the decoded
    // value comes back as-is, never the converted one.
    let resolved = resolve_fallible(&AmbiguousChain, 1, "name = 'Cinco'");
    assert_eq!(
        resolved,
        Some(Ok(Provenance::DecodedAsV2 {
            name: String::from("Cinco")
        }))
    );
}

#[test]
fn failing_conversion_surfaces_an_error() {
    // Decodable only as version 0, and the converter rejects the empty name:
    // an error, not `None` and not a success.
    let resolved = resolve_fallible(&MetadataChain, 1, "name = ''");
    assert_eq!(
        resolved,
        Some(Err(MetadataError {
            raised_at: 1,
            observed_at: 1
        }))
    );
}

#[test]
fn unrelated_input_resolves_to_nothing() {
    assert_eq!(resolve_infallible(&PersonChain, 1, "age = 42"), None);
    assert_eq!(resolve_fallible(&PersonChain, 1, "age = 42"), None);
    assert_eq!(resolve_fallible(&MetadataChain, 2, "age = 42"), None);
    assert_eq!(resolve_fallible(&MetadataChain, 2, "]] broken"), None);
}

#[test]
fn error_widens_across_three_links() {
    // The failure happens at the step up to version 1, but it is observed at
    // version 2's error type: widening moved it up one link.
    let resolved = resolve_fallible(&MetadataChain, 2, "name = ''");
    assert_eq!(
        resolved,
        Some(Err(MetadataError {
            raised_at: 1,
            observed_at: 2
        }))
    );
}

#[test]
fn three_links_migrate_to_the_target() {
    assert_eq!(
        resolve_fallible(&MetadataChain, 2, "name = 'Richard'"),
        Some(Ok(Metadata::V3 {
            display_name: String::from("Richard")
        }))
    );
    assert_eq!(
        resolve_fallible(&MetadataChain, 2, "full_name = 'Richard'"),
        Some(Ok(Metadata::V3 {
            display_name: String::from("Richard")
        }))
    );
    assert_eq!(
        resolve_fallible(&MetadataChain, 2, "display_name = 'Richard'"),
        Some(Ok(Metadata::V3 {
            display_name: String::from("Richard")
        }))
    );
}

#[test]
fn infallible_chain_runs_under_the_fallible_algorithm() {
    let resolved = resolve_fallible(&PersonChain, 1, "name = 'Richard'");
    assert_eq!(
        resolved,
        Some(Ok(Person::V2 {
            full_name: String::from("Richard")
        }))
    );
}

#[test]
fn serialized_table_round_trips_through_the_chain() {
    // Serialize a version-0 document with the toml crate itself, then resolve
    // it at the newest version.
    let mut table = toml::Table::new();
    table.insert(
        String::from("name"),
        toml::Value::String(String::from("Schneems")),
    );
    let input = toml::to_string(&table).unwrap();
    assert_eq!(
        resolve_infallible(&PersonChain, 1, &input),
        Some(Person::V2 {
            full_name: String::from("Schneems")
        })
    );
}

#[test]
fn chain_shape_is_observable() {
    assert_eq!(Migrate::num_versions(&PersonChain), 2);
    assert!(Migrate::is_root(&PersonChain, 0));
    assert!(!Migrate::is_root(&PersonChain, 1));
    assert_eq!(Migrate::predecessor_of(&PersonChain, 1), 0);
    assert_eq!(Migrate::predecessor_of(&PersonChain, 0), 0);
    assert_eq!(TryMigrate::num_versions(&MetadataChain), 3);
    assert_eq!(TryMigrate::predecessor_of(&MetadataChain, 2), 1);
    assert!(TryMigrate::is_root(&MetadataChain, 0));
}

#[test]
fn widening_tags_the_observing_version() {
    let error = MetadataError {
        raised_at: 1,
        observed_at: 1,
    };
    let widened = MetadataChain.widen(2, error);
    assert_eq!(
        widened,
        MetadataError {
            raised_at: 1,
            observed_at: 2
        }
    );
}
