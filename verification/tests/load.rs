use quarantine::load::{load_profile, LoadError, Resolution};
use quarantine::profile::ProfileError;

const VALID: &str = "[app]\nname = \"n\"\nidentifier = \"i\"\n[binary]\npath = \"p\"\n";

#[test]
fn search_without_a_match_is_not_found() {
    assert!(matches!(load_profile(Resolution::NotFound), Err(LoadError::NotFound)));
}

#[test]
fn unreadable_file_keeps_its_cause() {
    let cause = std::io::Error::new(std::io::ErrorKind::PermissionDenied, "denied");
    match load_profile(Resolution::Unreadable(cause)) {
        Err(LoadError::IoError(kept)) => {
            assert_eq!(kept.kind(), std::io::ErrorKind::PermissionDenied);
            assert_eq!(kept.to_string(), "denied");
        }
        other => panic!("expected an i/o error, got {:?}", other),
    }
}

#[test]
fn text_that_was_read_is_parsed() {
    let profile = load_profile(Resolution::Found(VALID.to_string())).unwrap();
    assert_eq!(profile.app.name, "n");
    assert_eq!(profile.app.identifier, "i");
    assert_eq!(profile.binary.path, "p");
}

#[test]
fn empty_field_is_an_invalid_profile() {
    let text = "[app]\nname = \"n\"\nidentifier = \"\"\n[binary]\npath = \"p\"\n";
    match load_profile(Resolution::Found(text.to_string())) {
        Err(LoadError::InvalidProfile(ProfileError::MissingField(field))) => {
            assert_eq!(field, "app.identifier")
        }
        other => panic!("expected an invalid profile, got {:?}", other),
    }
}

#[test]
fn malformed_text_is_an_invalid_profile() {
    let result = load_profile(Resolution::Found("[app\n".to_string()));
    assert!(matches!(result, Err(LoadError::InvalidProfile(ProfileError::TomlParseError(_)))));
}

#[test]
fn read_outcome_becomes_a_resolution() {
    assert!(matches!(
        Resolution::from_read(Ok(VALID.to_string())),
        Resolution::Found(text) if text == VALID
    ));
    let cause = std::io::Error::new(std::io::ErrorKind::NotFound, "gone");
    assert!(matches!(
        Resolution::from_read(Err(cause)),
        Resolution::Unreadable(kept) if kept.kind() == std::io::ErrorKind::NotFound
    ));
    assert!(load_profile(Resolution::from_read(Ok(VALID.to_string()))).is_ok());
}

#[test]
fn text_that_does_not_follow_the_schema_is_an_invalid_profile() {
    let text = "[app]\nname = \"\"\nidentifier = \"i\"\n[binary]\n";
    match load_profile(Resolution::Found(text.to_string())) {
        Err(LoadError::InvalidProfile(ProfileError::TomlParseError(error))) => {
            assert_eq!(error.message(), "missing field `binary.path`")
        }
        other => panic!("expected an invalid profile, got {:?}", other),
    }
}
