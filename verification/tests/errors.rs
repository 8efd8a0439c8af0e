use parknotes::actions::NameCheck;
use parknotes::bootstrap::ConfigError;
use parknotes::catalog::CatalogError;
use parknotes::errors::{Failure, Reaction};

#[test]
fn only_a_bad_name_is_asked_for_again() {
    assert!(!Failure::Validation(NameCheck::Empty).is_fatal());
    assert!(!Failure::Validation(NameCheck::InvalidCharacter).is_fatal());
    assert_eq!(
        Failure::Validation(NameCheck::Empty).reaction(true),
        Reaction::AskAgain
    );
    assert_eq!(
        Failure::Validation(NameCheck::InvalidCharacter).reaction(false),
        Reaction::AskAgain
    );
}

#[test]
fn every_other_failure_ends_the_session() {
    let failures = [
        Failure::Config(ConfigError::MissingRootDir),
        Failure::Config(ConfigError::UnreadableRoot),
        Failure::Catalog(CatalogError::PathError { entry: 3 }),
        Failure::Catalog(CatalogError::UnreadableEntry { entry: 0 }),
        Failure::Action,
    ];
    for failure in failures {
        assert!(failure.is_fatal());
        assert_eq!(
            failure.reaction(false),
            Reaction::Exit {
                restore_terminal: false
            }
        );
    }
}

#[test]
fn a_raw_terminal_is_restored_before_the_process_ends() {
    assert_eq!(
        Failure::Action.reaction(true),
        Reaction::Exit {
            restore_terminal: true
        }
    );
    assert_eq!(
        Failure::Catalog(CatalogError::UnreadableEntry { entry: 1 }).reaction(true),
        Reaction::Exit {
            restore_terminal: true
        }
    );
}
