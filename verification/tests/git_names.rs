use pawl::error::PawlError;
use pawl::util::git::{branch_exists_command, branch_name_verdict, rejected_by_git, validate_branch_name};

#[test]
fn test_validate_branch_name() {
    assert!(validate_branch_name("auth").is_ok());
    assert!(validate_branch_name("user-auth").is_ok());
    assert!(validate_branch_name("feature_123").is_ok());

    assert!(validate_branch_name("").is_err());
    assert!(validate_branch_name("-invalid").is_err());
    assert!(validate_branch_name(".invalid").is_err());
    assert!(validate_branch_name("name.lock").is_err());
    assert!(validate_branch_name("with space").is_err());
    assert!(validate_branch_name("with..dots").is_err());
}

fn message(r: Result<String, PawlError>) -> String {
    match r {
        Err(PawlError::Validation { message }) => message,
        other => panic!("expected a validation error, got {:?}", other),
    }
}

#[test]
fn branch_name_messages() {
    assert_eq!(message(validate_branch_name("")), "Task name cannot be empty");
    assert_eq!(message(validate_branch_name("a b")), "Task name cannot contain ' '");
    assert_eq!(message(validate_branch_name("a~b")), "Task name cannot contain '~'");
    // The first forbidden character in the checked order is reported.
    assert_eq!(message(validate_branch_name("a\\b:c")), "Task name cannot contain ':'");
    assert_eq!(message(validate_branch_name("-x")), "Task name cannot start with '-'");
    assert_eq!(message(validate_branch_name(".x")), "Task name cannot start with '.'");
    assert_eq!(message(validate_branch_name("x.lock")), "Task name cannot end with '.lock'");
    assert_eq!(message(validate_branch_name("a..b")), "Task name cannot contain '..'");
}

#[test]
fn valid_name_asks_git() {
    assert_eq!(
        validate_branch_name("auth").unwrap(),
        "git check-ref-format 'refs/heads/pawl/auth'"
    );
    assert_eq!(
        rejected_by_git("x"),
        PawlError::Validation { message: "'x' is not a valid git branch name".to_string() }
    );
    assert_eq!(branch_exists_command("pawl/a"), "git rev-parse --verify refs/heads/pawl/a");
}

#[test]
fn git_has_the_last_word_on_names_the_rules_allow() {
    assert!(branch_name_verdict("auth", true).is_ok());
    match branch_name_verdict("auth", false) {
        Err(PawlError::Validation { message }) => assert_eq!(message, "'auth' is not a valid git branch name"),
        other => panic!("unexpected {:?}", other),
    }
    match branch_name_verdict("a..b", true) {
        Err(PawlError::Validation { message }) => assert_eq!(message, "Task name cannot contain '..'"),
        other => panic!("unexpected {:?}", other),
    }
}
