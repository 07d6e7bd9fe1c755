use searchb::cli::{resolve_args, ArgError};
use searchb::report::Outcome;

#[test]
fn both_filenames_pass_through() {
    let r = resolve_args(Some("q.bin".to_string()), Some("t.bin".to_string()));
    assert_eq!(r, Ok(("q.bin".to_string(), "t.bin".to_string())));
}

#[test]
fn no_arguments_means_the_query_filename_is_missing() {
    assert_eq!(resolve_args(None, None), Err(ArgError::MissingQueryFilename));
}

#[test]
fn one_argument_means_the_target_filename_is_missing() {
    assert_eq!(
        resolve_args(Some("q.bin".to_string()), None),
        Err(ArgError::MissingTargetFilename)
    );
}

#[test]
fn missing_filename_messages() {
    assert_eq!(
        ArgError::MissingQueryFilename.message(),
        "query filename missing".to_string()
    );
    assert_eq!(
        ArgError::MissingTargetFilename.message(),
        "target filename missing".to_string()
    );
}

#[test]
fn one_argument_yields_the_target_missing_diagnostic_and_exit_one() {
    let e = resolve_args(Some("q.bin".to_string()), None).unwrap_err();
    let outcome = Outcome::Failed(e.message());
    assert_eq!(outcome.exit_code(), 1);
    assert_eq!(outcome.stdout_line(), None);
    assert_eq!(
        outcome.stderr_line(),
        Some("error: target filename missing".to_string())
    );
}

#[test]
fn no_arguments_yield_the_query_missing_diagnostic_and_exit_one() {
    let e = resolve_args(None, None).unwrap_err();
    let outcome = Outcome::Failed(e.message());
    assert_eq!(outcome.exit_code(), 1);
    assert_eq!(
        outcome.stderr_line(),
        Some("error: query filename missing".to_string())
    );
}
