use pirate_life::command::check_exit;
use pirate_life::error::ExternalToolError;

#[test]
fn exit_code_zero_is_success() {
    assert_eq!(check_exit(Some(0)), Ok(()));
}

#[test]
fn other_exit_codes_are_errors() {
    assert_eq!(check_exit(Some(1)), Err(ExternalToolError::NonZeroExit(1)));
    assert_eq!(check_exit(Some(-1)), Err(ExternalToolError::NonZeroExit(-1)));
    assert_eq!(check_exit(Some(i32::MAX)), Err(ExternalToolError::NonZeroExit(i32::MAX)));
}

#[test]
fn end_by_signal_is_an_error() {
    assert_eq!(check_exit(None), Err(ExternalToolError::Signaled));
}
