use pipeman::errors::Exception;
use pipeman::remote::{exec_outcome, long_command_outcome, parse_nics};

#[test]
fn exec_outcome_success_returns_output() {
    let r = exec_outcome("ls", "a\nb\n".to_string(), 0, "");
    assert_eq!(r.unwrap(), "a\nb\n");
}

#[test]
fn exec_outcome_failure_embeds_command_and_trimmed_stderr() {
    let r = exec_outcome("ls /nope", String::new(), 2, " no such file \n");
    match r {
        Err(Exception::Error(m)) => assert_eq!(m, "exec 'ls /nope' failed\n no such file"),
        _ => panic!("expected a textual failure"),
    }
}

#[test]
fn long_command_outcome_cases() {
    assert!(long_command_outcome("run", 0, false, "").is_ok());
    // when the loop already drained stderr, a non-zero exit is not re-captured
    assert!(long_command_outcome("run", 1, true, "detail").is_ok());
    match long_command_outcome("run", 1, false, " detail ") {
        Err(Exception::Error(m)) => assert_eq!(m, "exec 'run' failed\n detail"),
        _ => panic!("expected a textual failure"),
    }
}

#[test]
fn nics_two_or_more_returns_first_two_in_order() {
    let (a, b) = parse_nics("ens3\nens4\n");
    assert_eq!(a, "ens3");
    assert_eq!(b, "ens4");
    let (a, b) = parse_nics("ens3\nens4\nens5\n");
    assert_eq!(a, "ens3");
    assert_eq!(b, "ens4");
}

#[test]
fn nics_single_name_returned_twice() {
    let (a, b) = parse_nics("ens3\n");
    assert_eq!(a, "ens3");
    assert_eq!(b, "ens3");
    let (a, b) = parse_nics("  ens3  ");
    assert_eq!(a, "ens3");
    assert_eq!(b, "ens3");
}

#[test]
fn exception_messages() {
    assert_eq!(Exception::RequestException("t".into()).message(), "t");
    assert_eq!(Exception::SerdeException("s".into()).message(), "s");
    assert_eq!(Exception::AuthenticationException.message(), "authentication error");
    assert_eq!(Exception::SSHException("x".into()).message(), "x");
    assert_eq!(Exception::IOException("io".into()).message(), "io");
    assert_eq!(Exception::FromUtf8Exception("u".into()).message(), "u");
    assert_eq!(Exception::IniException("i".into()).message(), "i");
    assert_eq!(Exception::Error("e".into()).message(), "e");
}
