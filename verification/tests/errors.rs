use system_text::error::{compile_result, link_result, CompileError, Error, LinkError};

#[test]
fn compile_error_carries_its_message() {
    let e = CompileError::new(String::from("0:1(2): error: syntax error"));
    assert_eq!(e.message().as_str(), "0:1(2): error: syntax error");
}

#[test]
fn link_error_carries_its_message() {
    let e = LinkError::new(String::from("error: unresolved varying"));
    assert_eq!(e.message().as_str(), "error: unresolved varying");
}

#[test]
fn error_reports_the_diagnostic_of_either_stage() {
    let c = Error::from(CompileError::new(String::from("bad shader")));
    assert!(matches!(c, Error::Compile(_)));
    assert_eq!(c.message().as_str(), "bad shader");

    let l = Error::from(LinkError::new(String::from("bad program")));
    assert!(matches!(l, Error::Link(_)));
    assert_eq!(l.message().as_str(), "bad program");
}

#[test]
fn successful_compile_returns_the_shader_handle() {
    assert_eq!(compile_result(17, true, String::new()), Ok(17));
}

#[test]
fn failed_compile_yields_a_compile_error_with_the_log() {
    // An intentionally broken shader is reported by the driver with a false
    // status and a non-empty info log; the outcome must carry that log.
    let log = String::from("0:3(1): error: `gl_Positionn` undeclared");
    match compile_result(17, false, log.clone()) {
        Ok(_) => panic!("a failed compile must not yield a handle"),
        Err(e) => {
            assert_eq!(e.message(), &log);
            assert!(!e.message().is_empty());
        }
    }
}

#[test]
fn successful_link_returns_the_program_handle() {
    assert_eq!(link_result(3, true, String::new()), Ok(3));
}

#[test]
fn failed_link_yields_a_link_error_with_the_log() {
    let log = String::from("error: vertex and fragment stages do not agree");
    match link_result(3, false, log.clone()) {
        Ok(_) => panic!("a failed link must not yield a handle"),
        Err(e) => {
            assert_eq!(e.message(), &log);
            assert!(!e.message().is_empty());
        }
    }
}
