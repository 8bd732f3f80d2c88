use nvim_switcher::errors::VmError;
use nvim_switcher::probe::{current, parse_version, ProbeInput};

#[test]
fn version_is_second_field_of_first_line() {
    let out = "NVIM v0.11.0-dev\nBuild type: RelWithDebInfo\nLuaJIT 2.1\n";
    assert_eq!(parse_version(out).as_deref(), Some("v0.11.0-dev"));
}

#[test]
fn leading_whitespace_and_extra_fields_are_tolerated() {
    assert_eq!(parse_version("  NVIM\t v1.2.3  extra"), Some(String::from("v1.2.3")));
}

#[test]
fn second_line_tokens_do_not_count() {
    assert_eq!(parse_version("NVIM\nv0.10.0 more"), None);
}

#[test]
fn unparsable_output_yields_nothing() {
    assert_eq!(parse_version(""), None);
    assert_eq!(parse_version("NVIM"), None);
    assert_eq!(parse_version("   \t  \n"), None);
}

#[test]
fn missing_executable_is_the_sentinel_not_an_error() {
    let r = current(ProbeInput::NoExecutable);
    assert_eq!(r.unwrap(), "None");
}

#[test]
fn probe_output_is_parsed() {
    let r = current(ProbeInput::Output(String::from("NVIM v0.10.0\n")));
    assert_eq!(r.unwrap(), "v0.10.0");
}

#[test]
fn probe_failure_is_an_error() {
    let r = current(ProbeInput::Failed);
    assert!(matches!(r, Err(VmError::ProbeFailed)));
    let r = current(ProbeInput::Output(String::from("garbage")));
    assert_eq!(r.unwrap_err().message(), "Failed to get version");
}
