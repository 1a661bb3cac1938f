use prec_templ::version::detect_python_version;
use prec_templ::version::extract_version_token;

#[test]
fn test_detect_python_version_from_pyproject() {
    assert_eq!(
        detect_python_version(Some("[project]\nrequires-python = \">=3.11,<4\""), None),
        Some("python3.11".to_string())
    );
}

#[test]
fn test_detect_python_version_patch_version() {
    assert_eq!(
        detect_python_version(Some("[project]\nrequires-python = \">=3.10.5\""), None),
        Some("python3.10.5".to_string())
    );
}

#[test]
fn test_detect_python_version_from_python_version_file() {
    assert_eq!(
        detect_python_version(None, Some("3.12.1\n")),
        Some("python3.12.1".to_string())
    );
}

#[test]
fn test_pin_file_already_prefixed() {
    assert_eq!(
        detect_python_version(None, Some("python3.9\n")),
        Some("python3.9".to_string())
    );
}

#[test]
fn test_pin_file_unicode_whitespace_is_trimmed() {
    // non-breaking spaces count as whitespace, as the standard trimming
    // defines it
    assert_eq!(
        detect_python_version(None, Some("\u{a0}3.9\u{a0}\n")),
        Some("python3.9".to_string())
    );
}

#[test]
fn test_blank_pin_file_yields_nothing() {
    assert_eq!(detect_python_version(None, Some("  \n")), None);
    assert_eq!(detect_python_version(None, None), None);
}

#[test]
fn test_descriptor_without_field_falls_back_to_pin() {
    // parses, but holds no requirement field: the pin file decides
    assert_eq!(
        detect_python_version(Some("[tool]\nname = \"x\""), Some("3.8")),
        Some("python3.8".to_string())
    );
    // does not parse at all: the pin file decides
    assert_eq!(
        detect_python_version(Some("not toml at ["), Some("3.8")),
        Some("python3.8".to_string())
    );
}

#[test]
fn test_only_the_requirement_field_is_read() {
    // a dotted token elsewhere in the document is not a version
    // requirement: without the field, nothing is inferred
    assert_eq!(
        detect_python_version(Some("[tool]\nblack = \"24.1.0\""), None),
        None
    );
    // and with the field present, other versioned fields do not win
    assert_eq!(
        detect_python_version(
            Some("[project]\nversion = \"9.9\"\nrequires-python = \">=3.11\""),
            None
        ),
        Some("python3.11".to_string())
    );
}

#[test]
fn test_requirement_without_token_yields_nothing() {
    // the field is present but holds no dotted pair, and no pin file exists
    assert_eq!(
        detect_python_version(Some("[project]\nrequires-python = \">=3\""), None),
        None
    );
}

#[test]
fn test_extract_version_token_takes_leftmost_greedy() {
    assert_eq!(extract_version_token(">=3.11,<4"), Some("3.11"));
    assert_eq!(extract_version_token("10.20.30.40"), Some("10.20.30"));
    assert_eq!(extract_version_token("a1.2b"), Some("1.2"));
    assert_eq!(extract_version_token("1..2"), None);
    assert_eq!(extract_version_token(""), None);
    assert_eq!(extract_version_token("no digits"), None);
}
