use prec_templ::config::PreCommitConfig;

#[test]
fn test_default_config() {
    let config = PreCommitConfig::default();
    assert!(!config.python);
    assert!(!config.js);
    assert!(config.dockerfile_linting); // Should default to true
    assert!(config.workflow_validation); // Should default to true
}

#[test]
fn test_validate_python_version_valid() {
    let config = PreCommitConfig { python_version: Some("python3.11".to_string()), ..Default::default() };
    assert!(config.validate().is_ok());
}

#[test]
fn test_validate_python_version_invalid() {
    let config = PreCommitConfig { python_version: Some("3.11".to_string()), ..Default::default() };
    assert!(config.validate().is_err());
}

#[test]
fn test_validate_error_message_names_the_version() {
    let config = PreCommitConfig { python_version: Some("3.11".to_string()), ..Default::default() };
    let message = config.validate().unwrap_err();
    assert_eq!(
        message,
        "Python version must match 'python<major>.<minor>[.<patch>]' (e.g., python3.11), got: 3.11"
    );
}

#[test]
fn test_validate_demands_dotted_numeric_version() {
    let ok = ["python3.11", "python3.10.5", "python10.20"];
    for v in ok {
        let config =
            PreCommitConfig { python_version: Some(v.to_string()), ..Default::default() };
        assert!(config.validate().is_ok(), "{v} should validate");
    }
    let bad = ["pythonabc", "python3", "python3.", "python3.11.2.4", "python3.x", "python"];
    for v in bad {
        let config =
            PreCommitConfig { python_version: Some(v.to_string()), ..Default::default() };
        assert!(config.validate().is_err(), "{v} should be rejected");
    }
}

#[test]
fn test_validate_accepts_missing_version() {
    let config = PreCommitConfig::new();
    assert!(config.validate().is_ok());
}

#[test]
fn test_detected_technologies() {
    let config = PreCommitConfig { python: true, js: true, docker: true, ..Default::default() };
    let techs = config.detected_technologies();
    assert!(techs.contains(&"python"));
    assert!(techs.contains(&"javascript"));
    assert!(techs.contains(&"docker"));
}

#[test]
fn test_detected_technologies_order_and_absence() {
    let config = PreCommitConfig {
        python: true,
        go: true,
        github_actions: true,
        ..Default::default()
    };
    let techs = config.detected_technologies();
    assert_eq!(techs, vec!["python", "go", "github-actions"]);

    let empty = PreCommitConfig::default().detected_technologies();
    assert!(empty.is_empty());
}
