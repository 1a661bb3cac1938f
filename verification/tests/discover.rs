use prec_templ::discover::detect_docker;
use prec_templ::discover::detect_github_actions;
use prec_templ::discover::detect_go;
use prec_templ::discover::detect_javascript;
use prec_templ::discover::detect_python;
use prec_templ::discover::detect_uv_lock;
use prec_templ::discover::discover_config;
use prec_templ::discover::FileSet;
use prec_templ::discover::ProjectScan;

#[test]
fn test_detect_python() {
    let mut files = FileSet::new();
    files.insert("pyproject.toml".to_string());
    assert!(detect_python(&files));
}

#[test]
fn test_detect_python_by_extension() {
    let mut files = FileSet::new();
    files.insert(".py".to_string());
    assert!(detect_python(&files));
}

#[test]
fn test_detect_javascript() {
    let mut files = FileSet::new();
    files.insert("package.json".to_string());
    assert!(detect_javascript(&files));
}

#[test]
fn test_detect_go() {
    let mut files = FileSet::new();
    files.insert("go.mod".to_string());
    assert!(detect_go(&files));
}

#[test]
fn test_detect_docker() {
    let mut files = FileSet::new();
    files.insert("dockerfile".to_string());
    assert!(detect_docker(&files));
}

#[test]
fn test_no_false_positives() {
    let files = FileSet::new();
    assert!(!detect_python(&files));
    assert!(!detect_javascript(&files));
    assert!(!detect_go(&files));
    assert!(!detect_docker(&files));
}

#[test]
fn test_detect_uv_lock() {
    let mut files = FileSet::new();
    files.insert("uv.lock".to_string());
    assert!(detect_uv_lock(&files));
    assert!(!detect_uv_lock(&FileSet::new()));
}

#[test]
fn test_detect_github_actions_by_extension() {
    let entries = vec!["ci.yml".to_string()];
    assert!(detect_github_actions(&entries));
    let entries = vec!["release.yaml".to_string()];
    assert!(detect_github_actions(&entries));
    let entries = vec!["deploy.YML".to_string()];
    assert!(detect_github_actions(&entries));
}

#[test]
fn test_detect_github_actions_ignores_other_entries() {
    // no entries, no extension, a hidden file whose only dot leads the
    // name, and an unrelated extension
    assert!(!detect_github_actions(&Vec::new()));
    let entries = vec![
        "README".to_string(),
        ".yml".to_string(),
        "notes.txt".to_string(),
    ];
    assert!(!detect_github_actions(&entries));
}

#[test]
fn test_discover_config_go_module_only() {
    // A tree holding only a file named go.mod: the Go flag is set and
    // every other ecosystem flag stays off.
    let mut files = FileSet::new();
    files.insert("go.mod".to_string());
    let scan = ProjectScan {
        files,
        workflow_entries: Vec::new(),
        pyproject_toml: None,
        python_version_file: None,
    };
    let config = discover_config(&scan);
    assert!(config.go);
    assert!(!config.python);
    assert!(!config.js);
    assert!(!config.typescript);
    assert!(!config.jsx);
    assert!(!config.docker);
    assert!(!config.github_actions);
    assert!(config.python_version.is_none());
}

#[test]
fn test_discover_config_no_indicators_safety_flags() {
    // A tree with no matching indicators: every ecosystem flag is off,
    // the unconditional safety flags are on.
    let mut files = FileSet::new();
    files.insert("readme.md".to_string());
    files.insert(".md".to_string());
    let scan = ProjectScan {
        files,
        workflow_entries: Vec::new(),
        pyproject_toml: None,
        python_version_file: None,
    };
    let config = discover_config(&scan);
    assert!(!config.python);
    assert!(!config.js);
    assert!(!config.go);
    assert!(!config.docker);
    assert!(!config.github_actions);
    assert!(!config.yaml_check);
    assert!(!config.json_check);
    assert!(!config.toml_check);
    assert!(!config.xml_check);
    assert!(config.case_conflict);
    assert!(config.executables);
    assert!(!config.symlinks);
}

#[test]
fn test_discover_config_python_with_version() {
    let mut files = FileSet::new();
    files.insert("pyproject.toml".to_string());
    files.insert(".toml".to_string());
    let scan = ProjectScan {
        files,
        workflow_entries: vec!["ci.yml".to_string()],
        pyproject_toml: Some("[project]\nrequires-python = \">=3.11,<4\"".to_string()),
        python_version_file: None,
    };
    let config = discover_config(&scan);
    assert!(config.python);
    assert!(config.python_base);
    assert!(config.toml_check);
    assert!(config.github_actions);
    assert_eq!(config.python_version, Some("python3.11".to_string()));
}

#[test]
fn test_discover_config_version_probe_gated_on_python() {
    // The version probe only runs when Python was detected.
    let scan = ProjectScan {
        files: FileSet::new(),
        workflow_entries: Vec::new(),
        pyproject_toml: None,
        python_version_file: Some("3.12.1\n".to_string()),
    };
    let config = discover_config(&scan);
    assert!(!config.python);
    assert!(config.python_version.is_none());
}
