use prec_templ::config::PreCommitConfig;
use prec_templ::render::indent;
use prec_templ::render::render_config;
use prec_templ::render::render_config_at;

#[test]
fn test_render_minimal_config() {
    let config = PreCommitConfig::default();
    let result = render_config(&config);
    assert!(result.is_ok());
    let yaml = result.unwrap();
    assert!(yaml.contains("repos:"));
    assert!(yaml.contains("pre-commit-hooks"));
}

#[test]
fn test_render_python_config() {
    let config = PreCommitConfig {
        python: true,
        python_base: true,
        yaml_check: true,
        ..Default::default()
    };
    let result = render_config(&config);
    assert!(result.is_ok());
    let yaml = result.unwrap();
    assert!(yaml.contains("ruff"));
    assert!(yaml.contains("check-yaml"));
}

#[test]
fn test_render_with_python_version() {
    let config = PreCommitConfig {
        python_version: Some("python3.11".to_string()),
        python: true,
        ..Default::default()
    };
    let result = render_config(&config);
    assert!(result.is_ok());
    let yaml = result.unwrap();
    assert!(yaml.contains("default_language_version:"));
    assert!(yaml.contains("python: python3.11"));
}

#[test]
fn test_indent() {
    let text = "line1\nline2\nline3";
    let indented = indent(text, 2);
    assert_eq!(indented, "  line1\n  line2\n  line3");
}

#[test]
fn test_indent_empty_lines() {
    let text = "line1\n\nline3";
    let indented = indent(text, 2);
    assert_eq!(indented, "  line1\n\n  line3");
}

#[test]
fn test_indent_zero_margin_and_empty_text() {
    assert_eq!(indent("a\nb", 0), "a\nb");
    assert_eq!(indent("", 2), "");
}

#[test]
fn test_render_default_has_no_optional_fragment() {
    // the default settings select the base fragment and nothing else
    let config = PreCommitConfig::default();
    let yaml = render_config(&config).unwrap();
    assert!(yaml.contains("trailing-whitespace"));
    assert!(yaml.contains("end-of-file-fixer"));
    assert!(!yaml.contains("ruff"));
    assert!(!yaml.contains("hadolint"));
    assert!(!yaml.contains("actionlint"));
    assert!(!yaml.contains("prettier"));
    assert!(!yaml.contains("golangci-lint"));
}

#[test]
fn test_render_ends_with_exactly_one_newline() {
    let configs = [
        PreCommitConfig::default(),
        PreCommitConfig { python: true, go: true, docker: true, ..Default::default() },
    ];
    for config in configs {
        let yaml = render_config(&config).unwrap();
        assert!(yaml.ends_with('\n'));
        assert!(!yaml.ends_with("\n\n"));
    }
}

#[test]
fn test_render_is_deterministic_for_a_fixed_clock() {
    let config = PreCommitConfig {
        python: true,
        js: true,
        typescript: true,
        yaml_check: true,
        uv_lock: true,
        ..Default::default()
    };
    let first = render_config_at(&config, "2024-01-02T03:04:05Z");
    let second = render_config_at(&config, "2024-01-02T03:04:05Z");
    assert_eq!(first, second);
}

#[test]
fn test_render_at_stamps_header_with_clock_and_technologies() {
    let config = PreCommitConfig { go: true, docker: true, ..Default::default() };
    let yaml = render_config_at(&config, "2024-01-02T03:04:05Z");
    assert!(yaml.contains("at 2024-01-02T03:04:05Z"));
    assert!(yaml.contains("# detected technologies: go, docker"));
}

#[test]
fn test_render_optional_fragments_in_fixed_order() {
    let config = PreCommitConfig {
        python: true,
        docker: true,
        github_actions: true,
        js: true,
        go: true,
        ..Default::default()
    };
    let yaml = render_config_at(&config, "2024-01-02T03:04:05Z");
    let python = yaml.find("# python hooks").unwrap();
    let docker = yaml.find("# docker hooks").unwrap();
    let actions = yaml.find("# github actions hooks").unwrap();
    let js = yaml.find("# javascript hooks").unwrap();
    let go = yaml.find("# go hooks").unwrap();
    assert!(python < docker && docker < actions && actions < js && js < go);
}

#[test]
fn test_render_python_sub_options() {
    let config = PreCommitConfig {
        python: true,
        uv_lock: true,
        pyrefly_args: Some(vec!["--strict".to_string(), "--verbose".to_string()]),
        ..Default::default()
    };
    let yaml = render_config_at(&config, "2024-01-02T03:04:05Z");
    assert!(yaml.contains("uv-lock"));
    assert!(yaml.contains("args: [--strict, --verbose]"));
}

#[test]
fn test_render_ignores_sub_options_of_disabled_categories() {
    // sub-options are preserved in the data model but a disabled parent
    // keeps its fragment out of the document
    let config = PreCommitConfig {
        python: false,
        uv_lock: true,
        go: false,
        go_critic: true,
        ..Default::default()
    };
    let yaml = render_config_at(&config, "2024-01-02T03:04:05Z");
    assert!(!yaml.contains("uv-lock"));
    assert!(!yaml.contains("go-critic"));
}

#[test]
fn test_disabled_sub_options_never_influence_the_output() {
    // two settings that differ only in sub-options of disabled categories
    // render byte-identically for the same clock reading
    let plain = PreCommitConfig::default();
    let with_suboptions = PreCommitConfig {
        uv_lock: true,
        pyrefly_args: Some(vec!["--strict".to_string()]),
        typescript: true,
        jsx: true,
        prettier_config: Some(".prettierrc".to_string()),
        eslint_config: Some(".eslintrc".to_string()),
        go_critic: true,
        dockerignore_check: true,
        security_scanning: true,
        ..Default::default()
    };
    assert_eq!(
        render_config_at(&plain, "2024-01-02T03:04:05Z"),
        render_config_at(&with_suboptions, "2024-01-02T03:04:05Z")
    );
}

#[test]
fn test_technologies_header_lists_top_level_flags_only() {
    // the sub-dialect flag contributes no name of its own
    let config = PreCommitConfig { js: true, typescript: true, ..Default::default() };
    let yaml = render_config_at(&config, "2024-01-02T03:04:05Z");
    assert!(yaml.contains("# detected technologies: javascript\n"));
}

#[test]
fn test_render_body_is_indented_two_columns() {
    let config = PreCommitConfig::default();
    let yaml = render_config_at(&config, "2024-01-02T03:04:05Z");
    assert!(yaml.contains("repos:\n  - repo: https://github.com/pre-commit/pre-commit-hooks"));
}
