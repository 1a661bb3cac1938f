//! The settings record that controls which pre-commit hooks are generated.
//!
//! A value is produced by the detection functions in `discover`, may be
//! edited by a caller, and is finally consumed by `render`.

use crate::text::{spec_starts_with, starts_with_prefix};
use crate::version::{is_dotted_version, matches_version_pattern};
use vstd::prelude::*;
use vstd::string::*;

verus! {

/// Configuration for pre-commit hook generation.
#[derive(Debug, Clone)]
pub struct PreCommitConfig {
    /// Python version for default_language_version (e.g., "python3.11").
    pub python_version: Option<String>,
    // Base hooks options
    pub yaml_check: bool,
    pub json_check: bool,
    pub toml_check: bool,
    pub xml_check: bool,
    pub case_conflict: bool,
    pub executables: bool,
    pub symlinks: bool,
    pub python_base: bool,
    // Python hooks options
    pub python: bool,
    pub uv_lock: bool,
    pub pyrefly_args: Option<Vec<String>>,
    // Docker hooks options
    pub docker: bool,
    pub dockerfile_linting: bool,
    pub dockerignore_check: bool,
    // GitHub Actions hooks options
    pub github_actions: bool,
    pub workflow_validation: bool,
    pub security_scanning: bool,
    // JavaScript hooks options
    pub js: bool,
    pub typescript: bool,
    pub jsx: bool,
    pub prettier_config: Option<String>,
    pub eslint_config: Option<String>,
    // Go hooks options
    pub go: bool,
    pub go_critic: bool,
}

/// The default configuration: everything off except the two sub-options
/// that stay enabled even when their parent category is off.
pub open spec fn spec_default_config() -> PreCommitConfig {
    PreCommitConfig {
        python_version: None,
        yaml_check: false,
        json_check: false,
        toml_check: false,
        xml_check: false,
        case_conflict: false,
        executables: false,
        symlinks: false,
        python_base: false,
        python: false,
        uv_lock: false,
        pyrefly_args: None,
        docker: false,
        dockerfile_linting: true,
        dockerignore_check: false,
        github_actions: false,
        workflow_validation: true,
        security_scanning: false,
        js: false,
        typescript: false,
        jsx: false,
        prettier_config: None,
        eslint_config: None,
        go: false,
        go_critic: false,
    }
}

/// The version string, when present, carries the `python` prefix followed
/// by exactly one dotted numeric token of two or three components.
pub open spec fn valid_python_version(c: PreCommitConfig) -> bool {
    match c.python_version {
        Some(v) => spec_starts_with(v@, "python"@) && is_dotted_version(
            v@.skip("python"@.len() as int),
        ),
        None => true,
    }
}

/// The human-readable names of the enabled top-level ecosystem flags, in
/// the fixed display order. Sub-dialect flags such as the TypeScript one
/// contribute no name: they are sub-options, meaningful only inside their
/// category's fragment.
pub open spec fn spec_technologies(c: PreCommitConfig) -> Seq<Seq<char>> {
    (if c.python {
        seq!["python"@]
    } else {
        Seq::<Seq<char>>::empty()
    }) + (if c.js {
        seq!["javascript"@]
    } else {
        Seq::<Seq<char>>::empty()
    }) + (if c.go {
        seq!["go"@]
    } else {
        Seq::<Seq<char>>::empty()
    }) + (if c.docker {
        seq!["docker"@]
    } else {
        Seq::<Seq<char>>::empty()
    }) + (if c.github_actions {
        seq!["github-actions"@]
    } else {
        Seq::<Seq<char>>::empty()
    })
}

impl Default for PreCommitConfig {
    /// The default configuration.
    fn default() -> (c: PreCommitConfig)
        ensures
            c == spec_default_config(),
    {
        PreCommitConfig {
            python_version: None,
            yaml_check: false,
            json_check: false,
            toml_check: false,
            xml_check: false,
            case_conflict: false,
            executables: false,
            symlinks: false,
            python_base: false,
            python: false,
            uv_lock: false,
            pyrefly_args: None,
            docker: false,
            dockerfile_linting: true,
            dockerignore_check: false,
            github_actions: false,
            workflow_validation: true,
            security_scanning: false,
            js: false,
            typescript: false,
            jsx: false,
            prettier_config: None,
            eslint_config: None,
            go: false,
            go_critic: false,
        }
    }
}

impl PreCommitConfig {
    /// Create a new empty configuration.
    pub fn new() -> (c: PreCommitConfig)
        ensures
            c == spec_default_config(),
    {
        Self::default()
    }

    /// Validate the configuration: the version string, when present, must
    /// carry the `python` prefix followed by a dotted numeric version of
    /// two or three components. Returns a descriptive message otherwise.
    pub fn validate(&self) -> (r: Result<(), String>)
        ensures
            r is Ok <==> valid_python_version(*self),
            r matches Err(m) ==> (self.python_version matches Some(v) && m@
                == "Python version must match 'python<major>.<minor>[.<patch>]' (e.g., python3.11), got: "@
                + v@),
    {
        match &self.python_version {
            Some(version) => {
                let well_formed = if starts_with_prefix(version.as_str(), "python") {
                    let n = version.as_str().unicode_len();
                    let plen = "python".unicode_len();
                    let rest = version.as_str().substring_char(plen, n);
                    proof {
                        assert(rest@ =~= version@.skip("python"@.len() as int));
                    }
                    matches_version_pattern(rest)
                } else {
                    false
                };
                if well_formed {
                    Ok(())
                } else {
                    let mut m = String::new();
                    m.append(
                        "Python version must match 'python<major>.<minor>[.<patch>]' (e.g., python3.11), got: ",
                    );
                    m.append(version.as_str());
                    Err(m)
                }
            },
            None => Ok(()),
        }
    }

    /// Get list of detected technologies for display: one name per enabled
    /// top-level ecosystem flag, in the fixed display order.
    pub fn detected_technologies(&self) -> (techs: Vec<&'static str>)
        ensures
            techs@.map_values(|t: &'static str| t@) == spec_technologies(*self),
    {
        let mut techs: Vec<&'static str> = Vec::new();
        if self.python {
            techs.push("python");
        }
        if self.js {
            techs.push("javascript");
        }
        if self.go {
            techs.push("go");
        }
        if self.docker {
            techs.push("docker");
        }
        if self.github_actions {
            techs.push("github-actions");
        }
        proof {
            assert(techs@.map_values(|t: &'static str| t@) =~= spec_technologies(*self));
        }
        techs
    }
}

} // verus!
