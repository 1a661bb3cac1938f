//! Detection of project technologies.
//!
//! Works over evidence gathered by a caller: the set of lowercase file-name
//! tokens seen in the tree (base names and dot-prefixed extensions), the
//! entries of the CI workflow directory, and the contents of the two files
//! consulted for version inference.

use crate::config::PreCommitConfig;
use crate::text::seq_views;
use crate::version::detect_python_version;
use crate::version::spec_python_version;
use vstd::prelude::*;
use vstd::string::*;

verus! {

/// The set of file-name tokens observed in a project tree.
///
/// A caller records, for every regular file visited, the lowercased base
/// name and, when present, the lowercased extension prefixed with `.`.
pub struct FileSet {
    names: Vec<String>,
}

impl View for FileSet {
    type V = Set<Seq<char>>;

    closed spec fn view(&self) -> Set<Seq<char>> {
        Set::new(
            |n: Seq<char>|
                exists|i: int| 0 <= i < self.names@.len() && self.names@[i]@ == n,
        )
    }
}

impl FileSet {
    /// An empty token set.
    pub fn new() -> (s: FileSet)
        ensures
            s@ == Set::<Seq<char>>::empty(),
    {
        let s = FileSet { names: Vec::new() };
        proof {
            assert(s@ =~= Set::<Seq<char>>::empty());
        }
        s
    }

    /// Record one token.
    pub fn insert(&mut self, name: String)
        ensures
            final(self)@ == old(self)@.insert(name@),
    {
        let ghost prior = self.names@;
        self.names.push(name);
        proof {
            assert forall|n: Seq<char>| #[trigger] final(self)@.contains(n) implies old(
                self,
            )@.insert(name@).contains(n) by {
                let i = choose|i: int|
                    0 <= i < self.names@.len() && self.names@[i]@ == n;
                if i < prior.len() {
                    assert(prior[i]@ == n);
                }
            }
            assert forall|n: Seq<char>| old(self)@.insert(name@).contains(n) implies #[trigger] final(self)@.contains(n) by {
                if old(self)@.contains(n) {
                    let i = choose|i: int| 0 <= i < prior.len() && prior[i]@ == n;
                    assert(self.names@[i]@ == n);
                } else {
                    assert(self.names@[prior.len() as int]@ == n);
                }
            }
            assert(final(self)@ =~= old(self)@.insert(name@));
        }
    }

    /// True when `name` was recorded.
    pub fn contains(&self, name: &str) -> (b: bool)
        ensures
            b == self@.contains(name@),
    {
        let key = name.to_owned();
        let mut i: usize = 0;
        while i < self.names.len()
            invariant
                0 <= i <= self.names@.len(),
                key@ == name@,
                forall|j: int| 0 <= j < i ==> self.names@[j]@ != name@,
            decreases self.names@.len() - i,
        {
            if self.names[i] == key {
                return true;
            }
            i += 1;
        }
        false
    }
}

/// Signals of a Python project.
pub open spec fn spec_detect_python(files: Set<Seq<char>>) -> bool {
    files.contains("setup.py"@) || files.contains("pyproject.toml"@) || files.contains(
        "requirements.txt"@,
    ) || files.contains("pipfile"@) || files.contains("poetry.lock"@) || files.contains(
        "setup.cfg"@,
    ) || files.contains("tox.ini"@) || files.contains("pytest.ini"@) || files.contains(".py"@)
        || files.contains("manage.py"@) || files.contains("__init__.py"@)
}

/// Signals of a JavaScript project.
pub open spec fn spec_detect_javascript(files: Set<Seq<char>>) -> bool {
    files.contains("package.json"@) || files.contains("yarn.lock"@) || files.contains(
        "package-lock.json"@,
    ) || files.contains("npm-shrinkwrap.json"@) || files.contains(".js"@) || files.contains(
        ".mjs"@,
    ) || files.contains(".cjs"@) || files.contains("webpack.config.js"@) || files.contains(
        "vite.config.js"@,
    ) || files.contains("rollup.config.js"@) || files.contains("babel.config.js"@)
        || files.contains(".babelrc"@)
}

/// Signals of TypeScript sources.
pub open spec fn spec_detect_typescript(files: Set<Seq<char>>) -> bool {
    files.contains("tsconfig.json"@) || files.contains("tsconfig.base.json"@) || files.contains(
        "tsconfig.build.json"@,
    ) || files.contains(".ts"@) || files.contains(".tsx"@) || files.contains(".d.ts"@)
}

/// Signals of JSX/React sources.
pub open spec fn spec_detect_jsx(files: Set<Seq<char>>) -> bool {
    files.contains(".jsx"@) || files.contains(".tsx"@) || files.contains("next.config.js"@)
        || files.contains("gatsby-config.js"@) || files.contains("react-scripts"@)
        || files.contains(".storybook"@)
}

/// Signals of a Go project.
pub open spec fn spec_detect_go(files: Set<Seq<char>>) -> bool {
    files.contains("go.mod"@) || files.contains("go.sum"@) || files.contains("main.go"@)
        || files.contains(".go"@) || files.contains("vendor"@)
}

/// Signals of Docker usage.
pub open spec fn spec_detect_docker(files: Set<Seq<char>>) -> bool {
    files.contains("dockerfile"@) || files.contains("docker-compose.yml"@) || files.contains(
        "docker-compose.yaml"@,
    ) || files.contains(".dockerignore"@) || files.contains("dockerfile.dev"@) || files.contains(
        "dockerfile.prod"@,
    )
}

/// Signals of YAML files.
pub open spec fn spec_detect_yaml(files: Set<Seq<char>>) -> bool {
    files.contains(".yml"@) || files.contains(".yaml"@) || files.contains("docker-compose.yml"@)
        || files.contains("docker-compose.yaml"@)
}

/// Signals of JSON files.
pub open spec fn spec_detect_json(files: Set<Seq<char>>) -> bool {
    files.contains(".json"@)
}

/// Signals of TOML files.
pub open spec fn spec_detect_toml(files: Set<Seq<char>>) -> bool {
    files.contains(".toml"@) || files.contains("pyproject.toml"@)
}

/// Signals of XML files.
pub open spec fn spec_detect_xml(files: Set<Seq<char>>) -> bool {
    files.contains(".xml"@)
}

/// A `uv.lock` file is present.
pub open spec fn spec_detect_uv_lock(files: Set<Seq<char>>) -> bool {
    files.contains("uv.lock"@)
}

/// Detect if this is a Python project.
pub fn detect_python(files: &FileSet) -> (b: bool)
    ensures
        b == spec_detect_python(files@),
{
    files.contains("setup.py") || files.contains("pyproject.toml") || files.contains(
        "requirements.txt",
    ) || files.contains("pipfile") || files.contains("poetry.lock") || files.contains("setup.cfg")
        || files.contains("tox.ini") || files.contains("pytest.ini") || files.contains(".py")
        || files.contains("manage.py") || files.contains("__init__.py")
}

/// Detect if project uses uv with a `uv.lock` file.
pub fn detect_uv_lock(files: &FileSet) -> (b: bool)
    ensures
        b == spec_detect_uv_lock(files@),
{
    files.contains("uv.lock")
}

/// Detect if this is a JavaScript project.
pub fn detect_javascript(files: &FileSet) -> (b: bool)
    ensures
        b == spec_detect_javascript(files@),
{
    files.contains("package.json") || files.contains("yarn.lock") || files.contains(
        "package-lock.json",
    ) || files.contains("npm-shrinkwrap.json") || files.contains(".js") || files.contains(".mjs")
        || files.contains(".cjs") || files.contains("webpack.config.js") || files.contains(
        "vite.config.js",
    ) || files.contains("rollup.config.js") || files.contains("babel.config.js")
        || files.contains(".babelrc")
}

/// Detect if project uses TypeScript.
pub fn detect_typescript(files: &FileSet) -> (b: bool)
    ensures
        b == spec_detect_typescript(files@),
{
    files.contains("tsconfig.json") || files.contains("tsconfig.base.json") || files.contains(
        "tsconfig.build.json",
    ) || files.contains(".ts") || files.contains(".tsx") || files.contains(".d.ts")
}

/// Detect if project uses JSX/React.
pub fn detect_jsx(files: &FileSet) -> (b: bool)
    ensures
        b == spec_detect_jsx(files@),
{
    files.contains(".jsx") || files.contains(".tsx") || files.contains("next.config.js")
        || files.contains("gatsby-config.js") || files.contains("react-scripts")
        || files.contains(".storybook")
}

/// Detect if this is a Go project.
pub fn detect_go(files: &FileSet) -> (b: bool)
    ensures
        b == spec_detect_go(files@),
{
    files.contains("go.mod") || files.contains("go.sum") || files.contains("main.go")
        || files.contains(".go") || files.contains("vendor")
}

/// Detect if project uses Docker.
pub fn detect_docker(files: &FileSet) -> (b: bool)
    ensures
        b == spec_detect_docker(files@),
{
    files.contains("dockerfile") || files.contains("docker-compose.yml") || files.contains(
        "docker-compose.yaml",
    ) || files.contains(".dockerignore") || files.contains("dockerfile.dev") || files.contains(
        "dockerfile.prod",
    )
}

/// Detect YAML files.
pub fn detect_yaml(files: &FileSet) -> (b: bool)
    ensures
        b == spec_detect_yaml(files@),
{
    files.contains(".yml") || files.contains(".yaml") || files.contains("docker-compose.yml")
        || files.contains("docker-compose.yaml")
}

/// Detect JSON files.
pub fn detect_json(files: &FileSet) -> (b: bool)
    ensures
        b == spec_detect_json(files@),
{
    files.contains(".json")
}

/// Detect TOML files.
pub fn detect_toml(files: &FileSet) -> (b: bool)
    ensures
        b == spec_detect_toml(files@),
{
    files.contains(".toml") || files.contains("pyproject.toml")
}

/// Detect XML files.
pub fn detect_xml(files: &FileSet) -> (b: bool)
    ensures
        b == spec_detect_xml(files@),
{
    files.contains(".xml")
}

/// The index of the last `.` in `name` at or before `j`.
pub open spec fn rlast_dot(name: Seq<char>, j: int) -> Option<int>
    decreases j + 1,
{
    if j < 0 || j >= name.len() {
        None
    } else if name[j] == '.' {
        Some(j)
    } else {
        rlast_dot(name, j - 1)
    }
}

/// The extension of a plain file name, as the standard library defines it:
/// the part after the last `.`, absent when there is no dot or when the
/// only dot leads the name.
pub open spec fn spec_extension(name: Seq<char>) -> Option<Seq<char>> {
    match rlast_dot(name, name.len() - 1) {
        Some(j) => if j == 0 {
            None
        } else {
            Some(name.subrange(j + 1, name.len() as int))
        },
        None => None,
    }
}

/// `c` mapped to its ASCII lowercase form.
pub open spec fn lower_char(c: char) -> char {
    if 'A' <= c && c <= 'Z' {
        (((c as u8) + 32) as char)
    } else {
        c
    }
}

/// `s` mapped to its ASCII lowercase form.
pub open spec fn lower_seq(s: Seq<char>) -> Seq<char> {
    s.map_values(|c: char| lower_char(c))
}

/// The file name names a YAML-family workflow file.
pub open spec fn is_workflow_name(name: Seq<char>) -> bool {
    match spec_extension(name) {
        Some(e) => lower_seq(e) == "yml"@ || lower_seq(e) == "yaml"@,
        None => false,
    }
}

/// Some entry of the workflow directory is a YAML-family file.
pub open spec fn spec_detect_github_actions(entries: Seq<Seq<char>>) -> bool {
    exists|i: int| 0 <= i < entries.len() && is_workflow_name(entries[i])
}

/// The extension of a plain file name.
fn extension_of(name: &str) -> (r: Option<&str>)
    ensures
        match r {
            Some(e) => spec_extension(name@) == Some(e@),
            None => spec_extension(name@) is None,
        },
{
    let n = name.unicode_len();
    let mut j = n;
    while j > 0 && name.get_char(j - 1) != '.'
        invariant
            0 <= j <= n,
            n == name@.len(),
            rlast_dot(name@, n - 1) == rlast_dot(name@, j - 1),
        decreases j,
    {
        j -= 1;
    }
    if j == 0 {
        None
    } else if j == 1 {
        None
    } else {
        Some(name.substring_char(j, n))
    }
}

/// `c` mapped to its ASCII lowercase form.
fn lower_char_exec(c: char) -> (r: char)
    ensures
        r == lower_char(c),
{
    if 'A' <= c && c <= 'Z' {
        ((c as u8) + 32) as char
    } else {
        c
    }
}

/// The extension, lowercased, reads `yml` or `yaml`.
fn is_yaml_ext(e: &str) -> (b: bool)
    ensures
        b == (lower_seq(e@) == "yml"@ || lower_seq(e@) == "yaml"@),
{
    proof {
        reveal_strlit("yml");
        reveal_strlit("yaml");
    }
    let n = e.unicode_len();
    if n == 3 {
        let m = lower_char_exec(e.get_char(0)) == 'y' && lower_char_exec(e.get_char(1)) == 'm'
            && lower_char_exec(e.get_char(2)) == 'l';
        proof {
            assert(lower_seq(e@).len() == 3);
            assert(lower_seq(e@)[0] == lower_char(e@[0]));
            assert(lower_seq(e@)[1] == lower_char(e@[1]));
            assert(lower_seq(e@)[2] == lower_char(e@[2]));
            if m {
                assert(lower_seq(e@) =~= "yml"@);
            } else {
                assert(lower_seq(e@) != "yml"@);
            }
        }
        m
    } else if n == 4 {
        let m = lower_char_exec(e.get_char(0)) == 'y' && lower_char_exec(e.get_char(1)) == 'a'
            && lower_char_exec(e.get_char(2)) == 'm' && lower_char_exec(e.get_char(3)) == 'l';
        proof {
            assert(lower_seq(e@).len() == 4);
            assert(lower_seq(e@)[0] == lower_char(e@[0]));
            assert(lower_seq(e@)[1] == lower_char(e@[1]));
            assert(lower_seq(e@)[2] == lower_char(e@[2]));
            assert(lower_seq(e@)[3] == lower_char(e@[3]));
            if m {
                assert(lower_seq(e@) =~= "yaml"@);
            } else {
                assert(lower_seq(e@) != "yaml"@);
            }
        }
        m
    } else {
        proof {
            assert(lower_seq(e@).len() == e@.len());
        }
        false
    }
}

/// Detect if project uses GitHub Actions: some entry of the CI workflow
/// directory, handed in by the caller, is a YAML-family file. A caller
/// that could not list the directory hands in an empty list.
pub fn detect_github_actions(workflow_entries: &Vec<String>) -> (b: bool)
    ensures
        b == spec_detect_github_actions(seq_views(workflow_entries@)),
{
    let mut i: usize = 0;
    while i < workflow_entries.len()
        invariant
            0 <= i <= workflow_entries@.len(),
            forall|j: int|
                0 <= j < i ==> !is_workflow_name(seq_views(workflow_entries@)[j]),
        decreases workflow_entries@.len() - i,
    {
        let found = match extension_of(workflow_entries[i].as_str()) {
            Some(e) => is_yaml_ext(e),
            None => false,
        };
        if found {
            proof {
                assert(is_workflow_name(seq_views(workflow_entries@)[i as int]));
            }
            return true;
        }
        i += 1;
    }
    false
}

/// The evidence gathered from a project directory: the file-name tokens of
/// the walked tree, the entries of the CI workflow directory, and the
/// contents of the two files consulted for version inference (absent when
/// missing or unreadable).
pub struct ProjectScan {
    pub files: FileSet,
    pub workflow_entries: Vec<String>,
    pub pyproject_toml: Option<String>,
    pub python_version_file: Option<String>,
}

/// The character sequence that an optional owned string holds.
pub open spec fn opt_view(s: Option<String>) -> Option<Seq<char>> {
    match s {
        Some(c) => Some(c@),
        None => None,
    }
}

/// The version string that the scan yields: probed only when Python was
/// detected, from the descriptor first, the pin file second.
pub open spec fn spec_scan_version(scan: ProjectScan) -> Option<Seq<char>> {
    if spec_detect_python(scan.files@) {
        spec_python_version(opt_view(scan.pyproject_toml), opt_view(scan.python_version_file))
    } else {
        None
    }
}

/// The configuration that a scan yields: each ecosystem and file-format
/// flag reflects its indicator set exactly, the safety flags are
/// unconditionally on, the symlink check unconditionally off, and the two
/// sub-options that default on are on.
pub open spec fn spec_discover_config(scan: ProjectScan, c: PreCommitConfig) -> bool {
    &&& c.python == spec_detect_python(scan.files@)
    &&& c.python_base == spec_detect_python(scan.files@)
    &&& c.js == spec_detect_javascript(scan.files@)
    &&& c.typescript == spec_detect_typescript(scan.files@)
    &&& c.jsx == spec_detect_jsx(scan.files@)
    &&& c.go == spec_detect_go(scan.files@)
    &&& c.docker == spec_detect_docker(scan.files@)
    &&& c.github_actions == spec_detect_github_actions(seq_views(scan.workflow_entries@))
    &&& c.yaml_check == spec_detect_yaml(scan.files@)
    &&& c.json_check == spec_detect_json(scan.files@)
    &&& c.toml_check == spec_detect_toml(scan.files@)
    &&& c.xml_check == spec_detect_xml(scan.files@)
    &&& c.uv_lock == spec_detect_uv_lock(scan.files@)
    &&& c.case_conflict == true
    &&& c.executables == true
    &&& c.symlinks == false
    &&& c.dockerfile_linting == true
    &&& c.dockerignore_check == false
    &&& c.workflow_validation == true
    &&& c.security_scanning == false
    &&& c.pyrefly_args is None
    &&& c.prettier_config is None
    &&& c.eslint_config is None
    &&& c.go_critic == false
    &&& match c.python_version {
        Some(v) => spec_scan_version(scan) == Some(v@),
        None => spec_scan_version(scan) is None,
    }
}

/// A scan in which no indicator matched yields a configuration in which
/// every ecosystem flag is false, no version was probed, and only the
/// unconditional safety flags (and the two default-on sub-options) are on.
pub proof fn lemma_no_indicators_defaults(scan: ProjectScan, c: PreCommitConfig)
    requires
        spec_discover_config(scan, c),
        !spec_detect_python(scan.files@),
        !spec_detect_javascript(scan.files@),
        !spec_detect_typescript(scan.files@),
        !spec_detect_jsx(scan.files@),
        !spec_detect_go(scan.files@),
        !spec_detect_docker(scan.files@),
        !spec_detect_github_actions(seq_views(scan.workflow_entries@)),
    ensures
        !c.python && !c.python_base && !c.js && !c.typescript && !c.jsx && !c.go && !c.docker
            && !c.github_actions,
        c.case_conflict && c.executables && !c.symlinks,
        c.python_version is None,
{
}

/// A discovered version string always carries the `python` prefix. The
/// full dotted-pattern validation is a separate, optional check that can
/// still reject it: a free-form version-pin file is taken as written, so
/// its trimmed contents need not be numeric.
pub proof fn lemma_discovered_version_has_prefix(scan: ProjectScan, c: PreCommitConfig)
    requires
        spec_discover_config(scan, c),
    ensures
        match c.python_version {
            Some(v) => crate::text::spec_starts_with(v@, "python"@),
            None => true,
        },
{
    if let Some(v) = c.python_version {
        crate::version::lemma_probed_version_has_prefix(
            opt_view(scan.pyproject_toml),
            opt_view(scan.python_version_file),
        );
    }
}

/// Discover project configuration by analyzing the gathered evidence.
/// Total: yields a configuration for every scan, with the safety flags
/// (case-conflict and executable-bit checks) unconditionally on and the
/// symlink check unconditionally off.
pub fn discover_config(scan: &ProjectScan) -> (c: PreCommitConfig)
    ensures
        spec_discover_config(*scan, c),
{
    let has_python = detect_python(&scan.files);

    let python_version = if has_python {
        let pyproject = match &scan.pyproject_toml {
            Some(s) => Some(s.as_str()),
            None => None,
        };
        let pin = match &scan.python_version_file {
            Some(s) => Some(s.as_str()),
            None => None,
        };
        detect_python_version(pyproject, pin)
    } else {
        None
    };

    PreCommitConfig {
        python_version,
        yaml_check: detect_yaml(&scan.files),
        json_check: detect_json(&scan.files),
        toml_check: detect_toml(&scan.files),
        xml_check: detect_xml(&scan.files),
        case_conflict: true,  // Always enable for cross-platform compatibility
        executables: true,  // Always enable for shell script safety
        symlinks: false,
        python_base: has_python,
        python: has_python,
        uv_lock: detect_uv_lock(&scan.files),
        pyrefly_args: None,
        docker: detect_docker(&scan.files),
        dockerfile_linting: true,
        dockerignore_check: false,
        github_actions: detect_github_actions(&scan.workflow_entries),
        workflow_validation: true,
        security_scanning: false,
        js: detect_javascript(&scan.files),
        typescript: detect_typescript(&scan.files),
        jsx: detect_jsx(&scan.files),
        prettier_config: None,
        eslint_config: None,
        go: detect_go(&scan.files),
        go_critic: false,
    }
}

} // verus!
