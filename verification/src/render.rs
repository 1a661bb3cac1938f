//! Rendering of the pre-commit configuration document.
//!
//! A fixed library of parametrized text fragments, one per ecosystem
//! category plus a wrapping fragment. The applicable fragments are rendered
//! in a fixed order, joined by a blank line, indented by a fixed margin,
//! wrapped, and terminated by exactly one trailing newline.

use crate::config::spec_technologies;
use crate::config::PreCommitConfig;
use crate::text::seq_views;
use vstd::prelude::*;
use vstd::string::*;

verus! {

/// The base file-hygiene fragment, always selected.
pub open spec fn base_block(c: PreCommitConfig) -> Seq<char> {
    "- repo: https://github.com/pre-commit/pre-commit-hooks\n  rev: v5.0.0\n  hooks:\n    - id: trailing-whitespace\n    - id: end-of-file-fixer\n    - id: check-merge-conflict\n    - id: check-added-large-files"@
        + (if c.yaml_check {
        "\n    - id: check-yaml"@
    } else {
        Seq::<char>::empty()
    }) + (if c.json_check {
        "\n    - id: check-json"@
    } else {
        Seq::<char>::empty()
    }) + (if c.toml_check {
        "\n    - id: check-toml"@
    } else {
        Seq::<char>::empty()
    }) + (if c.xml_check {
        "\n    - id: check-xml"@
    } else {
        Seq::<char>::empty()
    }) + (if c.case_conflict {
        "\n    - id: check-case-conflict"@
    } else {
        Seq::<char>::empty()
    }) + (if c.executables {
        "\n    - id: check-executables-have-shebangs"@
    } else {
        Seq::<char>::empty()
    }) + (if c.symlinks {
        "\n    - id: check-symlinks"@
    } else {
        Seq::<char>::empty()
    }) + (if c.python_base {
        "\n    - id: check-ast\n    - id: debug-statements"@
    } else {
        Seq::<char>::empty()
    })
}

/// The Python fragment: Ruff and Pyrefly, with the lock-file hook and the
/// extra checker arguments as sub-options.
pub open spec fn python_block(c: PreCommitConfig) -> Seq<char> {
    "# python hooks\n- repo: https://github.com/astral-sh/ruff-pre-commit\n  rev: v0.8.4\n  hooks:\n    - id: ruff\n      args: [--fix]\n    - id: ruff-format\n- repo: https://github.com/facebook/pyrefly\n  rev: v0.16.0\n  hooks:\n    - id: pyrefly-typecheck"@
        + (match c.pyrefly_args {
        Some(args) => "\n      args: ["@ + comma_join(seq_views(args@)) + "]"@,
        None => Seq::<char>::empty(),
    }) + (if c.uv_lock {
        "\n- repo: https://github.com/astral-sh/uv-pre-commit\n  rev: 0.5.11\n  hooks:\n    - id: uv-lock"@
    } else {
        Seq::<char>::empty()
    })
}

/// The container-tooling fragment: Dockerfile linting and the ignore-file
/// check as sub-options.
pub open spec fn docker_block(c: PreCommitConfig) -> Seq<char> {
    "# docker hooks"@ + (if c.dockerfile_linting {
        "\n- repo: https://github.com/hadolint/hadolint\n  rev: v2.12.0\n  hooks:\n    - id: hadolint-docker"@
    } else {
        Seq::<char>::empty()
    }) + (if c.dockerignore_check {
        "\n- repo: local\n  hooks:\n    - id: dockerignore-check\n      name: check .dockerignore exists\n      entry: test -f .dockerignore\n      language: system\n      pass_filenames: false"@
    } else {
        Seq::<char>::empty()
    })
}

/// The CI-workflow fragment: workflow validation and security scanning as
/// sub-options.
pub open spec fn actions_block(c: PreCommitConfig) -> Seq<char> {
    "# github actions hooks"@ + (if c.workflow_validation {
        "\n- repo: https://github.com/rhysd/actionlint\n  rev: v1.7.7\n  hooks:\n    - id: actionlint"@
    } else {
        Seq::<char>::empty()
    }) + (if c.security_scanning {
        "\n- repo: https://github.com/woodruffw/zizmor-pre-commit\n  rev: v1.5.2\n  hooks:\n    - id: zizmor"@
    } else {
        Seq::<char>::empty()
    })
}

/// The JavaScript fragment: Prettier and ESLint, with dialect flags and
/// style-config paths as sub-options.
pub open spec fn js_block(c: PreCommitConfig) -> Seq<char> {
    "# javascript hooks\n- repo: https://github.com/pre-commit/mirrors-prettier\n  rev: v3.1.0\n  hooks:\n    - id: prettier"@
        + (match c.prettier_config {
        Some(cfg) => "\n      args: [--config, "@ + cfg@ + "]"@,
        None => Seq::<char>::empty(),
    })
        + "\n- repo: https://github.com/pre-commit/mirrors-eslint\n  rev: v9.17.0\n  hooks:\n    - id: eslint"@
        + (match c.eslint_config {
        Some(cfg) => "\n      args: [--config, "@ + cfg@ + "]"@,
        None => Seq::<char>::empty(),
    }) + (if c.typescript {
        "\n      additional_dependencies: [typescript]"@
    } else {
        Seq::<char>::empty()
    }) + (if c.jsx {
        "\n      types_or: [javascript, jsx, ts, tsx]"@
    } else {
        Seq::<char>::empty()
    })
}

/// The Go fragment, with the extra linter as a sub-option.
pub open spec fn go_block(c: PreCommitConfig) -> Seq<char> {
    "# go hooks\n- repo: https://github.com/dnephin/pre-commit-golang\n  rev: v0.5.1\n  hooks:\n    - id: go-fmt\n    - id: golangci-lint"@
        + (if c.go_critic {
        "\n    - id: go-critic"@
    } else {
        Seq::<char>::empty()
    })
}

/// The selected fragments joined by a blank line, in the fixed order:
/// base, Python, container, CI-workflow, JavaScript, Go.
pub open spec fn combined_blocks(c: PreCommitConfig) -> Seq<char> {
    base_block(c) + (if c.python {
        "\n\n"@ + python_block(c)
    } else {
        Seq::<char>::empty()
    }) + (if c.docker {
        "\n\n"@ + docker_block(c)
    } else {
        Seq::<char>::empty()
    }) + (if c.github_actions {
        "\n\n"@ + actions_block(c)
    } else {
        Seq::<char>::empty()
    }) + (if c.js {
        "\n\n"@ + js_block(c)
    } else {
        Seq::<char>::empty()
    }) + (if c.go {
        "\n\n"@ + go_block(c)
    } else {
        Seq::<char>::empty()
    })
}

/// The items joined by a comma and a space, from index `i` on.
pub open spec fn comma_join_from(items: Seq<Seq<char>>, i: int) -> Seq<char>
    decreases items.len() - i,
{
    if i < 0 || i >= items.len() {
        Seq::<char>::empty()
    } else if i == items.len() - 1 {
        items[i]
    } else {
        items[i] + ", "@ + comma_join_from(items, i + 1)
    }
}

/// The items joined by a comma and a space.
pub open spec fn comma_join(items: Seq<Seq<char>>) -> Seq<char> {
    comma_join_from(items, 0)
}

/// A margin of `n` spaces.
pub open spec fn spaces(n: nat) -> Seq<char> {
    Seq::new(n, |i: int| ' ')
}

/// The index of the first newline of `s` at or after `i`; the length of
/// `s` when there is none.
pub open spec fn nl_pos(s: Seq<char>, i: int) -> int
    decreases s.len() - i,
{
    if i < 0 || i >= s.len() {
        s.len() as int
    } else if s[i] == '\n' {
        i
    } else {
        nl_pos(s, i + 1)
    }
}

/// `s` with every non-empty line prefixed by the margin `p`; empty lines
/// and every newline are kept exactly as they are.
pub open spec fn spec_indent(s: Seq<char>, p: Seq<char>) -> Seq<char>
    decreases s.len(),
{
    let k = nl_pos(s, 0);
    if 0 <= k && k < s.len() {
        (if k == 0 {
            Seq::<char>::empty()
        } else {
            p + s.subrange(0, k)
        }) + "\n"@ + spec_indent(s.subrange(k + 1, s.len() as int), p)
    } else {
        if s.len() == 0 {
            s
        } else {
            p + s
        }
    }
}

/// `s` holds no newline.
pub open spec fn no_newline(s: Seq<char>) -> bool {
    forall|j: int| 0 <= j < s.len() ==> s[j] != '\n'
}

/// The lines of `s`: the maximal newline-free segments, in order.
pub open spec fn split_lines(s: Seq<char>) -> Seq<Seq<char>>
    decreases s.len(),
{
    let k = nl_pos(s, 0);
    if 0 <= k && k < s.len() {
        seq![s.subrange(0, k)] + split_lines(s.subrange(k + 1, s.len() as int))
    } else {
        seq![s]
    }
}

proof fn lemma_nl_pos_at(s: Seq<char>, i: int, m: int)
    requires
        0 <= i <= m <= s.len(),
        forall|j: int| i <= j < m ==> s[j] != '\n',
        m == s.len() || s[m] == '\n',
    ensures
        nl_pos(s, i) == m,
    decreases m - i,
{
    if i < m {
        lemma_nl_pos_at(s, i + 1, m);
    }
}

proof fn lemma_nl_pos_bounds(s: Seq<char>, i: int)
    requires
        0 <= i <= s.len(),
    ensures
        i <= nl_pos(s, i) <= s.len(),
        forall|j: int| i <= j < nl_pos(s, i) ==> s[j] != '\n',
        nl_pos(s, i) < s.len() ==> s[nl_pos(s, i)] == '\n',
    decreases s.len() - i,
{
    if i < s.len() && s[i] != '\n' {
        lemma_nl_pos_bounds(s, i + 1);
    }
}

proof fn lemma_split_prepend(h: Seq<char>, x: Seq<char>)
    requires
        no_newline(h),
    ensures
        split_lines(h + seq!['\n'] + x) == seq![h] + split_lines(x),
{
    let s = h + seq!['\n'] + x;
    lemma_nl_pos_at(s, 0, h.len() as int);
    assert(s.subrange(0, h.len() as int) =~= h);
    assert(s.subrange(h.len() as int + 1, s.len() as int) =~= x);
}

proof fn lemma_split_single(s: Seq<char>)
    requires
        no_newline(s),
    ensures
        split_lines(s) == seq![s],
{
    lemma_nl_pos_at(s, 0, s.len() as int);
}

/// A line of `s` prefixed by the margin `p` when it is non-empty, and
/// kept exactly when it is blank.
pub open spec fn padded_line(line: Seq<char>, p: Seq<char>) -> Seq<char> {
    if line.len() == 0 {
        line
    } else {
        p + line
    }
}

/// Indenting preserves the line structure exactly: the same number of
/// lines, blank lines kept untouched, and every non-blank line prefixed
/// by the margin, which holds no newline.
pub proof fn lemma_indent_preserves_lines(s: Seq<char>, p: Seq<char>)
    requires
        no_newline(p),
    ensures
        split_lines(spec_indent(s, p)).len() == split_lines(s).len(),
        forall|i: int|
            0 <= i < split_lines(s).len() ==> split_lines(spec_indent(s, p))[i] == padded_line(
                split_lines(s)[i],
                p,
            ),
    decreases s.len(),
{
    reveal_strlit("\n");
    assert("\n"@ =~= seq!['\n']);
    let k = nl_pos(s, 0);
    lemma_nl_pos_bounds(s, 0);
    if 0 <= k && k < s.len() {
        let head = s.subrange(0, k);
        let tail = s.subrange(k + 1, s.len() as int);
        let headp = if k == 0 {
            Seq::<char>::empty()
        } else {
            p + head
        };
        lemma_indent_preserves_lines(tail, p);
        assert(no_newline(head));
        assert(no_newline(headp));
        assert(spec_indent(s, p) == headp + seq!['\n'] + spec_indent(tail, p));
        lemma_split_prepend(headp, spec_indent(tail, p));
        assert(headp == padded_line(head, p));
        assert forall|i: int| 0 <= i < split_lines(s).len() implies split_lines(
            spec_indent(s, p),
        )[i] == padded_line(split_lines(s)[i], p) by {
            if i == 0 {
                assert(split_lines(s)[0] == head);
            } else {
                assert(split_lines(s)[i] == split_lines(tail)[i - 1]);
                assert(split_lines(spec_indent(s, p))[i] == split_lines(spec_indent(tail, p))[i
                    - 1]);
            }
        }
    } else {
        assert(no_newline(s));
        lemma_split_single(s);
        if s.len() == 0 {
            lemma_split_single(spec_indent(s, p));
        } else {
            assert(no_newline(p + s));
            lemma_split_single(p + s);
        }
    }
}

/// `s` with every trailing newline removed.
pub open spec fn strip_newlines(s: Seq<char>) -> Seq<char>
    decreases s.len(),
{
    if s.len() > 0 && s.last() == '\n' {
        strip_newlines(s.drop_last())
    } else {
        s
    }
}

/// The wrapping fragment: a header naming the tool version, the clock
/// reading and the detected technologies, the optional version pin, and
/// the hook-group entries as the body.
pub open spec fn meta_document(c: PreCommitConfig, ts: Seq<char>, content: Seq<char>) -> Seq<
    char,
> {
    "# .pre-commit-config.yaml generated by prec-templ v0.1.0 at "@ + ts
        + "\n# detected technologies: "@ + comma_join(spec_technologies(c)) + "\n"@ + (
    match c.python_version {
        Some(v) => "default_language_version:\n  python: "@ + v@ + "\n"@,
        None => Seq::<char>::empty(),
    }) + "repos:\n"@ + content
}

/// The complete document for settings `c` and clock reading `ts`: the
/// wrapped, indented fragment blocks, ending with exactly one newline.
pub open spec fn final_document(c: PreCommitConfig, ts: Seq<char>) -> Seq<char> {
    strip_newlines(meta_document(c, ts, spec_indent(combined_blocks(c), spaces(2)))).push('\n')
}

/// `s` ends with one newline and not more.
pub open spec fn ends_with_one_newline(s: Seq<char>) -> bool {
    s.len() > 0 && s.last() == '\n' && (s.len() < 2 || s[s.len() - 2] != '\n')
}

proof fn lemma_add_empty(s: Seq<char>)
    ensures
        s + Seq::<char>::empty() == s,
{
    assert(s + Seq::<char>::empty() =~= s);
}

proof fn lemma_add_assoc(a: Seq<char>, b: Seq<char>, c: Seq<char>)
    ensures
        (a + b) + c == a + (b + c),
{
    assert((a + b) + c =~= a + (b + c));
}

proof fn lemma_strip_newlines_range(s: Seq<char>, b: int)
    requires
        0 <= b <= s.len(),
        forall|j: int| b <= j < s.len() ==> s[j] == '\n',
        b == 0 || s[b - 1] != '\n',
    ensures
        strip_newlines(s) == s.subrange(0, b),
    decreases s.len() - b,
{
    if b == s.len() {
        assert(s.subrange(0, s.len() as int) =~= s);
    } else {
        lemma_strip_newlines_range(s.drop_last(), b);
        assert(s.drop_last().subrange(0, b) =~= s.subrange(0, b));
    }
}

proof fn lemma_strip_newlines_no_trailing(s: Seq<char>)
    ensures
        strip_newlines(s).len() > 0 ==> strip_newlines(s).last() != '\n',
    decreases s.len(),
{
    if s.len() > 0 && s.last() == '\n' {
        lemma_strip_newlines_no_trailing(s.drop_last());
    }
}

/// The produced document ends with exactly one trailing newline, whatever
/// the settings and the clock reading.
pub proof fn lemma_one_trailing_newline(c: PreCommitConfig, ts: Seq<char>)
    ensures
        ends_with_one_newline(final_document(c, ts)),
{
    let body = meta_document(c, ts, spec_indent(combined_blocks(c), spaces(2)));
    lemma_strip_newlines_no_trailing(body);
    let d = final_document(c, ts);
    assert(d.last() == '\n');
}

/// On the default settings the document holds the base fragment and no
/// optional fragment: the combined block is the base block alone, and the
/// document wraps exactly its indented text, whatever the clock reading.
pub proof fn lemma_default_renders_base_alone(c: PreCommitConfig, ts: Seq<char>)
    requires
        c == crate::config::spec_default_config(),
    ensures
        combined_blocks(c) == base_block(c),
        final_document(c, ts) == strip_newlines(
            meta_document(c, ts, spec_indent(base_block(c), spaces(2))),
        ).push('\n'),
{
    assert(combined_blocks(c) =~= base_block(c));
}

/// Rendering is deterministic: two documents produced from the same
/// settings and the same clock reading are identical.
pub proof fn lemma_render_deterministic(
    c: PreCommitConfig,
    ts: Seq<char>,
    first: Seq<char>,
    second: Seq<char>,
)
    requires
        first == final_document(c, ts),
        second == final_document(c, ts),
    ensures
        first == second,
{
}

/// A fragment is rendered only from its own category's sub-options, and a
/// disabled category's fragment is not rendered at all: two settings that
/// agree on the version string, the base-fragment flags and every
/// top-level category flag, and on the sub-options of each category that
/// is enabled, render identically for the same clock reading.
#[verifier::rlimit(30)]
pub proof fn lemma_disabled_sub_options_ignored(
    c1: PreCommitConfig,
    c2: PreCommitConfig,
    ts: Seq<char>,
)
    requires
        c1.python_version == c2.python_version,
        c1.yaml_check == c2.yaml_check,
        c1.json_check == c2.json_check,
        c1.toml_check == c2.toml_check,
        c1.xml_check == c2.xml_check,
        c1.case_conflict == c2.case_conflict,
        c1.executables == c2.executables,
        c1.symlinks == c2.symlinks,
        c1.python_base == c2.python_base,
        c1.python == c2.python,
        c1.js == c2.js,
        c1.go == c2.go,
        c1.docker == c2.docker,
        c1.github_actions == c2.github_actions,
        c1.python ==> c1.uv_lock == c2.uv_lock && c1.pyrefly_args == c2.pyrefly_args,
        c1.docker ==> c1.dockerfile_linting == c2.dockerfile_linting && c1.dockerignore_check
            == c2.dockerignore_check,
        c1.github_actions ==> c1.workflow_validation == c2.workflow_validation
            && c1.security_scanning == c2.security_scanning,
        c1.js ==> c1.typescript == c2.typescript && c1.jsx == c2.jsx && c1.prettier_config
            == c2.prettier_config && c1.eslint_config == c2.eslint_config,
        c1.go ==> c1.go_critic == c2.go_critic,
    ensures
        final_document(c1, ts) == final_document(c2, ts),
{
    assert(spec_technologies(c1) == spec_technologies(c2));
    assert(base_block(c1) == base_block(c2));
    assert(c1.python ==> python_block(c1) == python_block(c2));
    assert(c1.docker ==> docker_block(c1) == docker_block(c2));
    assert(c1.github_actions ==> actions_block(c1) == actions_block(c2));
    assert(c1.js ==> js_block(c1) == js_block(c2));
    assert(c1.go ==> go_block(c1) == go_block(c2));
    assert(combined_blocks(c1) == combined_blocks(c2));
    assert(meta_document(c1, ts, spec_indent(combined_blocks(c1), spaces(2))) == meta_document(
        c2,
        ts,
        spec_indent(combined_blocks(c2), spaces(2)),
    ));
}

/// The items joined by a comma and a space, from index `i` on.
fn join_comma_from(items: &Vec<&str>, i: usize) -> (r: String)
    requires
        i <= items@.len(),
    ensures
        r@ == comma_join_from(items@.map_values(|t: &str| t@), i as int),
    decreases items@.len() - i,
{
    let mut r = String::new();
    if i >= items.len() {
        return r;
    }
    r.append(items[i]);
    if i + 1 < items.len() {
        r.append(", ");
        let rest = join_comma_from(items, i + 1);
        r.append(rest.as_str());
    }
    r
}

/// The strings joined by a comma and a space, from index `i` on.
fn join_comma_strings_from(items: &Vec<String>, i: usize) -> (r: String)
    requires
        i <= items@.len(),
    ensures
        r@ == comma_join_from(seq_views(items@), i as int),
    decreases items@.len() - i,
{
    let mut r = String::new();
    if i >= items.len() {
        return r;
    }
    r.append(items[i].as_str());
    if i + 1 < items.len() {
        r.append(", ");
        let rest = join_comma_strings_from(items, i + 1);
        r.append(rest.as_str());
    }
    r
}

/// The base file-hygiene fragment.
fn render_base_block(c: &PreCommitConfig) -> (r: String)
    ensures
        r@ == base_block(*c),
{
    let mut r = String::new();
    r.append(
        "- repo: https://github.com/pre-commit/pre-commit-hooks\n  rev: v5.0.0\n  hooks:\n    - id: trailing-whitespace\n    - id: end-of-file-fixer\n    - id: check-merge-conflict\n    - id: check-added-large-files",
    );
    if c.yaml_check {
        r.append("\n    - id: check-yaml");
    }
    if c.json_check {
        r.append("\n    - id: check-json");
    }
    if c.toml_check {
        r.append("\n    - id: check-toml");
    }
    if c.xml_check {
        r.append("\n    - id: check-xml");
    }
    if c.case_conflict {
        r.append("\n    - id: check-case-conflict");
    }
    if c.executables {
        r.append("\n    - id: check-executables-have-shebangs");
    }
    if c.symlinks {
        r.append("\n    - id: check-symlinks");
    }
    if c.python_base {
        r.append("\n    - id: check-ast\n    - id: debug-statements");
    }
    proof {
        assert(r@ =~= base_block(*c));
    }
    r
}

/// The Python fragment.
fn render_python_block(c: &PreCommitConfig) -> (r: String)
    ensures
        r@ == python_block(*c),
{
    let mut r = String::new();
    r.append(
        "# python hooks\n- repo: https://github.com/astral-sh/ruff-pre-commit\n  rev: v0.8.4\n  hooks:\n    - id: ruff\n      args: [--fix]\n    - id: ruff-format\n- repo: https://github.com/facebook/pyrefly\n  rev: v0.16.0\n  hooks:\n    - id: pyrefly-typecheck",
    );
    if let Some(args) = &c.pyrefly_args {
        r.append("\n      args: [");
        let joined = join_comma_strings_from(args, 0);
        r.append(joined.as_str());
        r.append("]");
    }
    if c.uv_lock {
        r.append(
            "\n- repo: https://github.com/astral-sh/uv-pre-commit\n  rev: 0.5.11\n  hooks:\n    - id: uv-lock",
        );
    }
    proof {
        assert(r@ =~= python_block(*c));
    }
    r
}

/// The container-tooling fragment.
fn render_docker_block(c: &PreCommitConfig) -> (r: String)
    ensures
        r@ == docker_block(*c),
{
    let mut r = String::new();
    r.append("# docker hooks");
    if c.dockerfile_linting {
        r.append(
            "\n- repo: https://github.com/hadolint/hadolint\n  rev: v2.12.0\n  hooks:\n    - id: hadolint-docker",
        );
    }
    if c.dockerignore_check {
        r.append(
            "\n- repo: local\n  hooks:\n    - id: dockerignore-check\n      name: check .dockerignore exists\n      entry: test -f .dockerignore\n      language: system\n      pass_filenames: false",
        );
    }
    proof {
        assert(r@ =~= docker_block(*c));
    }
    r
}

/// The CI-workflow fragment.
fn render_actions_block(c: &PreCommitConfig) -> (r: String)
    ensures
        r@ == actions_block(*c),
{
    let mut r = String::new();
    r.append("# github actions hooks");
    if c.workflow_validation {
        r.append(
            "\n- repo: https://github.com/rhysd/actionlint\n  rev: v1.7.7\n  hooks:\n    - id: actionlint",
        );
    }
    if c.security_scanning {
        r.append(
            "\n- repo: https://github.com/woodruffw/zizmor-pre-commit\n  rev: v1.5.2\n  hooks:\n    - id: zizmor",
        );
    }
    proof {
        assert(r@ =~= actions_block(*c));
    }
    r
}

/// The JavaScript fragment.
fn render_js_block(c: &PreCommitConfig) -> (r: String)
    ensures
        r@ == js_block(*c),
{
    let mut r = String::new();
    r.append(
        "# javascript hooks\n- repo: https://github.com/pre-commit/mirrors-prettier\n  rev: v3.1.0\n  hooks:\n    - id: prettier",
    );
    if let Some(cfg) = &c.prettier_config {
        r.append("\n      args: [--config, ");
        r.append(cfg.as_str());
        r.append("]");
    }
    r.append(
        "\n- repo: https://github.com/pre-commit/mirrors-eslint\n  rev: v9.17.0\n  hooks:\n    - id: eslint",
    );
    if let Some(cfg) = &c.eslint_config {
        r.append("\n      args: [--config, ");
        r.append(cfg.as_str());
        r.append("]");
    }
    if c.typescript {
        r.append("\n      additional_dependencies: [typescript]");
    }
    if c.jsx {
        r.append("\n      types_or: [javascript, jsx, ts, tsx]");
    }
    proof {
        assert(r@ =~= js_block(*c));
    }
    r
}

/// The Go fragment.
fn render_go_block(c: &PreCommitConfig) -> (r: String)
    ensures
        r@ == go_block(*c),
{
    let mut r = String::new();
    r.append(
        "# go hooks\n- repo: https://github.com/dnephin/pre-commit-golang\n  rev: v0.5.1\n  hooks:\n    - id: go-fmt\n    - id: golangci-lint",
    );
    if c.go_critic {
        r.append("\n    - id: go-critic");
    }
    proof {
        assert(r@ =~= go_block(*c));
    }
    r
}

/// The selected fragments joined by a blank line, in the fixed order.
#[verifier::rlimit(50)]
fn render_combined_blocks(c: &PreCommitConfig) -> (r: String)
    ensures
        r@ == combined_blocks(*c),
{
    let mut r = render_base_block(c);
    let ghost s1 = base_block(*c) + (if c.python {
        "\n\n"@ + python_block(*c)
    } else {
        Seq::<char>::empty()
    });
    if c.python {
        r.append("\n\n");
        let b = render_python_block(c);
        r.append(b.as_str());
        proof {
            lemma_add_assoc(base_block(*c), "\n\n"@, python_block(*c));
        }
    } else {
        proof {
            lemma_add_empty(base_block(*c));
        }
    }
    proof {
        assert(r@ == s1);
    }
    let ghost s2 = s1 + (if c.docker {
        "\n\n"@ + docker_block(*c)
    } else {
        Seq::<char>::empty()
    });
    if c.docker {
        r.append("\n\n");
        let b = render_docker_block(c);
        r.append(b.as_str());
        proof {
            lemma_add_assoc(s1, "\n\n"@, docker_block(*c));
        }
    } else {
        proof {
            lemma_add_empty(s1);
        }
    }
    proof {
        assert(r@ == s2);
    }
    let ghost s3 = s2 + (if c.github_actions {
        "\n\n"@ + actions_block(*c)
    } else {
        Seq::<char>::empty()
    });
    if c.github_actions {
        r.append("\n\n");
        let b = render_actions_block(c);
        r.append(b.as_str());
        proof {
            lemma_add_assoc(s2, "\n\n"@, actions_block(*c));
        }
    } else {
        proof {
            lemma_add_empty(s2);
        }
    }
    proof {
        assert(r@ == s3);
    }
    let ghost s4 = s3 + (if c.js {
        "\n\n"@ + js_block(*c)
    } else {
        Seq::<char>::empty()
    });
    if c.js {
        r.append("\n\n");
        let b = render_js_block(c);
        r.append(b.as_str());
        proof {
            lemma_add_assoc(s3, "\n\n"@, js_block(*c));
        }
    } else {
        proof {
            lemma_add_empty(s3);
        }
    }
    proof {
        assert(r@ == s4);
    }
    if c.go {
        r.append("\n\n");
        let b = render_go_block(c);
        r.append(b.as_str());
        proof {
            lemma_add_assoc(s4, "\n\n"@, go_block(*c));
        }
    } else {
        proof {
            lemma_add_empty(s4);
        }
    }
    proof {
        assert(r@ == combined_blocks(*c));
    }
    r
}

/// The index of the first newline of `text` at or after `i`; the length
/// of `text` when there is none.
fn find_newline(text: &str, i: usize) -> (k: usize)
    requires
        i <= text@.len(),
    ensures
        k == nl_pos(text@, i as int),
        i <= k <= text@.len(),
        k < text@.len() ==> text@[k as int] == '\n',
{
    let n = text.unicode_len();
    let mut j = i;
    while j < n && text.get_char(j) != '\n'
        invariant
            i <= j <= n,
            n == text@.len(),
            nl_pos(text@, i as int) == nl_pos(text@, j as int),
        decreases n - j,
    {
        j += 1;
    }
    j
}

/// A margin of `n` spaces.
fn make_spaces(n: usize) -> (r: String)
    ensures
        r@ == spaces(n as nat),
{
    let mut r = String::new();
    let mut i: usize = 0;
    while i < n
        invariant
            0 <= i <= n,
            r@ == spaces(i as nat),
        decreases n - i,
    {
        r.append(" ");
        proof {
            reveal_strlit(" ");
            assert(r@ =~= spaces((i + 1) as nat));
        }
        i += 1;
    }
    r
}

/// `text` with every non-empty line prefixed by the margin; empty lines
/// and every newline are kept exactly as they are.
fn indent_with(text: &str, prefix: &str) -> (r: String)
    ensures
        r@ == spec_indent(text@, prefix@),
    decreases text@.len(),
{
    let n = text.unicode_len();
    let k = find_newline(text, 0);
    if k < n {
        let mut r = String::new();
        if k > 0 {
            r.append(prefix);
            r.append(text.substring_char(0, k));
        }
        r.append("\n");
        let rest = indent_with(text.substring_char(k + 1, n), prefix);
        r.append(rest.as_str());
        proof {
            assert(r@ =~= spec_indent(text@, prefix@));
        }
        r
    } else {
        let mut r = String::new();
        if n > 0 {
            r.append(prefix);
            r.append(text);
        }
        proof {
            assert(r@ =~= spec_indent(text@, prefix@));
        }
        r
    }
}

/// Indent each non-empty line of `text` by `margin` spaces; empty lines
/// are left untouched.
pub fn indent(text: &str, margin: usize) -> (r: String)
    ensures
        r@ == spec_indent(text@, spaces(margin as nat)),
{
    let prefix = make_spaces(margin);
    indent_with(text, prefix.as_str())
}

/// `text` with its trailing newlines replaced by exactly one.
fn with_one_trailing_newline(text: &str) -> (r: String)
    ensures
        r@ == strip_newlines(text@).push('\n'),
{
    let n = text.unicode_len();
    let mut b = n;
    while b > 0 && text.get_char(b - 1) == '\n'
        invariant
            0 <= b <= n,
            n == text@.len(),
            forall|j: int| b <= j < n ==> text@[j] == '\n',
        decreases b,
    {
        b -= 1;
    }
    proof {
        lemma_strip_newlines_range(text@, b as int);
    }
    let mut r = text.substring_char(0, b).to_owned();
    r.append("\n");
    proof {
        reveal_strlit("\n");
        assert(r@ =~= strip_newlines(text@).push('\n'));
    }
    r
}

/// The wrapping fragment around the rendered body.
fn render_meta_document(c: &PreCommitConfig, ts: &str, content: &str) -> (r: String)
    ensures
        r@ == meta_document(*c, ts@, content@),
{
    let mut r = String::new();
    r.append("# .pre-commit-config.yaml generated by prec-templ v0.1.0 at ");
    r.append(ts);
    r.append("\n# detected technologies: ");
    let techs = c.detected_technologies();
    let joined = join_comma_from(&techs, 0);
    r.append(joined.as_str());
    r.append("\n");
    if let Some(v) = &c.python_version {
        r.append("default_language_version:\n  python: ");
        r.append(v.as_str());
        r.append("\n");
    }
    r.append("repos:\n");
    r.append(content);
    proof {
        assert(r@ =~= meta_document(*c, ts@, content@));
    }
    r
}

/// Render the complete pre-commit configuration for the given clock
/// reading, deterministically: the result is a function of the settings
/// and the clock reading alone.
pub fn render_config_at(config: &PreCommitConfig, timestamp: &str) -> (r: String)
    ensures
        r@ == final_document(*config, timestamp@),
        ends_with_one_newline(r@),
{
    let combined = render_combined_blocks(config);
    let indented = indent(combined.as_str(), 2);
    let meta = render_meta_document(config, timestamp, indented.as_str());
    let r = with_one_trailing_newline(meta.as_str());
    proof {
        lemma_one_trailing_newline(*config, timestamp@);
    }
    r
}

/// Relies on `chrono::DateTime::<Utc>::from` (which, unlike `Utc::now`,
/// handles a clock reading before the Unix epoch) and `format`: a textual
/// reading of the current UTC time. The reading depends on the clock, so
/// only one thing is assumed of its value: the format string has no
/// newline item, so the reading holds no newline.
#[verifier::external_body]
fn utc_timestamp() -> (r: String)
    ensures
        forall|i: int| 0 <= i < r@.len() ==> r@[i] != '\n',
{
    let now = chrono::DateTime::<chrono::Utc>::from(std::time::SystemTime::now());
    now.format("%Y-%m-%dT%H:%M:%SZ").to_string()
}

/// Render the complete pre-commit configuration, stamped with the current
/// UTC time: the wrapped, indented fragment blocks, ending with exactly
/// one trailing newline.
pub fn render_config(config: &PreCommitConfig) -> (r: Result<String, String>)
    ensures
        r is Ok,
        r matches Ok(text) ==> {
            &&& exists|ts: Seq<char>|
                no_newline(ts) && text@ == final_document(*config, ts)
            &&& ends_with_one_newline(text@)
        },
{
    let ts = utc_timestamp();
    let text = render_config_at(config, ts.as_str());
    proof {
        assert(no_newline(ts@));
        assert(text@ == final_document(*config, ts@));
    }
    Ok(text)
}

} // verus!
